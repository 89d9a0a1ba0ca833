use copilot_sdk::table::KeyedTable;

fn keys(t: &KeyedTable<String, u32>) -> Vec<(String, u32)> {
    (0..t.len()).map(|i| {
        let (k, v) = t.entry_at(i);
        (k.clone(), *v)
    }).collect()
}

#[test]
fn table_keeps_insertion_order_and_replaces_in_place() {
    let mut t: KeyedTable<String, u32> = KeyedTable::new();
    t.insert("a".to_string(), 1);
    t.insert("b".to_string(), 2);
    t.insert("a".to_string(), 3);
    assert_eq!(keys(&t), vec![("a".to_string(), 3), ("b".to_string(), 2)]);
    assert_eq!(t.get(&"a".to_string()), Some(&3));
}

#[test]
fn table_remove_drops_only_that_key() {
    let mut t: KeyedTable<String, u32> = KeyedTable::new();
    t.insert("a".to_string(), 1);
    t.insert("b".to_string(), 2);
    t.insert("c".to_string(), 3);
    t.remove(&"b".to_string());
    assert_eq!(keys(&t), vec![("a".to_string(), 1), ("c".to_string(), 3)]);
    t.remove(&"zzz".to_string());
    assert_eq!(t.len(), 2);
    assert!(!t.contains(&"b".to_string()));
}
