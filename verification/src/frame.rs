//! The Content-Length framing grammar (LSP style), stated over byte sequences.
//!
//! A frame is a block of header lines, each ended by `\n` (an optional `\r`
//! before it is dropped), closed by an empty line, followed by exactly
//! `Content-Length` bytes of body. The header name is matched without regard
//! to case, the value may be surrounded by white space and carry a leading `+`;
//! the last `Content-Length` header wins and other headers are ignored.
use vstd::prelude::*;
use vstd::string::StringSliceAdditionalSpecFns;

verus! {

// =============================================================================
// Bytes and characters
// =============================================================================

/// `\n`
pub open spec fn newline() -> u8 {
    10u8
}

/// `\r`
pub open spec fn carriage_return() -> u8 {
    13u8
}

/// A byte that, read as a Latin-1 character, is Unicode white space.
pub open spec fn is_space(b: u8) -> bool {
    (9 <= b && b <= 13) || b == 32 || b == 0x85 || b == 0xA0
}

/// An ASCII decimal digit.
pub open spec fn is_digit(b: u8) -> bool {
    48 <= b && b <= 57
}

/// The lowercase form of a byte read as a Latin-1 character.
pub open spec fn lower(b: u8) -> u8 {
    if (65 <= b && b <= 90) || (0xC0 <= b && b <= 0xDE && b != 0xD7) {
        (b + 32) as u8
    } else {
        b
    }
}

/// Every byte of `s`, lowercased.
pub open spec fn lower_all(s: Seq<u8>) -> Seq<u8> {
    Seq::new(s.len(), |i: int| lower(s[i]))
}

/// Bytes read as Latin-1 characters.
pub open spec fn latin1(s: Seq<u8>) -> Seq<char> {
    Seq::new(s.len(), |i: int| s[i] as char)
}

/// `s` without leading white space.
pub open spec fn trim_start(s: Seq<u8>) -> Seq<u8>
    decreases s.len(),
{
    if s.len() > 0 && is_space(s[0]) {
        trim_start(s.drop_first())
    } else {
        s
    }
}

/// `s` without trailing white space.
pub open spec fn trim_end(s: Seq<u8>) -> Seq<u8>
    decreases s.len(),
{
    if s.len() > 0 && is_space(s.last()) {
        trim_end(s.drop_last())
    } else {
        s
    }
}

/// `s` without white space at either end.
pub open spec fn trim(s: Seq<u8>) -> Seq<u8> {
    trim_end(trim_start(s))
}

// =============================================================================
// Decimal numbers
// =============================================================================

/// The number that a string of decimal digits denotes.
pub open spec fn decimal_value(d: Seq<u8>) -> int
    decreases d.len(),
{
    if d.len() == 0 {
        0
    } else {
        decimal_value(d.drop_last()) * 10 + (d.last() - 48)
    }
}

/// All bytes of `d` are decimal digits.
pub open spec fn all_digits(d: Seq<u8>) -> bool {
    forall|i: int| 0 <= i < d.len() ==> is_digit(#[trigger] d[i])
}

/// The shortest decimal representation of `n`.
pub open spec fn decimal_digits(n: nat) -> Seq<u8>
    decreases n,
{
    if n < 10 {
        seq![(48 + n) as u8]
    } else {
        decimal_digits(n / 10).push((48 + n % 10) as u8)
    }
}

// =============================================================================
// Header lines
// =============================================================================

/// The header name `content-length:` in lowercase bytes.
pub open spec fn length_header_name() -> Seq<u8> {
    seq![99u8, 111, 110, 116, 101, 110, 116, 45, 108, 101, 110, 103, 116, 104, 58]
}

/// The line starts with `content-length:`, in any case.
pub open spec fn names_content_length(line: Seq<u8>) -> bool {
    &&& line.len() >= 15
    &&& forall|i: int| 0 <= i < 15 ==> lower(#[trigger] line[i]) == length_header_name()[i]
}

/// The value of a `Content-Length` line: what follows the name, trimmed.
pub open spec fn length_value(line: Seq<u8>) -> Seq<u8> {
    trim(line.skip(15))
}

/// The digits of a length value, after an optional leading `+`.
pub open spec fn unsigned_digits(v: Seq<u8>) -> Seq<u8> {
    if v.len() > 0 && v[0] == 43 {
        v.drop_first()
    } else {
        v
    }
}

/// What a header line says about the body length.
pub enum LengthHeader {
    /// Some other header.
    Other,
    /// A `Content-Length` header with a valid value.
    Length(usize),
    /// A `Content-Length` header whose value is not a `usize`.
    Invalid,
}

/// Classifies one header line (without its line ending).
pub open spec fn classify_header(line: Seq<u8>) -> LengthHeader {
    if !names_content_length(line) {
        LengthHeader::Other
    } else {
        let d = unsigned_digits(length_value(line));
        if d.len() > 0 && all_digits(d) && decimal_value(d) <= usize::MAX {
            LengthHeader::Length(decimal_value(d) as usize)
        } else {
            LengthHeader::Invalid
        }
    }
}

/// A line without its trailing `\r`, if any.
pub open spec fn strip_cr(line: Seq<u8>) -> Seq<u8> {
    if line.len() > 0 && line.last() == carriage_return() {
        line.drop_last()
    } else {
        line
    }
}

// =============================================================================
// Scanning the header block
// =============================================================================

/// The state of a scan through a header block.
pub ghost enum HeaderScan {
    /// Inside the header block: the bytes of the current line so far and
    /// the last valid length seen.
    Reading { line: Seq<u8>, length: Option<usize> },
    /// The empty line ended the block; `end` counts the bytes up to and
    /// including its `\n`.
    Complete { end: nat, length: Option<usize> },
    /// A `Content-Length` line with an invalid value ended the scan after
    /// `end` bytes.
    BadLength { end: nat, line: Seq<u8> },
}

/// What a completed header line does to the scan; `pos` counts the bytes
/// consumed up to and including its `\n`.
pub open spec fn end_of_line(line: Seq<u8>, length: Option<usize>, pos: nat) -> HeaderScan {
    if line.len() == 0 {
        HeaderScan::Complete { end: pos, length }
    } else {
        match classify_header(line) {
            LengthHeader::Other => HeaderScan::Reading { line: seq![], length },
            LengthHeader::Length(n) => HeaderScan::Reading { line: seq![], length: Some(n) },
            LengthHeader::Invalid => HeaderScan::BadLength { end: pos, line },
        }
    }
}

/// One byte of the scan; `pos` counts the bytes consumed including `b`.
pub open spec fn header_step(st: HeaderScan, b: u8, pos: nat) -> HeaderScan {
    match st {
        HeaderScan::Reading { line, length } => {
            if b == newline() {
                end_of_line(strip_cr(line), length, pos)
            } else {
                HeaderScan::Reading { line: line.push(b), length }
            }
        },
        _ => st,
    }
}

/// The scan of the header block at the front of `s`.
pub open spec fn scan_headers(s: Seq<u8>) -> HeaderScan
    decreases s.len(),
{
    if s.len() == 0 {
        HeaderScan::Reading { line: seq![], length: None }
    } else {
        header_step(scan_headers(s.drop_last()), s.last(), s.len())
    }
}

// =============================================================================
// Frames
// =============================================================================

/// What the front of a byte stream holds.
pub ghost enum FrameParse {
    /// More bytes are needed to decide.
    Incomplete,
    /// A complete frame with this body, `end` bytes long.
    Message { body: Seq<u8>, end: nat },
    /// The header block ended without a `Content-Length` header.
    MissingLength { end: nat },
    /// A `Content-Length` header with an invalid value.
    InvalidLength { end: nat, line: Seq<u8> },
}

/// Parses the frame at the front of `s`.
pub open spec fn parse_frame(s: Seq<u8>) -> FrameParse {
    match scan_headers(s) {
        HeaderScan::Reading { .. } => FrameParse::Incomplete,
        HeaderScan::BadLength { end, line } => FrameParse::InvalidLength { end, line },
        HeaderScan::Complete { end, length } => match length {
            None => FrameParse::MissingLength { end },
            Some(n) => if end + n <= s.len() {
                FrameParse::Message { body: s.subrange(end as int, end + n), end: (end + n) as nat }
            } else {
                FrameParse::Incomplete
            },
        },
    }
}

/// `Content-Length: ` as written by the encoder.
pub open spec fn frame_header_prefix() -> Seq<u8> {
    seq![67u8, 111, 110, 116, 101, 110, 116, 45, 76, 101, 110, 103, 116, 104, 58, 32]
}

/// The frame that carries `body`.
pub open spec fn frame_bytes(body: Seq<u8>) -> Seq<u8> {
    frame_header_prefix() + decimal_digits(body.len()) + seq![13u8, 10, 13, 10] + body
}


// =============================================================================
// Facts about decimal numbers
// =============================================================================

/// The decimal representation of `n` is a nonempty digit string that denotes `n`.
pub proof fn lemma_decimal_digits(n: nat)
    ensures
        decimal_digits(n).len() > 0,
        all_digits(decimal_digits(n)),
        decimal_value(decimal_digits(n)) == n,
        decimal_digits(n)[0] != 43u8,
    decreases n,
{
    if n >= 10 {
        lemma_decimal_digits(n / 10);
        let d = decimal_digits(n / 10).push((48 + n % 10) as u8);
        assert(d.drop_last() =~= decimal_digits(n / 10));
        assert(d.last() == 48 + n % 10);
        assert(n == (n / 10) * 10 + n % 10) by (nonlinear_arith);
        assert(decimal_value(d) == decimal_value(decimal_digits(n / 10)) * 10 + (d.last() - 48));
    } else {
        let d = decimal_digits(n);
        assert(d.drop_last() =~= Seq::<u8>::empty());
        assert(d.last() == 48 + n);
        assert(decimal_value(d.drop_last()) == 0);
        assert(decimal_value(d) == n);
    }
}

/// A digit string denotes a value no smaller than any of its prefixes.
pub proof fn lemma_decimal_value_prefix(d: Seq<u8>, m: int)
    requires
        all_digits(d),
        0 <= m <= d.len(),
    ensures
        0 <= decimal_value(d.take(m)) <= decimal_value(d),
    decreases d.len(),
{
    if d.len() > 0 {
        if m == d.len() {
            assert(d.take(m) =~= d);
            lemma_decimal_value_prefix(d.drop_last(), m - 1);
            assert(d.drop_last().take(m - 1) =~= d.drop_last());
        } else {
            lemma_decimal_value_prefix(d.drop_last(), m);
            assert(d.drop_last().take(m) =~= d.take(m));
            lemma_decimal_value_prefix(d.drop_last(), d.len() - 1);
            assert(d.drop_last().take(d.len() - 1) =~= d.drop_last());
            assert(is_digit(d[d.len() - 1]));
        }
    } else {
        assert(d.take(m) =~= d);
    }
}

// =============================================================================
// Facts about the header scan
// =============================================================================

/// `s` holds no `\n`.
pub open spec fn no_newline(s: Seq<u8>) -> bool {
    forall|i: int| 0 <= i < s.len() ==> #[trigger] s[i] != newline()
}

/// A scan that has ended did so within the bytes scanned.
pub proof fn lemma_scan_end_bound(s: Seq<u8>)
    ensures
        scan_headers(s) matches HeaderScan::Complete { end, .. } ==> end <= s.len(),
        scan_headers(s) matches HeaderScan::BadLength { end, .. } ==> end <= s.len(),
    decreases s.len(),
{
    if s.len() > 0 {
        lemma_scan_end_bound(s.drop_last());
    }
}

/// Once the scan has ended, later bytes do not change it.
pub proof fn lemma_scan_extends(s: Seq<u8>, t: Seq<u8>)
    requires
        !(scan_headers(s) is Reading),
    ensures
        scan_headers(s + t) == scan_headers(s),
    decreases t.len(),
{
    if t.len() == 0 {
        assert(s + t =~= s);
    } else {
        lemma_scan_extends(s, t.drop_last());
        assert((s + t).drop_last() =~= s + t.drop_last());
    }
}

/// Bytes without `\n` extend the current line.
pub proof fn lemma_scan_line_bytes(s: Seq<u8>, c: Seq<u8>)
    requires
        scan_headers(s) is Reading,
        no_newline(c),
    ensures
        scan_headers(s + c) == (HeaderScan::Reading {
            line: scan_headers(s)->Reading_line + c,
            length: scan_headers(s)->Reading_length,
        }),
    decreases c.len(),
{
    if c.len() == 0 {
        assert(s + c =~= s);
        assert(scan_headers(s)->Reading_line + c =~= scan_headers(s)->Reading_line);
    } else {
        lemma_scan_line_bytes(s, c.drop_last());
        assert((s + c).drop_last() =~= s + c.drop_last());
        assert((scan_headers(s)->Reading_line + c.drop_last()).push(c.last()) =~= scan_headers(s)->Reading_line
            + c);
    }
}

/// A line of bytes ended by `\n` goes through `end_of_line`.
pub proof fn lemma_scan_line(s: Seq<u8>, c: Seq<u8>)
    requires
        scan_headers(s) is Reading,
        no_newline(c),
    ensures
        scan_headers(s + c.push(newline())) == end_of_line(
            strip_cr(scan_headers(s)->Reading_line + c),
            scan_headers(s)->Reading_length,
            (s.len() + c.len() + 1) as nat,
        ),
{
    lemma_scan_line_bytes(s, c);
    assert((s + c.push(newline())).drop_last() =~= s + c);
}

/// A decided frame stays decided, whatever bytes follow it.
pub proof fn lemma_parse_frame_extends(s: Seq<u8>, t: Seq<u8>)
    requires
        !(parse_frame(s) is Incomplete),
    ensures
        parse_frame(s + t) == parse_frame(s),
{
    lemma_scan_extends(s, t);
    if let FrameParse::Message { body, end } = parse_frame(s) {
        assert((s + t).subrange(end - body.len(), end as int) =~= body);
    }
}

/// The header block of `frame_bytes(body)`.
pub open spec fn frame_header(n: nat) -> Seq<u8> {
    frame_header_prefix() + decimal_digits(n) + seq![13u8, 10, 13, 10]
}

/// The header line of a frame names a valid length of `n` bytes.
proof fn lemma_frame_header_line(n: nat)
    requires
        n <= usize::MAX,
    ensures
        classify_header(frame_header_prefix() + decimal_digits(n)) == LengthHeader::Length(
            n as usize,
        ),
{
    let p = frame_header_prefix();
    let d = decimal_digits(n);
    let line = p + d;
    lemma_decimal_digits(n);
    assert forall|i: int| 0 <= i < 15 implies lower(#[trigger] line[i])
        == length_header_name()[i] by {
        assert(line[i] == p[i]);
    }
    assert(line.skip(15) =~= seq![32u8] + d);
    assert((seq![32u8] + d).drop_first() =~= d);
    assert(is_digit(d[0]));
    assert(trim_start(seq![32u8] + d) == trim_start(d));
    assert(is_digit(d.last()));
    assert(trim_end(d) == d);
    assert(length_value(line) == d);
}

/// Reading back a frame gives its body, and consumes exactly the frame.
pub proof fn lemma_frame_roundtrip(body: Seq<u8>, rest: Seq<u8>)
    requires
        body.len() <= usize::MAX,
    ensures
        parse_frame(frame_bytes(body) + rest) == (FrameParse::Message {
            body,
            end: frame_bytes(body).len(),
        }),
{
    let n = body.len();
    let p = frame_header_prefix();
    let d = decimal_digits(n);
    lemma_decimal_digits(n);
    let c = p + d + seq![13u8];
    assert forall|i: int| 0 <= i < c.len() implies #[trigger] c[i] != newline() by {
        if i < p.len() {
            assert(c[i] == p[i]);
        } else if i < p.len() + d.len() {
            assert(c[i] == d[i - p.len()]);
            assert(is_digit(d[i - p.len()]));
        }
    }
    let empty = Seq::<u8>::empty();
    assert(scan_headers(empty) == (HeaderScan::Reading { line: empty, length: None }));
    lemma_scan_line(empty, c);
    assert(empty + c.push(newline()) =~= c.push(newline()));
    assert(empty + c =~= c);
    assert(strip_cr(c) =~= p + d);
    lemma_frame_header_line(n);
    let s1 = c.push(newline());
    assert(scan_headers(s1) == (HeaderScan::Reading { line: empty, length: Some(n as usize) }));
    let c2 = seq![13u8];
    assert(no_newline(c2));
    lemma_scan_line(s1, c2);
    assert(empty + c2 =~= c2);
    assert(strip_cr(c2) =~= empty);
    let h = s1 + c2.push(newline());
    assert(h =~= frame_header(n));
    assert(scan_headers(h) == (HeaderScan::Complete { end: h.len(), length: Some(n as usize) }));
    let whole = frame_bytes(body) + rest;
    assert(whole =~= h + (body + rest));
    lemma_scan_extends(h, body + rest);
    assert(whole.subrange(h.len() as int, (h.len() + n) as int) =~= body);
}

// =============================================================================
// Executable counterparts
// =============================================================================

/// Appends the decimal representation of `n`.
pub fn push_decimal(out: &mut Vec<u8>, n: usize)
    ensures
        final(out)@ == old(out)@ + decimal_digits(n as nat),
    decreases n,
{
    if n >= 10 {
        push_decimal(out, n / 10);
    }
    let ghost before = out@;
    out.push((48 + n % 10) as u8);
    assert(out@ =~= old(out)@ + decimal_digits(n as nat));
}

/// The lowercase form of a byte read as a Latin-1 character.
pub fn lower_byte(b: u8) -> (r: u8)
    ensures
        r == lower(b),
{
    if (65 <= b && b <= 90) || (0xC0 <= b && b <= 0xDE && b != 0xD7) {
        b + 32
    } else {
        b
    }
}

/// Whether a byte, read as a Latin-1 character, is white space.
pub fn is_space_byte(b: u8) -> (r: bool)
    ensures
        r == is_space(b),
{
    (9 <= b && b <= 13) || b == 32 || b == 0x85 || b == 0xA0
}

/// The byte of `content-length:` at index `i`.
fn length_header_name_byte(i: usize) -> (b: u8)
    requires
        i < 15,
    ensures
        b == length_header_name()[i as int],
{
    match i {
        0 => 99,
        1 => 111,
        2 => 110,
        3 => 116,
        4 => 101,
        5 => 110,
        6 => 116,
        7 => 45,
        8 => 108,
        9 => 101,
        10 => 110,
        11 => 103,
        12 => 116,
        13 => 104,
        _ => 58,
    }
}

/// Whether a header line names `Content-Length`.
pub fn line_names_content_length(line: &[u8]) -> (r: bool)
    ensures
        r == names_content_length(line@),
{
    if line.len() < 15 {
        return false;
    }
    let mut i: usize = 0;
    while i < 15
        invariant
            15 <= line@.len(),
            0 <= i <= 15,
            forall|k: int| 0 <= k < i ==> lower(#[trigger] line@[k]) == length_header_name()[k],
        decreases 15 - i,
    {
        if lower_byte(line[i]) != length_header_name_byte(i) {
            return false;
        }
        i += 1;
    }
    true
}

/// The bounds of the trimmed value of a `Content-Length` line.
pub fn length_value_bounds(line: &[u8]) -> (r: (usize, usize))
    requires
        line@.len() >= 15,
    ensures
        15 <= r.0 <= r.1 <= line@.len(),
        line@.subrange(r.0 as int, r.1 as int) == length_value(line@),
{
    let n = line.len();
    let mut start: usize = 15;
    while start < n && is_space_byte(line[start])
        invariant
            15 <= start <= n == line@.len(),
            trim_start(line@.skip(15)) == trim_start(line@.subrange(start as int, n as int)),
        decreases n - start,
    {
        assert(line@.subrange(start as int, n as int).drop_first() =~= line@.subrange(
            start + 1,
            n as int,
        ));
        start += 1;
    }
    assert(trim_start(line@.subrange(start as int, n as int)) == line@.subrange(
        start as int,
        n as int,
    ));
    let mut end: usize = n;
    while end > start && is_space_byte(line[end - 1])
        invariant
            15 <= start <= end <= n == line@.len(),
            trim_start(line@.skip(15)) == line@.subrange(start as int, n as int),
            trim_end(line@.subrange(start as int, n as int)) == trim_end(
                line@.subrange(start as int, end as int),
            ),
        decreases end - start,
    {
        assert(line@.subrange(start as int, end as int).drop_last() =~= line@.subrange(
            start as int,
            end - 1,
        ));
        end -= 1;
    }
    assert(trim_end(line@.subrange(start as int, end as int)) == line@.subrange(
        start as int,
        end as int,
    ));
    (start, end)
}

/// Classifies one header line (without its line ending).
pub fn classify_header_line(line: &[u8]) -> (r: LengthHeader)
    ensures
        r == classify_header(line@),
{
    if !line_names_content_length(line) {
        return LengthHeader::Other;
    }
    let (start, end) = length_value_bounds(line);
    let ghost v = line@.subrange(start as int, end as int);
    let mut k = start;
    if k < end && line[k] == 43 {
        k += 1;
    }
    let ghost d = line@.subrange(k as int, end as int);
    assert(d =~= unsigned_digits(v));
    if k == end {
        return LengthHeader::Invalid;
    }
    let mut value: usize = 0;
    let mut j = k;
    while j < end
        invariant
            start <= k <= j <= end <= line@.len(),
            d == line@.subrange(k as int, end as int),
            d == unsigned_digits(length_value(line@)),
            names_content_length(line@),
            all_digits(d.take(j - k)),
            value == decimal_value(d.take(j - k)),
        decreases end - j,
    {
        let b = line[j];
        assert(d.take(j - k + 1).drop_last() =~= d.take(j - k));
        if !(48 <= b && b <= 57) {
            assert(!is_digit(d[j - k]));
            return LengthHeader::Invalid;
        }
        assert(all_digits(d.take(j - k + 1)));
        let digit = (b - 48) as usize;
        match value.checked_mul(10) {
            None => {
                proof {
                    if all_digits(d) {
                        lemma_decimal_value_prefix(d, j - k + 1);
                    }
                }
                return LengthHeader::Invalid;
            },
            Some(v10) => match v10.checked_add(digit) {
                None => {
                    proof {
                        if all_digits(d) {
                            lemma_decimal_value_prefix(d, j - k + 1);
                        }
                    }
                    return LengthHeader::Invalid;
                },
                Some(v) => {
                    value = v;
                },
            },
        }
        j += 1;
    }
    assert(d.take(j - k) =~= d);
    LengthHeader::Length(value)
}

/// The byte of `Content-Length: ` at index `i`.
fn frame_header_prefix_byte(i: usize) -> (b: u8)
    requires
        i < 16,
    ensures
        b == frame_header_prefix()[i as int],
{
    match i {
        0 => 67,
        1 => 111,
        2 => 110,
        3 => 116,
        4 => 101,
        5 => 110,
        6 => 116,
        7 => 45,
        8 => 76,
        9 => 101,
        10 => 110,
        11 => 103,
        12 => 116,
        13 => 104,
        14 => 58,
        _ => 32,
    }
}

/// The frame that carries `message`: `Content-Length: <n>\r\n\r\n<message>`,
/// where `<n>` is the length of the message in bytes.
pub fn encode_frame(message: &str) -> (r: Vec<u8>)
    ensures
        r@ == frame_bytes(message.spec_bytes()),
{
    let bytes = message.as_bytes();
    let mut out: Vec<u8> = Vec::new();
    let mut i: usize = 0;
    while i < 16
        invariant
            0 <= i <= 16,
            out@ == frame_header_prefix().take(i as int),
        decreases 16 - i,
    {
        out.push(frame_header_prefix_byte(i));
        assert(frame_header_prefix().take(i + 1) =~= frame_header_prefix().take(i as int).push(
            frame_header_prefix()[i as int],
        ));
        i += 1;
    }
    assert(frame_header_prefix().take(16) =~= frame_header_prefix());
    push_decimal(&mut out, bytes.len());
    out.push(13);
    out.push(10);
    out.push(13);
    out.push(10);
    let ghost header = frame_header(bytes@.len());
    assert(out@ =~= header);
    let mut j: usize = 0;
    while j < bytes.len()
        invariant
            0 <= j <= bytes@.len(),
            bytes@ == message.spec_bytes(),
            out@ == header + bytes@.take(j as int),
        decreases bytes@.len() - j,
    {
        out.push(bytes[j]);
        assert(header + bytes@.take(j + 1) =~= (header + bytes@.take(j as int)).push(bytes@[j as int]));
        j += 1;
    }
    assert(bytes@.take(j as int) =~= bytes@);
    assert(frame_bytes(message.spec_bytes()) =~= header + bytes@);
    out
}

} // verus!
