//! Shared value types.
use vstd::prelude::*;

verus! {

/// What a user message attachment refers to.
#[derive(Debug, Clone, Copy, PartialEq, Eq, Structural)]
pub enum AttachmentType {
    File,
    Directory,
    Selection,
}

} // verus!
