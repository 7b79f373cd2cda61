use vstd::prelude::*;

use crate::file_id::FileId;

verus! {

/// A path relative to the directory of an anchor file, owning its text.
#[derive(Clone, PartialEq, Eq, Debug)]
pub struct AnchoredPathBuf {
    pub anchor: FileId,
    pub path: String,
}

/// A path relative to the directory of an anchor file, borrowing its text.
#[derive(Clone, Copy, PartialEq, Eq, Debug)]
pub struct AnchoredPath<'a> {
    pub anchor: FileId,
    pub path: &'a str,
}

} // verus!
