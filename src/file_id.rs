use vstd::prelude::*;

verus! {

/// Dense handle of an interned file identity.
#[derive(Copy, Clone, Debug, Ord, PartialOrd, Eq, PartialEq, Hash, Structural)]
pub struct FileId(pub u32);

impl FileId {
    /// Largest raw value a `FileId` may carry.
    pub const MAX_FILE_ID: u32 = 0x7fff_ffff;

    /// Builds a handle from its raw value.
    pub fn from_raw(raw: u32) -> (r: FileId)
        requires
            raw <= FileId::MAX_FILE_ID,
        ensures
            r.0 == raw,
    {
        FileId(raw)
    }

    /// The raw value of the handle.
    pub fn index(self) -> (r: u32)
        ensures
            r == self.0,
    {
        self.0
    }
}

} // verus!
