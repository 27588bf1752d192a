//! Font binaries as the caches see them.

use std::rc::Rc;
use vstd::prelude::*;

verus! {

/// A registered font binary: an immutable shared byte buffer together with
/// a process-stable 64-bit identity.  The identity is assigned by the font
/// registration layer and stands for the bytes in every cache key, so that
/// keys stay small; one blob may hold a whole font collection with several
/// sub-fonts.  Cloning shares the buffer.
pub struct FontBlob {
    pub id: u64,
    pub data: Rc<Vec<u8>>,
}

impl FontBlob {
    /// Wraps registered font bytes and their assigned identity.
    pub fn new(id: u64, data: Vec<u8>) -> (r: FontBlob)
        ensures
            r.id == id,
            r.data@ == data@,
    {
        FontBlob { id, data: Rc::new(data) }
    }

    /// The byte length of the font binary.
    pub fn len(&self) -> (r: usize)
        ensures
            r == self.data@.len(),
    {
        self.data.len()
    }
}

impl Clone for FontBlob {
    /// Shares the buffer; no bytes are copied.
    fn clone(&self) -> (r: Self)
        ensures
            r == *self,
    {
        FontBlob { id: self.id, data: self.data.clone() }
    }
}

/// What the external font-discovery layer answers a family-name query
/// with: a font binary and the index of the chosen sub-font within it.
pub struct FontQuery {
    pub blob: FontBlob,
    pub index: u32,
}

} // verus!
