//! The user's own layout, kept once before the live slot is first overwritten.
use vstd::prelude::*;

verus! {

/// The baseline after `ensure_created` with `live` in the live slot: an
/// existing baseline stays as it is, a missing one becomes `live`.
pub open spec fn baseline_after(existing: Option<Seq<u8>>, live: Seq<u8>) -> Option<Seq<u8>> {
    match existing {
        Some(b) => Some(b),
        None => Some(live),
    }
}

/// The bytes of a stored layout, if one is stored.
pub open spec fn stored_bytes(stored: Option<Vec<u8>>) -> Option<Seq<u8>> {
    match stored {
        Some(b) => Some(b@),
        None => None,
    }
}

/// The baseline layout, as far as it has been stored.
pub struct BaselineLayout {
    content: Option<Vec<u8>>,
}

impl BaselineLayout {
    /// The stored baseline, if any.
    pub closed spec fn stored(&self) -> Option<Seq<u8>> {
        stored_bytes(self.content)
    }

    /// The baseline as found in storage.
    pub fn from_stored(stored: Option<Vec<u8>>) -> (r: BaselineLayout)
        ensures
            r.stored() == stored_bytes(stored),
    {
        BaselineLayout { content: stored }
    }

    /// Whether a baseline is stored.
    pub fn is_stored(&self) -> (r: bool)
        ensures
            r == self.stored() is Some,
    {
        self.content.is_some()
    }

    /// The stored baseline, if any.
    pub fn content(&self) -> (r: Option<&Vec<u8>>)
        ensures
            r matches Some(b) ==> self.stored() == Some(b@),
            r is None ==> self.stored() is None,
    {
        match &self.content {
            Some(b) => Some(b),
            None => None,
        }
    }

    /// Makes sure a baseline exists: where none is stored it becomes `live`,
    /// the content of the live slot now; an existing one is never replaced.
    /// Returns whether the baseline was created, and so must be written out.
    pub fn ensure_created(&mut self, live: &Vec<u8>) -> (created: bool)
        ensures
            final(self).stored() == baseline_after(old(self).stored(), live@),
            created == old(self).stored() is None,
    {
        if self.content.is_some() {
            false
        } else {
            self.content = Some(live.clone());
            true
        }
    }
}

} // verus!
