//! The immutable-molecule handle.
//!
//! An `ROMol` is one owning, read-oriented view of a native molecule object.
//! The rendering routine of the engine is bound to this type; the editable
//! handle reaches it by taking a temporary `ROMol`-typed alias of its own
//! object (see `rw_mol`).  Only construction paths inside this crate mint an
//! `ROMol`, and each minted handle accounts for exactly one reference.

use vstd::prelude::*;

use crate::native::NativeHeap;

verus! {

/// An owning, immutable-typed view of native object `id`.
pub struct ROMol {
    pub id: usize,
}

impl ROMol {
    /// The handle points at a live object of `h`.
    pub open spec fn wf(self, h: NativeHeap) -> bool {
        h.wf() && h.live(self.id as int)
    }

    /// The line notation this handle's object renders to in heap `h`.
    pub open spec fn notation(self, h: NativeHeap) -> Seq<char> {
        h.notation_at(self.id as int)
    }

    /// Render the molecule to its canonical line notation.  A pure read: the
    /// heap — every object, every reference count — is left as it was.
    pub fn as_smiles(&self, h: &NativeHeap) -> (r: String)
        requires
            self.wf(*h),
        ensures
            r@ == self.notation(*h),
    {
        h.read_notation(self.id)
    }

    /// Give up this view's ownership share: the object's reference count
    /// drops by one, freeing the object when this was the last view.
    pub fn release(self, h: &mut NativeHeap)
        requires
            self.wf(*old(h)),
        ensures
            final(h).wf(),
            NativeHeap::releases(*old(h), *final(h), self.id as int),
    {
        h.release_ref(self.id)
    }
}

} // verus!
