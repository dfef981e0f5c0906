//! A minimal editable-molecule handle exposing only rendering and cloning.
//!
//! This variant predates the richer handle in `crate::graphmol::rw_mol` and
//! is kept for callers that need nothing beyond those two operations.  It
//! owns one reference to a native object exactly as the primary handle does,
//! and shares the primary handle's verified rendering path.

use vstd::prelude::*;

use crate::native::NativeHeap;

verus! {

/// An owning, editable-typed view of native object `id`.
pub struct RWMol {
    pub id: usize,
}

impl RWMol {
    /// The handle points at a live object of `h`.
    pub open spec fn wf(self, h: NativeHeap) -> bool {
        h.wf() && h.live(self.id as int)
    }

    /// The line notation this handle's object renders to in heap `h`.
    pub open spec fn notation(self, h: NativeHeap) -> Seq<char> {
        h.notation_at(self.id as int)
    }

    /// Render the molecule to its canonical line notation, through the same
    /// borrow-cast rendering path as the primary handle type: a pure read
    /// that restores the heap exactly.
    pub fn as_smile(&self, h: &mut NativeHeap) -> (r: String)
        requires
            self.wf(*old(h)),
            old(h).refs_at(self.id as int) < u64::MAX,
        ensures
            final(h).wf(),
            NativeHeap::same_state(*old(h), *final(h)),
            r@ == self.notation(*old(h)),
    {
        let m = crate::graphmol::rw_mol::RWMol { id: self.id };
        m.as_smiles(h)
    }

    /// Deep clone: a fresh, independent object with the same notation.
    pub fn deep_clone(&self, h: &mut NativeHeap) -> (r: RWMol)
        requires
            self.wf(*old(h)),
        ensures
            final(h).wf(),
            NativeHeap::allocates(
                *old(h),
                *final(h),
                r.id as int,
                old(h).notation_at(self.id as int),
            ),
            r.id != self.id,
            r.wf(*final(h)),
            self.wf(*final(h)),
    {
        let m = crate::graphmol::rw_mol::RWMol { id: self.id };
        let copy = m.deep_clone(h);
        RWMol { id: copy.id }
    }
}

} // verus!
