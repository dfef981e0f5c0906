//! A model of the native engine's shared-ownership heap.
//!
//! The engine hands out molecule objects behind reference-counted pointers.
//! Within this crate's scope the only observation ever made of such an object
//! is the line-notation text the engine renders for it, so the model reduces
//! an object to that notation.  Each slot of the heap carries the object's
//! current reference count and its notation; a count of zero means the object
//! has been freed.  Handle operations are specified as relations between the
//! heap before and after the call, which is what lets the crate prove that
//! aliasing and release are balanced: no double free, no read of a dead
//! object, and a count that always reflects the number of live typed views.

use vstd::prelude::*;

verus! {

/// The engine-side heap: `refs[id]` is the reference count of object `id`,
/// `notations[id]` the line notation it renders to.  The two columns always
/// have the same length; a slot is never reused.
pub struct NativeHeap {
    pub refs: Vec<u64>,
    pub notations: Vec<String>,
}

impl NativeHeap {
    /// The two columns describe the same objects.
    pub open spec fn wf(self) -> bool {
        self.refs@.len() == self.notations@.len()
    }

    /// Number of slots ever allocated.
    pub open spec fn len(self) -> int {
        self.refs@.len() as int
    }

    /// Object `id` exists and is still owned by at least one handle.
    pub open spec fn live(self, id: int) -> bool {
        0 <= id < self.len() && self.refs@[id] >= 1
    }

    /// Current reference count of object `id`.
    pub open spec fn refs_at(self, id: int) -> u64 {
        self.refs@[id]
    }

    /// The line notation object `id` renders to.
    pub open spec fn notation_at(self, id: int) -> Seq<char> {
        self.notations@[id]@
    }

    /// `post` carries exactly the objects of `pre`, with the same notations;
    /// only reference counts may differ.
    pub open spec fn same_objects(pre: NativeHeap, post: NativeHeap) -> bool {
        &&& post.len() == pre.len()
        &&& post.notations@ == pre.notations@
    }

    /// The heaps are indistinguishable: same objects, same counts.
    pub open spec fn same_state(pre: NativeHeap, post: NativeHeap) -> bool {
        &&& post.refs@ == pre.refs@
        &&& post.notations@ == pre.notations@
    }

    /// One fresh object with notation `notation` was allocated at slot `id`
    /// with a single owning reference; every older slot is untouched.
    pub open spec fn allocates(
        pre: NativeHeap,
        post: NativeHeap,
        id: int,
        notation: Seq<char>,
    ) -> bool {
        &&& id == pre.len()
        &&& post.len() == pre.len() + 1
        &&& post.refs_at(id) == 1
        &&& post.notation_at(id) == notation
        &&& forall|j: int| 0 <= j < pre.len() ==> #[trigger] post.refs_at(j) == pre.refs_at(j)
        &&& forall|j: int|
            0 <= j < pre.len() ==> #[trigger] post.notation_at(j) == pre.notation_at(j)
    }

    /// The count of object `id` went up by one; nothing else moved.
    pub open spec fn retains(pre: NativeHeap, post: NativeHeap, id: int) -> bool {
        &&& Self::same_objects(pre, post)
        &&& post.refs_at(id) == pre.refs_at(id) + 1
        &&& forall|j: int|
            0 <= j < pre.len() && j != id ==> #[trigger] post.refs_at(j) == pre.refs_at(j)
    }

    /// The count of object `id` went down by one; nothing else moved.  When
    /// the count reaches zero the object is freed and no longer readable.
    pub open spec fn releases(pre: NativeHeap, post: NativeHeap, id: int) -> bool {
        &&& Self::same_objects(pre, post)
        &&& post.refs_at(id) == pre.refs_at(id) - 1
        &&& forall|j: int|
            0 <= j < pre.len() && j != id ==> #[trigger] post.refs_at(j) == pre.refs_at(j)
    }

    /// An engine with no objects yet.
    pub fn new() -> (h: NativeHeap)
        ensures
            h.wf(),
            h.len() == 0,
    {
        NativeHeap { refs: Vec::new(), notations: Vec::new() }
    }

    /// The engine builds a fresh object that renders to `notation` and hands
    /// out its first owning reference.
    pub(crate) fn allocate(&mut self, notation: String) -> (id: usize)
        requires
            old(self).wf(),
        ensures
            final(self).wf(),
            NativeHeap::allocates(*old(self), *final(self), id as int, notation@),
    {
        let id = self.refs.len();
        self.refs.push(1);
        self.notations.push(notation);
        id
    }

    /// One more typed view of object `id` starts owning it.
    pub(crate) fn retain(&mut self, id: usize)
        requires
            old(self).wf(),
            old(self).live(id as int),
            old(self).refs_at(id as int) < u64::MAX,
        ensures
            final(self).wf(),
            NativeHeap::retains(*old(self), *final(self), id as int),
    {
        let n = self.refs[id];
        self.refs[id] = n + 1;
    }

    /// One typed view of object `id` stops owning it.
    pub(crate) fn release_ref(&mut self, id: usize)
        requires
            old(self).wf(),
            old(self).live(id as int),
        ensures
            final(self).wf(),
            NativeHeap::releases(*old(self), *final(self), id as int),
    {
        let n = self.refs[id];
        self.refs[id] = n - 1;
    }

    /// Read the line notation of a live object.
    pub(crate) fn read_notation(&self, id: usize) -> (r: String)
        requires
            self.wf(),
            self.live(id as int),
        ensures
            r@ == self.notation_at(id as int),
    {
        self.notations[id].clone()
    }
}

} // verus!
