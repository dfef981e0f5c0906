//! General properties of the handle protocol, stated once over the heap
//! model and proved for every heap and every handle.

use vstd::prelude::*;
use vstd::multiset::Multiset;

use crate::graphmol::ro_mol::ROMol;
use crate::graphmol::rw_mol::RWMol;
use crate::native::NativeHeap;

verus! {

broadcast use vstd::multiset::group_multiset_axioms;

/// Every object's reference count is exactly the number of owning typed
/// views of it — editable and immutable alike — recorded in `views`.
pub open spec fn counted_views(h: NativeHeap, views: Multiset<int>) -> bool {
    &&& forall|id: int| 0 <= id < h.len() ==> h.refs_at(id) == #[trigger] views.count(id)
    &&& forall|id: int| !(0 <= id && id < h.len()) ==> #[trigger] views.count(id) == 0
}

/// Allocation keeps the accounting exact: the fresh object starts with one
/// view, and no other object's count moves.
pub proof fn lemma_counts_track_alloc(
    pre: NativeHeap,
    post: NativeHeap,
    views: Multiset<int>,
    id: int,
    notation: Seq<char>,
)
    requires
        counted_views(pre, views),
        NativeHeap::allocates(pre, post, id, notation),
    ensures
        counted_views(post, views.insert(id)),
{
}

/// The borrow-cast keeps the accounting exact: one more view of the aliased
/// object, one more count on it, nothing else moves.
pub proof fn lemma_counts_track_retain(
    pre: NativeHeap,
    post: NativeHeap,
    views: Multiset<int>,
    id: int,
)
    requires
        counted_views(pre, views),
        pre.live(id),
        NativeHeap::retains(pre, post, id),
    ensures
        counted_views(post, views.insert(id)),
{
}

/// Release keeps the accounting exact: one view of the object gone, one
/// count off it, nothing else moves.  The consuming conversion needs no law
/// of its own: it exchanges one typed view for another of the same object
/// without touching the heap, so both sides of the accounting stand still.
pub proof fn lemma_counts_track_release(
    pre: NativeHeap,
    post: NativeHeap,
    views: Multiset<int>,
    id: int,
)
    requires
        counted_views(pre, views),
        pre.live(id),
        NativeHeap::releases(pre, post, id),
    ensures
        counted_views(post, views.remove(id)),
{
}

/// Raising and then lowering the reference count of one object, each exactly
/// once, restores the heap to its prior state: the temporary alias taken for
/// rendering is balanced — no leaked reference, no double release.
pub proof fn lemma_alias_balanced(h0: NativeHeap, h1: NativeHeap, h2: NativeHeap, id: int)
    requires
        h0.wf(),
        h1.wf(),
        h2.wf(),
        0 <= id < h0.len(),
        NativeHeap::retains(h0, h1, id),
        NativeHeap::releases(h1, h2, id),
    ensures
        NativeHeap::same_state(h0, h2),
{
    assert forall|j: int| 0 <= j < h0.len() implies h2.refs@[j] == h0.refs@[j] by {
        assert(h1.refs_at(j) == h2.refs_at(j) || j == id);
        assert(h0.refs_at(j) == h1.refs_at(j) || j == id);
        assert(h2.refs_at(j) == h2.refs@[j]);
    }
    assert(h2.refs@ =~= h0.refs@);
}

/// A deep clone and its source render the same notation yet refer to
/// distinct objects: the two handles are independent, and the source is left
/// live and unchanged by the copy.
pub proof fn lemma_clone_renders_alike(
    pre: NativeHeap,
    post: NativeHeap,
    source: RWMol,
    copy: RWMol,
)
    requires
        post.wf(),
        source.wf(pre),
        NativeHeap::allocates(pre, post, copy.id as int, pre.notation_at(source.id as int)),
    ensures
        copy.wf(post),
        source.wf(post),
        copy.notation(post) == source.notation(post),
        copy.id != source.id,
{
    assert(post.refs_at(source.id as int) == pre.refs_at(source.id as int));
    assert(post.notation_at(source.id as int) == pre.notation_at(source.id as int));
}

/// Releasing a handle of one object never disturbs a handle of another
/// object: the other stays live and renders unchanged.  In particular,
/// dropping (or consuming) a source leaves every deep clone of it untouched.
pub proof fn lemma_release_preserves_others(
    pre: NativeHeap,
    post: NativeHeap,
    dropped: int,
    other: RWMol,
)
    requires
        post.wf(),
        other.wf(pre),
        NativeHeap::releases(pre, post, dropped),
        other.id as int != dropped,
    ensures
        other.wf(post),
        other.notation(post) == other.notation(pre),
{
    assert(post.refs_at(other.id as int) == pre.refs_at(other.id as int));
}

/// The consuming conversion hands the very same object across: the immutable
/// handle renders exactly what the editable handle rendered, and since the
/// conversion touches no reference count, this holds in the unchanged heap.
pub proof fn lemma_conversion_preserves_render(h: NativeHeap, source: RWMol, converted: ROMol)
    requires
        source.wf(h),
        converted.id == source.id,
    ensures
        converted.wf(h),
        converted.notation(h) == source.notation(h),
{
}

/// Rendering depends only on the heap state and the handle: in two
/// indistinguishable heaps every handle is equally live and renders the same
/// text.  Since rendering itself restores the heap exactly, any number of
/// renderings yield the same text and leave the handle usable.
pub proof fn lemma_render_repeatable(h0: NativeHeap, h1: NativeHeap, m: RWMol)
    requires
        h0.wf(),
        h1.wf(),
        NativeHeap::same_state(h0, h1),
        m.wf(h0),
    ensures
        m.wf(h1),
        m.notation(h1) == m.notation(h0),
{
}

} // verus!
