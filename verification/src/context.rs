//! The owner context holding all identity state: the identifier allocator,
//! the path registry, and the two update-message queues.
//!
//! One [`ViewContext`] belongs to one logical execution context (for a UI,
//! its main loop). It is threaded explicitly through every call; nothing in
//! this crate is ambient or shared.

use std::collections::HashMap;
use vstd::prelude::*;

use crate::id::{Id, IdPath};
use crate::update::{StatePayload, UpdateMessage};

verus! {

broadcast use vstd::std_specs::hash::group_hash_axioms, crate::id::lemma_id_view_injective;

/// Identity state owned by a single logical execution context.
///
/// Holds the monotone allocation counter, the registry mapping each live
/// identifier to its ancestry path, and the two mailbox queues (immediate
/// and deferred) of addressed update requests.
pub struct ViewContext {
    pub(crate) next_id: u64,
    pub(crate) id_paths: HashMap<u64, IdPath>,
    pub(crate) update_messages: Vec<(Id, UpdateMessage)>,
    pub(crate) deferred_update_messages: Vec<(Id, StatePayload)>,
}

/// Every registered path is well formed with respect to its key: it is
/// nonempty and its last element is the identifier registered under the key.
pub open spec fn registry_paths_wf(paths: Map<u64, Seq<Id>>) -> bool {
    forall|k: u64| #[trigger] paths.contains_key(k) ==> paths[k].len() > 0 && paths[k].last()@ == k
}

/// Every key and every path element of the registry was handed out by the
/// allocator: all raw values lie strictly below the counter.
pub open spec fn registry_bounded(paths: Map<u64, Seq<Id>>, counter: u64) -> bool {
    forall|k: u64| #[trigger] paths.contains_key(k) ==> k < counter && (forall|i: int|
        0 <= i < paths[k].len() ==> (#[trigger] paths[k][i])@ < counter)
}

/// The parent an ancestry registry gives a raw identifier: the second-to-last
/// element of its registered path, or nothing when the identifier is
/// unregistered or its path is a lone root.
pub open spec fn spec_parent(paths: Map<u64, Seq<Id>>, k: u64) -> Option<Id> {
    if paths.contains_key(k) && paths[k].len() >= 2 {
        Some(paths[k][paths[k].len() - 2])
    } else {
        None
    }
}

/// The root an ancestry registry gives a raw identifier: the first element of
/// its registered path, or nothing when the identifier is unregistered or its
/// path is empty.
pub open spec fn spec_root(paths: Map<u64, Seq<Id>>, k: u64) -> Option<Id> {
    if paths.contains_key(k) && paths[k].len() >= 1 {
        Some(paths[k][0])
    } else {
        None
    }
}

impl ViewContext {
    /// The next raw value the allocator will hand out.
    pub open(crate) spec fn counter(self) -> u64 {
        self.next_id
    }

    /// The path registry: raw identifier values mapped to ancestry paths.
    pub open(crate) spec fn paths(self) -> Map<u64, Seq<Id>> {
        Map::new(
            |k: u64| self.id_paths@.contains_key(k),
            |k: u64| self.id_paths@[k]@,
        )
    }

    /// The immediate queue of addressed update requests, oldest first.
    pub open(crate) spec fn messages(self) -> Seq<(Id, UpdateMessage)> {
        self.update_messages@
    }

    /// The deferred queue of addressed state updates, oldest first.
    pub open(crate) spec fn deferred(self) -> Seq<(Id, StatePayload)> {
        self.deferred_update_messages@
    }

    /// The context invariant: every registered path ends in its own key, and
    /// everything in the registry came from this context's allocator.
    pub open spec fn wf(self) -> bool {
        &&& registry_paths_wf(self.paths())
        &&& registry_bounded(self.paths(), self.counter())
    }

    /// A fresh context: nothing allocated, nothing registered, both queues
    /// empty.
    pub fn new() -> (cx: ViewContext)
        ensures
            cx.wf(),
            cx.counter() == 0,
            cx.paths() == Map::<u64, Seq<Id>>::empty(),
            cx.messages() == Seq::<(Id, UpdateMessage)>::empty(),
            cx.deferred() == Seq::<(Id, StatePayload)>::empty(),
    {
        let cx = ViewContext {
            next_id: 0,
            id_paths: HashMap::new(),
            update_messages: Vec::new(),
            deferred_update_messages: Vec::new(),
        };
        proof {
            assert(cx.paths() =~= Map::<u64, Seq<Id>>::empty());
        }
        cx
    }

    /// Hands the whole immediate queue to the consumer, in enqueue (FIFO)
    /// order, and leaves it empty. The registry, the allocator and the
    /// deferred queue are untouched.
    pub fn take_update_messages(&mut self) -> (r: Vec<(Id, UpdateMessage)>)
        ensures
            r@ == old(self).messages(),
            final(self).messages() == Seq::<(Id, UpdateMessage)>::empty(),
            final(self).paths() == old(self).paths(),
            final(self).counter() == old(self).counter(),
            final(self).deferred() == old(self).deferred(),
            old(self).wf() ==> final(self).wf(),
    {
        let mut taken: Vec<(Id, UpdateMessage)> = Vec::new();
        core::mem::swap(&mut taken, &mut self.update_messages);
        taken
    }

    /// Hands the whole deferred queue to the consumer, in enqueue (FIFO)
    /// order, and leaves it empty. The registry, the allocator and the
    /// immediate queue are untouched.
    pub fn take_deferred_update_messages(&mut self) -> (r: Vec<(Id, StatePayload)>)
        ensures
            r@ == old(self).deferred(),
            final(self).deferred() == Seq::<(Id, StatePayload)>::empty(),
            final(self).paths() == old(self).paths(),
            final(self).counter() == old(self).counter(),
            final(self).messages() == old(self).messages(),
            old(self).wf() ==> final(self).wf(),
    {
        let mut taken: Vec<(Id, StatePayload)> = Vec::new();
        core::mem::swap(&mut taken, &mut self.deferred_update_messages);
        taken
    }
}

/// An identifier occurs somewhere in the registry, as an element of some
/// registered path. Every registered identifier occurs in its own path; an
/// identifier removed from the registry may still occur in the stale paths of
/// its former descendants.
pub open spec fn occurs_in_registry(paths: Map<u64, Seq<Id>>, id: Id) -> bool {
    exists|k: u64| #[trigger] paths.contains_key(k) && paths[k].contains(id)
}

/// The path-prefix law: whenever a registered identifier's path reads
/// `[r, ..., p, x]` and its direct parent `p` is registered too, `p`'s own
/// registered path is exactly `[r, ..., p]`.
pub open spec fn parent_paths_consistent(paths: Map<u64, Seq<Id>>) -> bool {
    forall|k: u64|
        #[trigger] paths.contains_key(k) && paths[k].len() >= 2 ==> {
            let p = paths[k][paths[k].len() - 2];
            paths.contains_key(p@) ==> paths[p@] == paths[k].take(paths[k].len() - 1)
        }
}

/// Uniqueness of allocation: `Id::next` hands out the counter's current value
/// and advances it, so any run of sequential allocations sees strictly
/// increasing counter values — and the identifiers it yields are pairwise
/// distinct.
pub proof fn lemma_sequential_allocations_distinct(counters: Seq<u64>, ids: Seq<Id>)
    requires
        ids.len() == counters.len(),
        forall|i: int| 0 <= i < ids.len() ==> (#[trigger] ids[i])@ == counters[i],
        forall|i: int, j: int| 0 <= i < j < counters.len() ==> counters[i] < counters[j],
    ensures
        forall|i: int, j: int| 0 <= i < j < ids.len() ==> ids[i] != ids[j],
{
    assert forall|i: int, j: int| 0 <= i < j < ids.len() implies ids[i] != ids[j] by {
        assert(ids[i]@ == counters[i]);
        assert(ids[j]@ == counters[j]);
    }
}

/// A value the allocator has not yet reached is nowhere in a well-formed
/// registry: not a key, and not an element of any registered path.
pub proof fn lemma_fresh_id_unregistered(cx: ViewContext, b: Id)
    requires
        cx.wf(),
        b@ >= cx.counter(),
    ensures
        !cx.paths().contains_key(b@),
        !occurs_in_registry(cx.paths(), b),
{
    if occurs_in_registry(cx.paths(), b) {
        let k = choose|k: u64| #[trigger] cx.paths().contains_key(k) && cx.paths()[k].contains(b);
        let i = choose|i: int| 0 <= i < cx.paths()[k].len() && cx.paths()[k][i] == b;
        assert(cx.paths()[k][i]@ < cx.counter());
    }
}

/// A second derivation from a registered identifier allocates: the fresh
/// identifier (the counter's value) differs from the one it derives from and
/// from everything the registry holds.
pub proof fn lemma_allocated_child_distinct(cx: ViewContext, a: Id, b: Id)
    requires
        cx.wf(),
        cx.paths().contains_key(a@),
        b@ == cx.counter(),
    ensures
        b != a,
        !cx.paths().contains_key(b@),
        !occurs_in_registry(cx.paths(), b),
{
    lemma_fresh_id_unregistered(cx, b);
    assert(a@ < cx.counter());
}

/// Registering a fresh identifier under a registered parent keeps the
/// path-prefix law: this is what deriving a child, and attaching a fresh
/// identifier with `set_parent`, do to the registry.
pub proof fn lemma_child_insert_preserves_prefix(paths: Map<u64, Seq<Id>>, a: Id, b: Id)
    requires
        registry_paths_wf(paths),
        parent_paths_consistent(paths),
        paths.contains_key(a@),
        !occurs_in_registry(paths, b),
    ensures
        registry_paths_wf(paths.insert(b@, paths[a@].push(b))),
        parent_paths_consistent(paths.insert(b@, paths[a@].push(b))),
{
    let pa = paths[a@];
    let q = pa.push(b);
    let post = paths.insert(b@, q);
    assert(!paths.contains_key(b@)) by {
        if paths.contains_key(b@) {
            assert(paths[b@].last()@ == b@);
            assert(paths[b@].last() == b);
            assert(paths[b@].contains(b)) by {
                assert(paths[b@][paths[b@].len() - 1] == b);
            }
        }
    }
    assert(registry_paths_wf(post)) by {
        assert(q.last() == b);
    }
    assert forall|k: u64| #[trigger] post.contains_key(k) && post[k].len() >= 2 implies {
        let p = post[k][post[k].len() - 2];
        post.contains_key(p@) ==> post[p@] == post[k].take(post[k].len() - 1)
    } by {
        if k == b@ {
            let p = q[q.len() - 2];
            assert(p == pa.last());
            assert(p@ == a@);
            assert(p == a);
            assert(q.take(q.len() - 1) =~= pa);
            assert(post[a@] == pa);
        } else {
            assert(post[k] == paths[k]);
            let p = paths[k][paths[k].len() - 2];
            if post.contains_key(p@) {
                if p@ == b@ {
                    assert(p == b);
                    assert(paths[k].contains(b)) by {
                        assert(paths[k][paths[k].len() - 2] == b);
                    }
                    assert(false);
                } else {
                    assert(post[p@] == paths[p@]);
                }
            }
        }
    }
}

/// Registering a fresh identifier as its own one-element root path keeps the
/// path-prefix law: this is what the reuse branch of deriving a child does to
/// the registry.
pub proof fn lemma_root_insert_preserves_prefix(paths: Map<u64, Seq<Id>>, b: Id)
    requires
        registry_paths_wf(paths),
        parent_paths_consistent(paths),
        !occurs_in_registry(paths, b),
    ensures
        registry_paths_wf(paths.insert(b@, seq![b])),
        parent_paths_consistent(paths.insert(b@, seq![b])),
{
    let post = paths.insert(b@, seq![b]);
    assert(seq![b].last() == b);
    assert forall|k: u64| #[trigger] post.contains_key(k) && post[k].len() >= 2 implies {
        let p = post[k][post[k].len() - 2];
        post.contains_key(p@) ==> post[p@] == post[k].take(post[k].len() - 1)
    } by {
        if k != b@ {
            assert(post[k] == paths[k]);
            let p = paths[k][paths[k].len() - 2];
            if post.contains_key(p@) {
                if p@ == b@ {
                    assert(p == b);
                    assert(paths[k].contains(b)) by {
                        assert(paths[k][paths[k].len() - 2] == b);
                    }
                    assert(false);
                } else {
                    assert(post[p@] == paths[p@]);
                }
            }
        }
    }
}

/// Removing one registration keeps the path-prefix law for everything that
/// stays: removal never cascades and never disturbs other entries.
pub proof fn lemma_remove_preserves_prefix(paths: Map<u64, Seq<Id>>, c: u64)
    requires
        parent_paths_consistent(paths),
    ensures
        parent_paths_consistent(paths.remove(c)),
{
    let post = paths.remove(c);
    assert forall|k: u64| #[trigger] post.contains_key(k) && post[k].len() >= 2 implies {
        let p = post[k][post[k].len() - 2];
        post.contains_key(p@) ==> post[p@] == post[k].take(post[k].len() - 1)
    } by {
        assert(post[k] == paths[k]);
        let p = paths[k][paths[k].len() - 2];
        if post.contains_key(p@) {
            assert(post[p@] == paths[p@]);
        }
    }
}

/// Accessors on a three-level ancestry `[r, m, c]`: the parent of `c` is `m`,
/// the root of `c` is `r`, and a root registered under its one-element path
/// has no parent.
pub proof fn lemma_three_level_accessors(paths: Map<u64, Seq<Id>>, r: Id, m: Id, c: Id)
    requires
        paths.contains_key(c@),
        paths[c@] == seq![r, m, c],
        paths.contains_key(r@),
        paths[r@] == seq![r],
    ensures
        spec_parent(paths, c@) == Some(m),
        spec_root(paths, c@) == Some(r),
        spec_parent(paths, r@) == None::<Id>,
{
    assert(paths[c@][1] == m);
    assert(paths[c@][0] == r);
}

/// Deferred isolation: enqueuing on the deferred queue (the transition of
/// `Id::update_state_deferred`) adds nothing to the immediate batch — a state
/// message absent from the immediate queue stays absent, and the deferred
/// pair appears only at the tail of the deferred queue.
pub proof fn lemma_deferred_isolation(
    pre: ViewContext,
    post: ViewContext,
    id: Id,
    state: StatePayload,
)
    requires
        post.messages() == pre.messages(),
        post.deferred() == pre.deferred().push((id, state)),
        !pre.messages().contains((id, UpdateMessage::State { id, state })),
    ensures
        !post.messages().contains((id, UpdateMessage::State { id, state })),
        post.deferred().last() == (id, state),
        forall|i: int| 0 <= i < pre.deferred().len() ==> post.deferred()[i] == pre.deferred()[i],
{
}

/// Mailbox FIFO: enqueuing appends at the tail and moves nothing, so two
/// messages enqueued in order stand in that order in the drained batch.
pub proof fn lemma_mailbox_fifo(
    q: Seq<(Id, UpdateMessage)>,
    e1: (Id, UpdateMessage),
    e2: (Id, UpdateMessage),
)
    ensures
        q.push(e1).push(e2).len() == q.len() + 2,
        q.push(e1).push(e2)[q.len() as int] == e1,
        q.push(e1).push(e2)[q.len() as int + 1] == e2,
        forall|i: int| 0 <= i < q.len() ==> q.push(e1).push(e2)[i] == q[i],
{
}

} // verus!
