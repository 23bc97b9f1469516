//! Stable identifiers for views and their ancestry paths.
//!
//! An [`Id`] is an opaque, copyable token naming one node of the view tree.
//! Hierarchy is not stored in the token itself: a [`crate::context::ViewContext`]
//! maps each registered identifier to its [`IdPath`], the ordered sequence of
//! identifiers from the root of its subtree down to the node itself.

use vstd::prelude::*;

use crate::context::{
    lemma_allocated_child_distinct, lemma_child_insert_preserves_prefix,
    lemma_remove_preserves_prefix, lemma_root_insert_preserves_prefix, occurs_in_registry,
    parent_paths_consistent, spec_parent, spec_root, ViewContext,
};
use crate::update::{
    Animation, ChangeFlags, CleanupCallback, EventCallback, EventListener, MenuCallback,
    MoveCallback, ResizeCallback, StackOffset, StatePayload, Style, StyleClassRef, StyleSelector,
    UpdateMessage, LAYOUT,
};

verus! {

broadcast use vstd::std_specs::hash::group_hash_axioms;

/// A stable identifier for an element of the view tree.
///
/// Beyond equality, ordering and hashing, the wrapped number is opaque to
/// callers; its only guarantee is uniqueness among all identifiers allocated
/// from the same [`crate::context::ViewContext`].
#[derive(Clone, Copy, Debug, PartialEq, Eq, PartialOrd, Hash, Structural)]
pub struct Id(u64);

impl View for Id {
    type V = u64;

    closed spec fn view(&self) -> u64 {
        self.0
    }
}

/// Two identifiers are equal exactly when their raw values are.
pub broadcast proof fn lemma_id_view_injective(a: Id, b: Id)
    ensures
        #![trigger a@, b@]
        a@ == b@ <==> a == b,
{
}

impl Id {
    /// Allocate a new, unique `Id` from the context's monotone counter.
    ///
    /// The result is the counter's current value; the counter advances by
    /// exactly one, so no two allocations from the same context ever return
    /// the same identifier. The registry and both queues are untouched.
    pub fn next(cx: &mut ViewContext) -> (r: Id)
        requires
            old(cx).counter() < u64::MAX,
        ensures
            r@ == old(cx).counter(),
            final(cx).counter() == old(cx).counter() + 1,
            final(cx).paths() == old(cx).paths(),
            final(cx).messages() == old(cx).messages(),
            final(cx).deferred() == old(cx).deferred(),
            old(cx).wf() ==> final(cx).wf(),
    {
        let id = Id(cx.next_id);
        cx.next_id = cx.next_id + 1;
        proof {
            assert(cx.paths() =~= old(cx).paths());
        }
        id
    }

    /// The raw allocated number behind this identifier.
    pub fn to_raw(self) -> (r: u64)
        ensures
            r == self@,
    {
        self.0
    }

    /// Derive a child identifier registered under `self`.
    ///
    /// When `self` has no registered path (it was freshly allocated and never
    /// placed in the hierarchy), `self` itself is reused as the child and
    /// registered under the one-element path `[self]`. Otherwise a brand-new
    /// identifier is allocated and registered under `self`'s path extended by
    /// it. An identifier handed to this call must stem from this context's
    /// allocator, so its raw value lies below the counter.
    pub fn new(&self, cx: &mut ViewContext) -> (r: Id)
        requires
            old(cx).wf(),
            self@ < old(cx).counter(),
            old(cx).paths().contains_key(self@) ==> old(cx).counter() < u64::MAX,
        ensures
            final(cx).wf(),
            final(cx).paths().contains_key(r@),
            r@ < final(cx).counter(),
            old(cx).paths().contains_key(self@) ==> {
                &&& r@ == old(cx).counter()
                &&& final(cx).counter() == old(cx).counter() + 1
                &&& final(cx).paths() == old(cx).paths().insert(
                    r@,
                    old(cx).paths()[self@].push(r),
                )
            },
            !old(cx).paths().contains_key(self@) ==> {
                &&& r == *self
                &&& final(cx).counter() == old(cx).counter()
                &&& final(cx).paths() == old(cx).paths().insert(self@, seq![*self])
            },
            final(cx).messages() == old(cx).messages(),
            final(cx).deferred() == old(cx).deferred(),
            parent_paths_consistent(old(cx).paths()) && (old(cx).paths().contains_key(self@)
                || !occurs_in_registry(old(cx).paths(), *self)) ==> parent_paths_consistent(
                final(cx).paths(),
            ),
    {
        let raw = self.to_raw();
        let mut id_path: IdPath = match cx.id_paths.get(&raw) {
            Some(p) => p.clone(),
            None => IdPath(Vec::new()),
        };
        let new_id: Id = if id_path.0.len() == 0 {
            // an id with no path yet came straight from the allocator and is
            // not tracked, so it can be reused as its own registration point
            *self
        } else {
            Id::next(cx)
        };
        id_path.0.push(new_id);
        let new_raw = new_id.to_raw();
        cx.id_paths.insert(new_raw, id_path);
        proof {
            if old(cx).paths().contains_key(self@) {
                assert(cx.paths() =~= old(cx).paths().insert(
                    new_id@,
                    old(cx).paths()[self@].push(new_id),
                ));
                if parent_paths_consistent(old(cx).paths()) {
                    lemma_allocated_child_distinct(*old(cx), *self, new_id);
                    lemma_child_insert_preserves_prefix(old(cx).paths(), *self, new_id);
                }
            } else {
                assert(cx.paths() =~= old(cx).paths().insert(self@, seq![*self]));
                if parent_paths_consistent(old(cx).paths()) && !occurs_in_registry(
                    old(cx).paths(),
                    *self,
                ) {
                    lemma_root_insert_preserves_prefix(old(cx).paths(), *self);
                }
            }
        }
        new_id
    }

    /// Register `self` as a child of `parent`, overwriting any path `self`
    /// already had.
    ///
    /// The parent must already be registered: attaching a node under an
    /// unregistered parent is a logic error in the caller. The identifier
    /// itself must stem from this context's allocator.
    pub fn set_parent(&self, cx: &mut ViewContext, parent: Id)
        requires
            old(cx).wf(),
            old(cx).paths().contains_key(parent@),
            self@ < old(cx).counter(),
        ensures
            final(cx).wf(),
            final(cx).paths() == old(cx).paths().insert(
                self@,
                old(cx).paths()[parent@].push(*self),
            ),
            final(cx).counter() == old(cx).counter(),
            final(cx).messages() == old(cx).messages(),
            final(cx).deferred() == old(cx).deferred(),
            parent_paths_consistent(old(cx).paths()) && !occurs_in_registry(
                old(cx).paths(),
                *self,
            ) ==> parent_paths_consistent(final(cx).paths()),
    {
        let praw = parent.to_raw();
        let mut id_path: IdPath = match cx.id_paths.get(&praw) {
            Some(p) => p.clone(),
            None => {
                // unreachable: the caller owes a registered parent
                proof {
                    assert(false);
                }
                IdPath(Vec::new())
            },
        };
        id_path.0.push(*self);
        cx.id_paths.insert(self.to_raw(), id_path);
        proof {
            assert(cx.paths() =~= old(cx).paths().insert(
                self@,
                old(cx).paths()[parent@].push(*self),
            ));
            if parent_paths_consistent(old(cx).paths()) && !occurs_in_registry(
                old(cx).paths(),
                *self,
            ) {
                lemma_child_insert_preserves_prefix(old(cx).paths(), parent, *self);
            }
        }
    }

    /// The parent of `self`: the second-to-last element of its registered
    /// path, or nothing when `self` is unregistered or is its own root.
    pub fn parent(&self, cx: &ViewContext) -> (r: Option<Id>)
        ensures
            r == spec_parent(cx.paths(), self@),
    {
        let raw = self.to_raw();
        match cx.id_paths.get(&raw) {
            Some(path) => {
                let len = path.0.len();
                if len >= 2 {
                    Some(path.0[len - 2])
                } else {
                    None
                }
            },
            None => None,
        }
    }

    /// The registered ancestry path of `self`, or nothing when `self` was
    /// never registered — a normal state, not an error.
    pub fn id_path(&self, cx: &ViewContext) -> (r: Option<IdPath>)
        ensures
            match r {
                Some(p) => cx.paths().contains_key(self@) && p@ == cx.paths()[self@],
                None => !cx.paths().contains_key(self@),
            },
    {
        let raw = self.to_raw();
        match cx.id_paths.get(&raw) {
            Some(p) => Some(p.clone()),
            None => None,
        }
    }

    /// Whether `self` currently has a registered ancestry path.
    pub fn has_id_path(&self, cx: &ViewContext) -> (r: bool)
        ensures
            r == cx.paths().contains_key(self@),
    {
        let raw = self.to_raw();
        cx.id_paths.contains_key(&raw)
    }

    /// Remove `self`'s registration, and only it: descendants keep their
    /// (now stale) paths until they are removed themselves — deliberately,
    /// removal never cascades.
    pub fn remove_id_path(&self, cx: &mut ViewContext)
        ensures
            final(cx).paths() == old(cx).paths().remove(self@),
            !final(cx).paths().contains_key(self@),
            forall|k: u64|
                k != self@ && old(cx).paths().contains_key(k) ==> final(cx).paths().contains_key(k)
                    && final(cx).paths()[k] == old(cx).paths()[k],
            final(cx).counter() == old(cx).counter(),
            final(cx).messages() == old(cx).messages(),
            final(cx).deferred() == old(cx).deferred(),
            old(cx).wf() ==> final(cx).wf(),
            parent_paths_consistent(old(cx).paths()) ==> parent_paths_consistent(
                final(cx).paths(),
            ),
    {
        let raw = self.to_raw();
        cx.id_paths.remove(&raw);
        proof {
            assert(cx.paths() =~= old(cx).paths().remove(self@));
            if parent_paths_consistent(old(cx).paths()) {
                lemma_remove_preserves_prefix(old(cx).paths(), self@);
            }
        }
    }

    /// The root of the subtree `self` belongs to: the first element of its
    /// registered path, or nothing when `self` is unregistered.
    pub fn root_id(&self, cx: &ViewContext) -> (r: Option<Id>)
        ensures
            r == spec_root(cx.paths(), self@),
    {
        let raw = self.to_raw();
        match cx.id_paths.get(&raw) {
            Some(path) => {
                if path.0.len() >= 1 {
                    Some(path.0[0])
                } else {
                    None
                }
            },
            None => None,
        }
    }

    /// Ask the consumer to give `self` keyboard focus.
    pub fn request_focus(&self, cx: &mut ViewContext)
        ensures
            final(cx).messages() == old(cx).messages().push((*self, UpdateMessage::Focus(*self))),
            enqueue_only(*old(cx), *final(cx)),
    {
        self.add_update_message(cx, UpdateMessage::Focus(*self));
    }

    /// Ask the consumer to mark `self` active (for example while pressed).
    pub fn request_active(&self, cx: &mut ViewContext)
        ensures
            final(cx).messages() == old(cx).messages().push((*self, UpdateMessage::Active(*self))),
            enqueue_only(*old(cx), *final(cx)),
    {
        self.add_update_message(cx, UpdateMessage::Active(*self));
    }

    /// Ask the consumer to enable or disable `self`.
    pub fn update_disabled(&self, cx: &mut ViewContext, is_disabled: bool)
        ensures
            final(cx).messages() == old(cx).messages().push(
                (*self, UpdateMessage::Disabled { id: *self, is_disabled }),
            ),
            enqueue_only(*old(cx), *final(cx)),
    {
        self.add_update_message(cx, UpdateMessage::Disabled { id: *self, is_disabled });
    }

    /// Ask the consumer for a repaint pass.
    pub fn request_paint(&self, cx: &mut ViewContext)
        ensures
            final(cx).messages() == old(cx).messages().push((*self, UpdateMessage::RequestPaint)),
            enqueue_only(*old(cx), *final(cx)),
    {
        self.add_update_message(cx, UpdateMessage::RequestPaint);
    }

    /// Ask the consumer for a re-layout of `self`.
    pub fn request_layout(&self, cx: &mut ViewContext)
        ensures
            final(cx).messages() == old(cx).messages().push(
                (
                    *self,
                    UpdateMessage::RequestChange { id: *self, flags: ChangeFlags { bits: LAYOUT } },
                ),
            ),
            enqueue_only(*old(cx), *final(cx)),
    {
        self.add_update_message(
            cx,
            UpdateMessage::RequestChange { id: *self, flags: ChangeFlags { bits: LAYOUT } },
        );
    }

    /// Hand the consumer a typed state value for `self`, applied with the
    /// immediate batch.
    pub fn update_state(&self, cx: &mut ViewContext, state: StatePayload)
        ensures
            final(cx).messages() == old(cx).messages().push(
                (*self, UpdateMessage::State { id: *self, state }),
            ),
            enqueue_only(*old(cx), *final(cx)),
    {
        self.add_update_message(cx, UpdateMessage::State { id: *self, state });
    }

    /// Hand the consumer a typed state value for `self` on the deferred
    /// queue: it becomes visible only after the current immediate batch is
    /// fully applied, never inside it.
    pub fn update_state_deferred(&self, cx: &mut ViewContext, state: StatePayload)
        ensures
            final(cx).deferred() == old(cx).deferred().push((*self, state)),
            final(cx).messages() == old(cx).messages(),
            final(cx).paths() == old(cx).paths(),
            final(cx).counter() == old(cx).counter(),
            old(cx).wf() ==> final(cx).wf(),
    {
        cx.deferred_update_messages.push((*self, state));
    }

    /// Ask the consumer to lay a style over `self` at the given offset of its
    /// style stack.
    pub fn update_style(&self, cx: &mut ViewContext, style: Style, offset: StackOffset)
        ensures
            final(cx).messages() == old(cx).messages().push(
                (*self, UpdateMessage::Style { id: *self, style, offset }),
            ),
            enqueue_only(*old(cx), *final(cx)),
    {
        self.add_update_message(cx, UpdateMessage::Style { id: *self, style, offset });
    }

    /// Ask the consumer to apply a style class to `self`.
    pub fn update_class(&self, cx: &mut ViewContext, class: StyleClassRef)
        ensures
            final(cx).messages() == old(cx).messages().push(
                (*self, UpdateMessage::Class { id: *self, class }),
            ),
            enqueue_only(*old(cx), *final(cx)),
    {
        self.add_update_message(cx, UpdateMessage::Class { id: *self, class });
    }

    /// Ask the consumer to apply a style to `self` under a selector state.
    pub fn update_style_selector(&self, cx: &mut ViewContext, style: Style, selector: StyleSelector)
        ensures
            final(cx).messages() == old(cx).messages().push(
                (*self, UpdateMessage::StyleSelector { id: *self, style, selector }),
            ),
            enqueue_only(*old(cx), *final(cx)),
    {
        self.add_update_message(cx, UpdateMessage::StyleSelector { id: *self, style, selector });
    }

    /// Ask the consumer to make `self` reachable by keyboard navigation.
    pub fn keyboard_navigatable(&self, cx: &mut ViewContext)
        ensures
            final(cx).messages() == old(cx).messages().push(
                (*self, UpdateMessage::KeyboardNavigable { id: *self }),
            ),
            enqueue_only(*old(cx), *final(cx)),
    {
        self.add_update_message(cx, UpdateMessage::KeyboardNavigable { id: *self });
    }

    /// Ask the consumer to make `self` draggable.
    pub fn draggable(&self, cx: &mut ViewContext)
        ensures
            final(cx).messages() == old(cx).messages().push(
                (*self, UpdateMessage::Draggable { id: *self }),
            ),
            enqueue_only(*old(cx), *final(cx)),
    {
        self.add_update_message(cx, UpdateMessage::Draggable { id: *self });
    }

    /// Attach an event listener to `self`.
    pub fn update_event_listener(
        &self,
        cx: &mut ViewContext,
        listener: EventListener,
        action: EventCallback,
    )
        ensures
            final(cx).messages() == old(cx).messages().push(
                (*self, UpdateMessage::EventListener { id: *self, listener, action }),
            ),
            enqueue_only(*old(cx), *final(cx)),
    {
        self.add_update_message(cx, UpdateMessage::EventListener { id: *self, listener, action });
    }

    /// Attach a resize listener to `self`.
    pub fn update_resize_listener(&self, cx: &mut ViewContext, action: ResizeCallback)
        ensures
            final(cx).messages() == old(cx).messages().push(
                (*self, UpdateMessage::ResizeListener { id: *self, action }),
            ),
            enqueue_only(*old(cx), *final(cx)),
    {
        self.add_update_message(cx, UpdateMessage::ResizeListener { id: *self, action });
    }

    /// Attach a move listener to `self`.
    pub fn update_move_listener(&self, cx: &mut ViewContext, action: MoveCallback)
        ensures
            final(cx).messages() == old(cx).messages().push(
                (*self, UpdateMessage::MoveListener { id: *self, action }),
            ),
            enqueue_only(*old(cx), *final(cx)),
    {
        self.add_update_message(cx, UpdateMessage::MoveListener { id: *self, action });
    }

    /// Attach a cleanup listener to `self`, run when the view is torn down.
    pub fn update_cleanup_listener(&self, cx: &mut ViewContext, action: CleanupCallback)
        ensures
            final(cx).messages() == old(cx).messages().push(
                (*self, UpdateMessage::CleanupListener { id: *self, action }),
            ),
            enqueue_only(*old(cx), *final(cx)),
    {
        self.add_update_message(cx, UpdateMessage::CleanupListener { id: *self, action });
    }

    /// Ask the consumer to run an animation on `self`.
    pub fn update_animation(&self, cx: &mut ViewContext, animation: Animation)
        ensures
            final(cx).messages() == old(cx).messages().push(
                (*self, UpdateMessage::Animation { id: *self, animation }),
            ),
            enqueue_only(*old(cx), *final(cx)),
    {
        self.add_update_message(cx, UpdateMessage::Animation { id: *self, animation });
    }

    /// Ask the consumer to clear keyboard focus if `self` holds it.
    pub fn clear_focus(&self, cx: &mut ViewContext)
        ensures
            final(cx).messages() == old(cx).messages().push(
                (*self, UpdateMessage::ClearFocus(*self)),
            ),
            enqueue_only(*old(cx), *final(cx)),
    {
        self.add_update_message(cx, UpdateMessage::ClearFocus(*self));
    }

    /// Attach a context-menu builder to `self`.
    pub fn update_context_menu(&self, cx: &mut ViewContext, menu: MenuCallback)
        ensures
            final(cx).messages() == old(cx).messages().push(
                (*self, UpdateMessage::ContextMenu { id: *self, menu }),
            ),
            enqueue_only(*old(cx), *final(cx)),
    {
        self.add_update_message(cx, UpdateMessage::ContextMenu { id: *self, menu });
    }

    /// Attach a popout-menu builder to `self`.
    pub fn update_popout_menu(&self, cx: &mut ViewContext, menu: MenuCallback)
        ensures
            final(cx).messages() == old(cx).messages().push(
                (*self, UpdateMessage::PopoutMenu { id: *self, menu }),
            ),
            enqueue_only(*old(cx), *final(cx)),
    {
        self.add_update_message(cx, UpdateMessage::PopoutMenu { id: *self, menu });
    }

    /// Ask the consumer to scroll `self` into sight, or the given rectangle
    /// of it.
    pub fn scroll_to(&self, cx: &mut ViewContext, rect: Option<kurbo::Rect>)
        ensures
            final(cx).messages() == old(cx).messages().push(
                (*self, UpdateMessage::ScrollTo { id: *self, rect }),
            ),
            enqueue_only(*old(cx), *final(cx)),
    {
        self.add_update_message(cx, UpdateMessage::ScrollTo { id: *self, rect });
    }

    /// Ask the consumer to open its inspector.
    pub fn inspect(&self, cx: &mut ViewContext)
        ensures
            final(cx).messages() == old(cx).messages().push((*self, UpdateMessage::Inspect)),
            enqueue_only(*old(cx), *final(cx)),
    {
        self.add_update_message(cx, UpdateMessage::Inspect);
    }

    /// Append one addressed message to the immediate queue. Enqueuing is
    /// unconditional: it never fails and touches neither the registry nor the
    /// allocator.
    fn add_update_message(&self, cx: &mut ViewContext, msg: UpdateMessage)
        ensures
            final(cx).messages() == old(cx).messages().push((*self, msg)),
            enqueue_only(*old(cx), *final(cx)),
    {
        cx.update_messages.push((*self, msg));
    }
}

/// Everything but the immediate queue is untouched: enqueuing reads and
/// writes neither the registry nor the allocator nor the deferred queue, and
/// keeps the context invariant.
pub open spec fn enqueue_only(pre: ViewContext, post: ViewContext) -> bool {
    &&& post.paths() == pre.paths()
    &&& post.counter() == pre.counter()
    &&& post.deferred() == pre.deferred()
    &&& pre.wf() ==> post.wf()
}

/// The ancestry path of a registered identifier: root first, the identifier
/// itself last.
#[derive(Debug)]
pub struct IdPath(pub(crate) Vec<Id>);

impl View for IdPath {
    type V = Seq<Id>;

    closed spec fn view(&self) -> Seq<Id> {
        self.0@
    }
}

impl Clone for IdPath {
    /// A clone carries exactly the same sequence of identifiers.
    fn clone(&self) -> (r: IdPath)
        ensures
            r@ == self@,
    {
        let mut ids: Vec<Id> = Vec::new();
        let mut i: usize = 0;
        while i < self.0.len()
            invariant
                i <= self.0.len(),
                ids@ == self.0@.take(i as int),
            decreases self.0.len() - i,
        {
            ids.push(self.0[i]);
            proof {
                assert(ids@ =~= self.0@.take(i + 1 as int));
            }
            i = i + 1;
        }
        proof {
            assert(ids@ =~= self.0@);
        }
        IdPath(ids)
    }
}

impl Default for IdPath {
    /// The canonical representation of "not yet registered": the empty path.
    fn default() -> (r: IdPath)
        ensures
            r@ == Seq::<Id>::empty(),
    {
        IdPath(Vec::new())
    }
}

impl IdPath {
    /// The ordered identifiers of the path, beginning with the identifier of
    /// the root (the window) and ending with the node's own, as the
    /// event-routing collaborator walks them.
    pub fn dispatch(&self) -> (r: &[Id])
        ensures
            r@ == self@,
    {
        self.0.as_slice()
    }
}

} // verus!
