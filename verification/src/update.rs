//! Messages that views enqueue to request mutations, together with the
//! payload handles they carry.
//!
//! The payloads belong to outside collaborators (the style, animation, event
//! and menu systems). This crate stores and routes them without interpreting
//! them: each handle is an opaque token that the consumer of the mailbox
//! resolves on its side.

use vstd::prelude::*;

use crate::id::Id;

verus! {

/// Bit set of changes a view asks the consumer to apply (owned by the
/// view-data collaborator; this crate only carries it).
#[derive(Clone, Copy, Debug, PartialEq, Eq, Structural)]
pub struct ChangeFlags {
    pub bits: u8,
}

/// Bit requesting a re-layout pass.
pub const LAYOUT: u8 = 1;

/// Handle to a style payload owned by the style collaborator.
#[derive(Clone, Copy, Debug, PartialEq, Eq, Structural)]
pub struct Style {
    pub token: u64,
}

/// Position of a style layer in a view's stack of styles.
#[derive(Clone, Copy, Debug, PartialEq, Eq, Structural)]
pub struct StackOffset {
    pub index: usize,
}

/// Handle to a named style class owned by the style collaborator.
#[derive(Clone, Copy, Debug, PartialEq, Eq, Structural)]
pub struct StyleClassRef {
    pub token: u64,
}

/// Handle to a style-selector state (hover, focus, ...) owned by the style
/// collaborator.
#[derive(Clone, Copy, Debug, PartialEq, Eq, Structural)]
pub struct StyleSelector {
    pub token: u64,
}

/// Handle to an animation payload owned by the animation collaborator.
#[derive(Clone, Copy, Debug, PartialEq, Eq, Structural)]
pub struct Animation {
    pub token: u64,
}

/// Kind of event a listener subscribes to, owned by the event collaborator.
#[derive(Clone, Copy, Debug, PartialEq, Eq, Structural)]
pub struct EventListener {
    pub token: u64,
}

/// Handle to an event-listener closure registered with the consumer.
#[derive(Clone, Copy, Debug, PartialEq, Eq, Structural)]
pub struct EventCallback {
    pub token: u64,
}

/// Handle to a resize-listener closure registered with the consumer.
#[derive(Clone, Copy, Debug, PartialEq, Eq, Structural)]
pub struct ResizeCallback {
    pub token: u64,
}

/// Handle to a move-listener closure registered with the consumer.
#[derive(Clone, Copy, Debug, PartialEq, Eq, Structural)]
pub struct MoveCallback {
    pub token: u64,
}

/// Handle to a cleanup-listener closure registered with the consumer.
#[derive(Clone, Copy, Debug, PartialEq, Eq, Structural)]
pub struct CleanupCallback {
    pub token: u64,
}

/// Handle to a context- or popout-menu closure registered with the consumer.
#[derive(Clone, Copy, Debug, PartialEq, Eq, Structural)]
pub struct MenuCallback {
    pub token: u64,
}

/// Handle to an arbitrary typed state value a view hands to the consumer.
#[derive(Clone, Copy, Debug, PartialEq, Eq, Structural)]
pub struct StatePayload {
    pub token: u64,
}

/// Relies on `kurbo::Rect`: the rectangle a view asks to be scrolled into
/// sight. The value is carried through the mailbox opaquely and never read
/// by this crate.
#[verifier::external_type_specification]
#[verifier::external_body]
pub struct ExRect(kurbo::Rect);

/// A mutation request addressed to a view, drained and applied by the tree
/// consumer each cycle.
#[derive(Debug, PartialEq)]
#[allow(inconsistent_fields)]
pub enum UpdateMessage {
    Focus(Id),
    Active(Id),
    Disabled { id: Id, is_disabled: bool },
    RequestPaint,
    RequestChange { id: Id, flags: ChangeFlags },
    State { id: Id, state: StatePayload },
    Style { id: Id, style: Style, offset: StackOffset },
    Class { id: Id, class: StyleClassRef },
    StyleSelector { id: Id, style: Style, selector: StyleSelector },
    KeyboardNavigable { id: Id },
    Draggable { id: Id },
    EventListener { id: Id, listener: EventListener, action: EventCallback },
    ResizeListener { id: Id, action: ResizeCallback },
    MoveListener { id: Id, action: MoveCallback },
    CleanupListener { id: Id, action: CleanupCallback },
    Animation { id: Id, animation: Animation },
    ClearFocus(Id),
    ContextMenu { id: Id, menu: MenuCallback },
    PopoutMenu { id: Id, menu: MenuCallback },
    ScrollTo { id: Id, rect: Option<kurbo::Rect> },
    Inspect,
}

} // verus!
