use view_id::context::ViewContext;
use view_id::id::Id;
use view_id::update::{
    Animation, ChangeFlags, CleanupCallback, EventCallback, EventListener, MenuCallback,
    MoveCallback, ResizeCallback, StackOffset, StatePayload, Style, StyleClassRef, StyleSelector,
    UpdateMessage, LAYOUT,
};

#[test]
fn mailbox_is_fifo() {
    let mut cx = ViewContext::new();
    let x = Id::next(&mut cx);
    x.request_focus(&mut cx);
    x.request_active(&mut cx);
    let drained = cx.take_update_messages();
    assert_eq!(drained.len(), 2);
    assert_eq!(drained[0], (x, UpdateMessage::Focus(x)));
    assert_eq!(drained[1], (x, UpdateMessage::Active(x)));
}

#[test]
fn mailbox_keeps_order_across_ids() {
    let mut cx = ViewContext::new();
    let x = Id::next(&mut cx);
    let y = Id::next(&mut cx);
    x.request_paint(&mut cx);
    y.clear_focus(&mut cx);
    x.inspect(&mut cx);
    let drained = cx.take_update_messages();
    assert_eq!(drained.len(), 3);
    assert_eq!(drained[0], (x, UpdateMessage::RequestPaint));
    assert_eq!(drained[1], (y, UpdateMessage::ClearFocus(y)));
    assert_eq!(drained[2], (x, UpdateMessage::Inspect));
}

#[test]
fn draining_empties_the_queue() {
    let mut cx = ViewContext::new();
    let x = Id::next(&mut cx);
    x.request_focus(&mut cx);
    assert_eq!(cx.take_update_messages().len(), 1);
    assert_eq!(cx.take_update_messages().len(), 0);
}

#[test]
fn deferred_state_is_isolated_from_immediate_batch() {
    let mut cx = ViewContext::new();
    let x = Id::next(&mut cx);
    x.update_state(&mut cx, StatePayload { token: 1 });
    // enqueued while the immediate batch is outstanding: must not show up in it
    x.update_state_deferred(&mut cx, StatePayload { token: 2 });
    let immediate = cx.take_update_messages();
    assert_eq!(immediate.len(), 1);
    assert_eq!(
        immediate[0],
        (x, UpdateMessage::State { id: x, state: StatePayload { token: 1 } })
    );
    let deferred = cx.take_deferred_update_messages();
    assert_eq!(deferred.len(), 1);
    assert_eq!(deferred[0], (x, StatePayload { token: 2 }));
    assert_eq!(cx.take_deferred_update_messages().len(), 0);
}

#[test]
fn deferred_queue_is_fifo() {
    let mut cx = ViewContext::new();
    let x = Id::next(&mut cx);
    x.update_state_deferred(&mut cx, StatePayload { token: 10 });
    x.update_state_deferred(&mut cx, StatePayload { token: 20 });
    let deferred = cx.take_deferred_update_messages();
    assert_eq!(deferred.len(), 2);
    assert_eq!(deferred[0].1, StatePayload { token: 10 });
    assert_eq!(deferred[1].1, StatePayload { token: 20 });
}

#[test]
fn enqueue_does_not_touch_the_registry() {
    let mut cx = ViewContext::new();
    let a = Id::next(&mut cx);
    a.new(&mut cx);
    a.request_layout(&mut cx);
    a.update_state_deferred(&mut cx, StatePayload { token: 0 });
    assert_eq!(a.id_path(&cx).unwrap().dispatch(), &[a]);
}

#[test]
fn request_layout_carries_the_layout_flag() {
    let mut cx = ViewContext::new();
    let x = Id::next(&mut cx);
    x.request_layout(&mut cx);
    let drained = cx.take_update_messages();
    assert_eq!(
        drained[0],
        (x, UpdateMessage::RequestChange { id: x, flags: ChangeFlags { bits: LAYOUT } })
    );
}

#[test]
fn disabled_carries_the_flag_value() {
    let mut cx = ViewContext::new();
    let x = Id::next(&mut cx);
    x.update_disabled(&mut cx, true);
    x.update_disabled(&mut cx, false);
    let drained = cx.take_update_messages();
    assert_eq!(drained[0], (x, UpdateMessage::Disabled { id: x, is_disabled: true }));
    assert_eq!(drained[1], (x, UpdateMessage::Disabled { id: x, is_disabled: false }));
}

#[test]
fn style_messages_carry_their_payloads() {
    let mut cx = ViewContext::new();
    let x = Id::next(&mut cx);
    x.update_style(&mut cx, Style { token: 3 }, StackOffset { index: 2 });
    x.update_class(&mut cx, StyleClassRef { token: 4 });
    x.update_style_selector(&mut cx, Style { token: 5 }, StyleSelector { token: 6 });
    let drained = cx.take_update_messages();
    assert_eq!(
        drained[0],
        (
            x,
            UpdateMessage::Style {
                id: x,
                style: Style { token: 3 },
                offset: StackOffset { index: 2 },
            }
        )
    );
    assert_eq!(
        drained[1],
        (x, UpdateMessage::Class { id: x, class: StyleClassRef { token: 4 } })
    );
    assert_eq!(
        drained[2],
        (
            x,
            UpdateMessage::StyleSelector {
                id: x,
                style: Style { token: 5 },
                selector: StyleSelector { token: 6 },
            }
        )
    );
}

#[test]
fn listener_messages_carry_their_handles() {
    let mut cx = ViewContext::new();
    let x = Id::next(&mut cx);
    x.update_event_listener(&mut cx, EventListener { token: 1 }, EventCallback { token: 2 });
    x.update_resize_listener(&mut cx, ResizeCallback { token: 3 });
    x.update_move_listener(&mut cx, MoveCallback { token: 4 });
    x.update_cleanup_listener(&mut cx, CleanupCallback { token: 5 });
    let drained = cx.take_update_messages();
    assert_eq!(
        drained[0],
        (
            x,
            UpdateMessage::EventListener {
                id: x,
                listener: EventListener { token: 1 },
                action: EventCallback { token: 2 },
            }
        )
    );
    assert_eq!(
        drained[1],
        (x, UpdateMessage::ResizeListener { id: x, action: ResizeCallback { token: 3 } })
    );
    assert_eq!(
        drained[2],
        (x, UpdateMessage::MoveListener { id: x, action: MoveCallback { token: 4 } })
    );
    assert_eq!(
        drained[3],
        (x, UpdateMessage::CleanupListener { id: x, action: CleanupCallback { token: 5 } })
    );
}

#[test]
fn interaction_messages_carry_their_payloads() {
    let mut cx = ViewContext::new();
    let x = Id::next(&mut cx);
    x.keyboard_navigatable(&mut cx);
    x.draggable(&mut cx);
    x.update_animation(&mut cx, Animation { token: 9 });
    x.update_context_menu(&mut cx, MenuCallback { token: 10 });
    x.update_popout_menu(&mut cx, MenuCallback { token: 11 });
    let drained = cx.take_update_messages();
    assert_eq!(drained[0], (x, UpdateMessage::KeyboardNavigable { id: x }));
    assert_eq!(drained[1], (x, UpdateMessage::Draggable { id: x }));
    assert_eq!(
        drained[2],
        (x, UpdateMessage::Animation { id: x, animation: Animation { token: 9 } })
    );
    assert_eq!(
        drained[3],
        (x, UpdateMessage::ContextMenu { id: x, menu: MenuCallback { token: 10 } })
    );
    assert_eq!(
        drained[4],
        (x, UpdateMessage::PopoutMenu { id: x, menu: MenuCallback { token: 11 } })
    );
}

#[test]
fn scroll_to_carries_the_rectangle() {
    let mut cx = ViewContext::new();
    let x = Id::next(&mut cx);
    let rect = kurbo::Rect::new(1.0, 2.0, 3.0, 4.0);
    x.scroll_to(&mut cx, Some(rect));
    x.scroll_to(&mut cx, None);
    let drained = cx.take_update_messages();
    assert_eq!(drained[0], (x, UpdateMessage::ScrollTo { id: x, rect: Some(rect) }));
    assert_eq!(drained[1], (x, UpdateMessage::ScrollTo { id: x, rect: None }));
}

#[test]
fn draining_messages_leaves_the_registry_and_deferred_queue() {
    let mut cx = ViewContext::new();
    let a = Id::next(&mut cx);
    a.new(&mut cx);
    a.request_focus(&mut cx);
    a.update_state_deferred(&mut cx, StatePayload { token: 7 });
    let _ = cx.take_update_messages();
    assert!(a.has_id_path(&cx));
    assert_eq!(cx.take_deferred_update_messages().len(), 1);
}
