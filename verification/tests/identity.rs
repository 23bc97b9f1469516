use view_id::context::ViewContext;
use view_id::id::Id;

#[test]
fn sequential_allocations_are_distinct() {
    let mut cx = ViewContext::new();
    let mut ids: Vec<Id> = Vec::new();
    for _ in 0..8 {
        ids.push(Id::next(&mut cx));
    }
    for i in 0..ids.len() {
        for j in (i + 1)..ids.len() {
            assert_ne!(ids[i], ids[j]);
            assert_ne!(ids[i].to_raw(), ids[j].to_raw());
        }
    }
}

#[test]
fn fresh_id_has_no_path() {
    let mut cx = ViewContext::new();
    let a = Id::next(&mut cx);
    assert!(!a.has_id_path(&cx));
    assert!(a.id_path(&cx).is_none());
    assert_eq!(a.parent(&cx), None);
    assert_eq!(a.root_id(&cx), None);
}

#[test]
fn reuse_on_first_derive() {
    let mut cx = ViewContext::new();
    let a = Id::next(&mut cx);
    let b = a.new(&mut cx);
    assert_eq!(b, a);
    assert!(a.has_id_path(&cx));
    let path = a.id_path(&cx).unwrap();
    assert_eq!(path.dispatch(), &[a]);
}

#[test]
fn allocate_on_second_derive() {
    let mut cx = ViewContext::new();
    let a = Id::next(&mut cx);
    let first = a.new(&mut cx);
    assert_eq!(first, a);
    let b = a.new(&mut cx);
    assert_ne!(b, a);
    let path = b.id_path(&cx).unwrap();
    assert_eq!(path.dispatch(), &[a, b]);
    // a's own registration is untouched by the derivation
    assert_eq!(a.id_path(&cx).unwrap().dispatch(), &[a]);
}

#[test]
fn two_derivations_give_distinct_siblings() {
    let mut cx = ViewContext::new();
    let a = Id::next(&mut cx);
    a.new(&mut cx);
    let b = a.new(&mut cx);
    let c = a.new(&mut cx);
    assert_ne!(b, c);
    assert_eq!(b.id_path(&cx).unwrap().dispatch(), &[a, b]);
    assert_eq!(c.id_path(&cx).unwrap().dispatch(), &[a, c]);
}

#[test]
fn parent_path_is_a_prefix() {
    let mut cx = ViewContext::new();
    let root = Id::next(&mut cx);
    root.new(&mut cx);
    let m = root.new(&mut cx);
    let c = m.new(&mut cx);
    let c_path = c.id_path(&cx).unwrap();
    let m_path = m.id_path(&cx).unwrap();
    assert_eq!(c_path.dispatch(), &[root, m, c]);
    assert_eq!(m_path.dispatch(), &c_path.dispatch()[..c_path.dispatch().len() - 1]);
    assert_eq!(root.id_path(&cx).unwrap().dispatch(), &[root]);
}

#[test]
fn parent_and_root_accessors() {
    let mut cx = ViewContext::new();
    let root = Id::next(&mut cx);
    root.new(&mut cx);
    let m = root.new(&mut cx);
    let c = m.new(&mut cx);
    assert_eq!(c.parent(&cx), Some(m));
    assert_eq!(c.root_id(&cx), Some(root));
    assert_eq!(m.parent(&cx), Some(root));
    assert_eq!(root.parent(&cx), None);
    assert_eq!(root.root_id(&cx), Some(root));
}

#[test]
fn removal_does_not_cascade() {
    let mut cx = ViewContext::new();
    let root = Id::next(&mut cx);
    root.new(&mut cx);
    let m = root.new(&mut cx);
    let c = m.new(&mut cx);
    c.remove_id_path(&mut cx);
    assert!(c.id_path(&cx).is_none());
    assert!(!c.has_id_path(&cx));
    assert_eq!(m.id_path(&cx).unwrap().dispatch(), &[root, m]);
    assert_eq!(root.id_path(&cx).unwrap().dispatch(), &[root]);
}

#[test]
fn removing_an_unregistered_id_is_a_no_op() {
    let mut cx = ViewContext::new();
    let a = Id::next(&mut cx);
    let b = a.new(&mut cx);
    let stranger = Id::next(&mut cx);
    stranger.remove_id_path(&mut cx);
    assert_eq!(b.id_path(&cx).unwrap().dispatch(), &[a]);
}

#[test]
fn set_parent_overwrites_and_reroots() {
    let mut cx = ViewContext::new();
    let root = Id::next(&mut cx);
    root.new(&mut cx);
    let c1 = root.new(&mut cx);
    let d = Id::next(&mut cx);
    d.set_parent(&mut cx, c1);
    assert_eq!(d.id_path(&cx).unwrap().dispatch(), &[root, c1, d]);
    // reparent d under the root directly: the old path is overwritten
    d.set_parent(&mut cx, root);
    assert_eq!(d.id_path(&cx).unwrap().dispatch(), &[root, d]);
    assert_eq!(d.parent(&cx), Some(root));
}

#[test]
fn end_to_end_hierarchy() {
    let mut cx = ViewContext::new();
    let root = Id::next(&mut cx);
    root.new(&mut cx);
    let c1 = root.new(&mut cx);
    assert_eq!(c1.id_path(&cx).unwrap().dispatch(), &[root, c1]);
    let d = Id::next(&mut cx);
    d.set_parent(&mut cx, c1);
    assert_eq!(d.id_path(&cx).unwrap().dispatch(), &[root, c1, d]);
    assert_eq!(d.root_id(&cx), Some(root));
    assert_eq!(d.parent(&cx), Some(c1));
    c1.remove_id_path(&mut cx);
    assert!(c1.id_path(&cx).is_none());
    // d's path is stale but untouched
    assert_eq!(d.id_path(&cx).unwrap().dispatch(), &[root, c1, d]);
}

#[test]
fn to_raw_is_stable() {
    let mut cx = ViewContext::new();
    let a = Id::next(&mut cx);
    assert_eq!(a.to_raw(), a.to_raw());
    let b = Id::next(&mut cx);
    assert_ne!(a.to_raw(), b.to_raw());
}
