use toolkit_glue::handle::ObjectHeap;
use toolkit_glue::handle::SafeHandle;
use toolkit_glue::handle::TypeRegistry;

fn hierarchy() -> (TypeRegistry, usize, usize, usize, usize, usize) {
    let mut reg = TypeRegistry::new();
    let t_object = reg.register(None, Vec::new());
    let t_accessible = reg.register(None, Vec::new());
    let t_widget = reg.register(Some(t_object), Vec::new());
    let t_statusbar = reg.register(Some(t_widget), vec![t_accessible]);
    let t_sibling = reg.register(Some(t_widget), Vec::new());
    (reg, t_object, t_accessible, t_widget, t_statusbar, t_sibling)
}

#[test]
fn owned_then_release_is_one_decrement() {
    let (reg, _, _, _, t_statusbar, _) = hierarchy();
    let mut heap = ObjectHeap::new();
    let id = heap.allocate(t_statusbar);
    assert_eq!(heap.refs_at(id), 1);
    let h = SafeHandle::from_owned(&heap, &reg, id, t_statusbar);
    assert_eq!(heap.refs_at(id), 1);
    h.release(&mut heap);
    assert_eq!(heap.refs_at(id), 0);
}

#[test]
fn borrowed_then_release_is_net_zero() {
    let (reg, _, _, _, t_statusbar, _) = hierarchy();
    let mut heap = ObjectHeap::new();
    let id = heap.allocate(t_statusbar);
    let keeper = SafeHandle::from_owned(&heap, &reg, id, t_statusbar);
    let h = SafeHandle::from_borrowed(&mut heap, &reg, id, t_statusbar);
    assert_eq!(heap.refs_at(id), 2);
    h.release(&mut heap);
    assert_eq!(heap.refs_at(id), 1);
    keeper.release(&mut heap);
    assert_eq!(heap.refs_at(id), 0);
}

#[test]
fn upcast_then_downcast_restores_the_handle() {
    let (reg, t_object, t_accessible, _, t_statusbar, _) = hierarchy();
    let mut heap = ObjectHeap::new();
    let id = heap.allocate(t_statusbar);
    let h = SafeHandle::from_owned(&heap, &reg, id, t_statusbar);
    let up = h.upcast(&reg, t_object);
    assert_eq!(up.object, id);
    assert_eq!(up.capability, t_object);
    let back = up.downcast(&heap, &reg, t_statusbar);
    match back {
        Ok(again) => {
            assert_eq!(again.object, id);
            assert_eq!(again.capability, t_statusbar);
        },
        Err(_) => panic!("downcast to the concrete class must succeed"),
    }
    // the same works through an interface capability
    let h2 = SafeHandle::from_borrowed(&mut heap, &reg, id, t_statusbar);
    let via_iface = h2.upcast(&reg, t_accessible);
    assert!(via_iface.downcast(&heap, &reg, t_statusbar).is_ok());
}

#[test]
fn downcast_to_sibling_fails_and_returns_the_handle() {
    let (reg, t_object, _, _, t_statusbar, t_sibling) = hierarchy();
    let mut heap = ObjectHeap::new();
    let id = heap.allocate(t_statusbar);
    let h = SafeHandle::from_owned(&heap, &reg, id, t_statusbar).upcast(&reg, t_object);
    match h.downcast(&heap, &reg, t_sibling) {
        Ok(_) => panic!("downcast to an unrelated sibling must fail"),
        Err(original) => {
            assert_eq!(original.object, id);
            assert_eq!(original.capability, t_object);
        },
    }
    assert_eq!(heap.refs_at(id), 1);
}

#[test]
fn handle_equality_is_identity() {
    let (reg, t_object, _, _, t_statusbar, _) = hierarchy();
    let mut heap = ObjectHeap::new();
    let a = heap.allocate(t_statusbar);
    let b = heap.allocate(t_statusbar);
    let ha = SafeHandle::from_owned(&heap, &reg, a, t_statusbar);
    let ha_view = SafeHandle::from_borrowed(&mut heap, &reg, a, t_object);
    let hb = SafeHandle::from_owned(&heap, &reg, b, t_statusbar);
    assert!(ha == ha_view);
    assert!(ha.same_object(&ha_view));
    assert!(ha != hb);
    assert!(!ha.same_object(&hb));
}
