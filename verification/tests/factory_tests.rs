use relm_core::controller::{relay_factory_outputs, ComponentBuilder};
use relm_core::counter::{CountChildUpdates, CounterInput, CounterModel};
use relm_core::factory::{Factory, Layout, Position, ViewOp};

#[test]
fn grid_round_trip() {
    // Insert three items, reconcile: exactly three live widget subtrees,
    // positioned per the grid position function with two columns.
    let mut f: Factory<CounterModel> = Factory::new(Layout::Grid { columns: 2 });
    let k0 = f.push(CounterModel { count: 10 });
    let k1 = f.push(CounterModel { count: 20 });
    let k2 = f.push(CounterModel { count: 30 });
    assert_eq!((k0, k1, k2), (0, 1, 2));
    assert_eq!(f.rendered_len(), 0);
    let ops = f.update_view();
    assert_eq!(
        ops,
        vec![
            ViewOp::Insert { key: 0, position: Position { column: 0, row: 0 } },
            ViewOp::Insert { key: 1, position: Position { column: 1, row: 0 } },
            ViewOp::Insert { key: 2, position: Position { column: 0, row: 1 } },
        ]
    );
    assert_eq!(f.rendered_len(), 3);
    assert_eq!(f.len(), 3);

    // Remove one: reconciling destroys exactly that subtree and leaves the
    // other entries' subtrees untouched.
    let removed = f.remove(k1);
    assert_eq!(removed, Some(CounterModel { count: 20 }));
    let ops = f.update_view();
    assert_eq!(ops, vec![ViewOp::Remove { key: 1 }]);
    assert_eq!(f.rendered_len(), 2);
    assert_eq!(f.len(), 2);

    // The key is gone for good; the others are still reachable.
    assert_eq!(f.remove(k1), None);
    assert_eq!(f.get(k0), Some(&CounterModel { count: 10 }));
    assert_eq!(f.get(k1), None);
    assert_eq!(f.get(k2), Some(&CounterModel { count: 30 }));

    // Keys are never reused, even after removal.
    let k3 = f.push(CounterModel { count: 40 });
    assert_eq!(k3, 3);
}

#[test]
fn list_suffix_removal_keeps_positions() {
    let mut f: Factory<CounterModel> = Factory::new(Layout::List);
    let n = 4;
    for i in 0..n {
        f.push(CounterModel { count: i });
    }
    let ops = f.update_view();
    assert_eq!(ops.len(), 4);
    for (i, op) in ops.iter().enumerate() {
        assert_eq!(
            *op,
            ViewOp::Insert { key: i as u64, position: Position { column: 0, row: i as u64 } }
        );
    }
    // Remove the last entry: the remaining keys keep their display index,
    // and with it their position.
    assert_eq!(f.remove(3), Some(CounterModel { count: 3 }));
    let ops = f.update_view();
    assert_eq!(ops, vec![ViewOp::Remove { key: 3 }]);
    assert_eq!(f.rendered_len(), 3);
}

#[test]
fn entries_have_isolated_state_machines() {
    let mut f: Factory<CounterModel> = Factory::new(Layout::List);
    let a = f.push(CounterModel { count: 0 });
    let b = f.push(CounterModel { count: 100 });
    assert!(f.send_to(a, CounterInput::Increment));
    assert!(f.send_to(a, CounterInput::Increment));
    assert!(f.send_to(b, CounterInput::Decrement));
    // An input for a key without an entry is dropped.
    assert!(!f.send_to(77, CounterInput::Increment));
    f.run_entry_to_idle(a);
    f.run_entry_to_idle(b);
    assert_eq!(f.get(a), Some(&CounterModel { count: 2 }));
    assert_eq!(f.get(b), Some(&CounterModel { count: 99 }));
}

#[test]
fn empty_factory_reconciles_to_nothing() {
    let mut f: Factory<CounterModel> = Factory::new(Layout::List);
    assert_eq!(f.update_view(), Vec::new());
    assert_eq!(f.len(), 0);
    assert_eq!(f.rendered_len(), 0);
}

#[test]
fn mixed_reconciliation_emits_removals_then_insertions() {
    let mut f: Factory<CounterModel> = Factory::new(Layout::List);
    let a = f.push(CounterModel { count: 10 });
    let b = f.push(CounterModel { count: 20 });
    f.update_view();
    assert_eq!(f.remove(a), Some(CounterModel { count: 10 }));
    let c = f.push(CounterModel { count: 30 });
    let ops = f.update_view();
    // The stale subtree goes first; the new entry materializes at its
    // display index. The surviving entry is untouched, even though its
    // display index changed.
    assert_eq!(
        ops,
        vec![
            ViewOp::Remove { key: a },
            ViewOp::Insert { key: c, position: Position { column: 0, row: 1 } },
        ]
    );
    assert_eq!(f.rendered_len(), 2);
    assert_eq!(f.get(b), Some(&CounterModel { count: 20 }));
}

#[test]
fn entry_outputs_are_forwarded_to_the_parent() {
    let mut parent = ComponentBuilder::<CounterModel>::new().launch(0, ()).into_controller();
    let mut f: Factory<CounterModel> = Factory::new(Layout::List);
    let a = f.push(CounterModel { count: 10 });
    let b = f.push(CounterModel { count: 50 });
    assert!(f.send_to(a, CounterInput::Increment));
    assert!(f.send_to(a, CounterInput::Increment));
    assert!(f.send_to(b, CounterInput::Decrement));
    f.run_entry_to_idle(a);
    f.run_entry_to_idle(b);
    // Each child output becomes one parent increment.
    relay_factory_outputs(&mut f, a, &mut parent, &CountChildUpdates);
    relay_factory_outputs(&mut f, b, &mut parent, &CountChildUpdates);
    // Forwarding for a key without an entry changes nothing.
    relay_factory_outputs(&mut f, 99, &mut parent, &CountChildUpdates);
    parent.run_to_idle();
    assert_eq!(parent.model().count, 3);
    // The entries' outboxes were drained; forwarding again adds nothing.
    relay_factory_outputs(&mut f, a, &mut parent, &CountChildUpdates);
    parent.run_to_idle();
    assert_eq!(parent.model().count, 3);
}

#[test]
fn update_view_on_unchanged_collection_is_empty() {
    let mut f: Factory<CounterModel> = Factory::new(Layout::List);
    f.push(CounterModel { count: 1 });
    f.push(CounterModel { count: 2 });
    let first = f.update_view();
    assert_eq!(first.len(), 2);
    let second = f.update_view();
    assert_eq!(second, Vec::new());
    assert_eq!(f.rendered_len(), 2);
}
