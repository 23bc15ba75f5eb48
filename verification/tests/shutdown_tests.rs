use relm_core::component::{Phase, StateMachine};
use relm_core::controller::ComponentBuilder;
use relm_core::counter::{CounterInput, CounterModel};
use relm_core::shutdown::{channel, observe_shutdown};

#[test]
fn parent_shutdown_reaches_both_children_without_touching_their_models() {
    // A parent attaches two children; shutting the parent down broadcasts
    // the shutdown signal, both children observe it and reach Terminated,
    // and neither child's model state at the time of shutdown is affected.
    let mut parent = ComponentBuilder::<CounterModel>::new().launch(0, ()).into_controller();
    let mut a = ComponentBuilder::<CounterModel>::new()
        .launch(5, ())
        .attach(parent.shutdown_sender());
    let mut b = ComponentBuilder::<CounterModel>::new()
        .launch(7, ())
        .attach(parent.shutdown_sender());

    a.send(CounterInput::Increment).unwrap();
    a.run_to_idle();
    assert_eq!(a.model().count, 6);

    // No signal broadcast yet: polling observes nothing.
    assert!(!a.poll_shutdown());
    assert!(!b.poll_shutdown());
    assert_eq!(a.state(), Phase::Running);

    parent.detach();
    assert_eq!(parent.state(), Phase::Terminated);

    assert!(a.poll_shutdown());
    assert!(b.poll_shutdown());
    assert_eq!(a.state(), Phase::Terminated);
    assert_eq!(b.state(), Phase::Terminated);
    assert_eq!(a.model().count, 6);
    assert_eq!(b.model().count, 7);
    assert_eq!(a.refreshes(), 1);
    assert_eq!(b.refreshes(), 0);
}

#[test]
fn standalone_controller_ignores_foreign_shutdowns() {
    let mut ctrl = ComponentBuilder::<CounterModel>::new().launch(1, ()).into_controller();
    // Attached to no parent, polling observes nothing.
    assert!(!ctrl.poll_shutdown());
    assert_eq!(ctrl.state(), Phase::Running);
}

#[test]
fn broadcast_channel_signals_every_receiver() {
    let (tx, mut rx) = channel();
    let mut machine = StateMachine::new(CounterModel { count: 3 });
    machine.start();
    assert!(!observe_shutdown(&mut rx, &mut machine));
    assert_eq!(machine.phase(), Phase::Running);

    let mut rx2 = tx.subscribe();
    let mut other = StateMachine::new(CounterModel { count: 4 });
    other.start();

    tx.shutdown();
    assert!(observe_shutdown(&mut rx, &mut machine));
    assert!(observe_shutdown(&mut rx2, &mut other));
    assert_eq!(machine.phase(), Phase::Terminated);
    assert_eq!(other.phase(), Phase::Terminated);
    assert_eq!(machine.model().count, 3);
    assert_eq!(other.model().count, 4);
}
