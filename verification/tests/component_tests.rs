use relm_core::component::{Phase, StateMachine};
use relm_core::controller::{relay_outputs, ComponentBuilder, ComponentParts};
use relm_core::counter::{CountChildUpdates, CounterInput, CounterModel};

fn launch_counter(init: u64) -> relm_core::controller::Controller<CounterModel> {
    ComponentBuilder::<CounterModel>::new().launch(init, ()).into_controller()
}

#[test]
fn counter_scenario() {
    // Launch a counter at 0, send Increment, Increment, Decrement: the final
    // count is 1 and exactly three view refreshes ran, in that order.
    let mut ctrl = launch_counter(0);
    assert_eq!(ctrl.state(), Phase::Running);
    ctrl.send(CounterInput::Increment).unwrap();
    ctrl.send(CounterInput::Increment).unwrap();
    ctrl.send(CounterInput::Decrement).unwrap();
    assert_eq!(ctrl.refreshes(), 0);
    ctrl.run_to_idle();
    assert_eq!(ctrl.model().count, 1);
    assert_eq!(ctrl.refreshes(), 3);
    assert_eq!(ctrl.queued(), 0);
}

#[test]
fn updates_apply_in_send_order() {
    // Decrement first saturates at 0, so order matters: D, I, I gives 2
    // while I, I, D gives 1.
    let mut a = launch_counter(0);
    a.send(CounterInput::Decrement).unwrap();
    a.send(CounterInput::Increment).unwrap();
    a.send(CounterInput::Increment).unwrap();
    a.run_to_idle();
    assert_eq!(a.model().count, 2);

    let mut b = launch_counter(0);
    b.send(CounterInput::Increment).unwrap();
    b.send(CounterInput::Increment).unwrap();
    b.send(CounterInput::Decrement).unwrap();
    b.run_to_idle();
    assert_eq!(b.model().count, 1);
}

#[test]
fn detach_is_idempotent_and_stops_view_mutation() {
    let mut ctrl = launch_counter(0);
    ctrl.send(CounterInput::Increment).unwrap();
    ctrl.run_to_idle();
    assert_eq!(ctrl.refreshes(), 1);
    ctrl.detach();
    assert_eq!(ctrl.state(), Phase::Terminated);
    // Repeated detach has no additional effect.
    ctrl.detach();
    assert_eq!(ctrl.state(), Phase::Terminated);
    assert_eq!(ctrl.refreshes(), 1);
    assert_eq!(ctrl.model().count, 1);
    // Sends after detach are dropped without being fatal to the sender.
    assert!(ctrl.send(CounterInput::Increment).is_err());
    assert_eq!(ctrl.queued(), 0);
    assert_eq!(ctrl.refreshes(), 1);
}

#[test]
fn command_result_after_detach_is_dropped() {
    let mut ctrl = launch_counter(0);
    ctrl.spawn_command();
    ctrl.detach();
    // The command completes after the controller detached: its result is
    // dropped, with no error and no message delivery.
    let delivered = ctrl.deliver_command_result(CounterInput::Increment);
    assert!(!delivered);
    assert_eq!(ctrl.queued(), 0);
    assert_eq!(ctrl.model().count, 0);
    assert_eq!(ctrl.refreshes(), 0);
}

#[test]
fn command_result_while_running_is_delivered() {
    let mut ctrl = launch_counter(0);
    ctrl.spawn_command();
    let delivered = ctrl.deliver_command_result(CounterInput::Increment);
    assert!(delivered);
    assert_eq!(ctrl.queued(), 1);
    ctrl.run_to_idle();
    assert_eq!(ctrl.model().count, 1);
}

#[test]
fn outputs_relay_to_parent_in_emission_order() {
    let mut parent = launch_counter(0);
    let mut child = ComponentBuilder::<CounterModel>::new()
        .launch(10, ())
        .attach(parent.shutdown_sender());
    child.send(CounterInput::Increment).unwrap();
    child.send(CounterInput::Increment).unwrap();
    child.run_to_idle();
    assert_eq!(child.model().count, 12);
    // Each child output becomes one parent increment.
    relay_outputs(&mut child, &mut parent, &CountChildUpdates);
    parent.run_to_idle();
    assert_eq!(parent.model().count, 2);
    // The child's outbox was drained.
    relay_outputs(&mut child, &mut parent, &CountChildUpdates);
    parent.run_to_idle();
    assert_eq!(parent.model().count, 2);
}

#[test]
fn take_output_pops_oldest_first() {
    let mut ctrl = launch_counter(5);
    ctrl.send(CounterInput::Increment).unwrap();
    ctrl.send(CounterInput::Decrement).unwrap();
    ctrl.run_to_idle();
    assert_eq!(ctrl.take_output(), Some(6));
    assert_eq!(ctrl.take_output(), Some(5));
    assert_eq!(ctrl.take_output(), None);
}

#[test]
fn launch_with_parts_starts_the_machine() {
    let parts = ComponentParts { model: CounterModel { count: 3 }, widgets: () };
    let mut ctrl = ComponentBuilder::<CounterModel>::new()
        .launch_with_parts(parts)
        .into_controller();
    assert_eq!(ctrl.state(), Phase::Running);
    assert_eq!(ctrl.model().count, 3);
    ctrl.run_to_idle();
    assert_eq!(ctrl.refreshes(), 0);
}

#[test]
fn machine_lifecycle_phases() {
    let mut machine = StateMachine::new(CounterModel { count: 0 });
    assert_eq!(machine.phase(), Phase::Uninitialized);
    // Sends before the loop starts are queued.
    machine.send(CounterInput::Increment).unwrap();
    machine.start();
    assert_eq!(machine.phase(), Phase::Running);
    machine.run_to_idle();
    assert_eq!(machine.model().count, 1);
    machine.request_shutdown();
    assert_eq!(machine.phase(), Phase::ShuttingDown);
    assert!(machine.send(CounterInput::Increment).is_err());
    machine.complete_shutdown();
    assert_eq!(machine.phase(), Phase::Terminated);
    assert_eq!(machine.into_model().count, 1);
}
