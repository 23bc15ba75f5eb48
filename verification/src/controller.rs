//! The handles external code uses to launch, attach and shut down a
//! component.
//!
//! A [`ComponentBuilder`] launches a component: it allocates the model, docks
//! the widgets, and starts the state machine. The resulting [`Connector`]
//! can be attached to a parent — which subscribes the component to the
//! parent's shutdown broadcast — and becomes a [`Controller`], the
//! externally visible capability: it sends input, drives the processing
//! loop, relays emitted outputs towards the parent, and detaches the
//! component when its owner is done with it.

use vstd::prelude::*;

use crate::channel::SendError;
use crate::component::{
    accepts_input, spec_detach, spec_run, spec_send, spec_started_machine, Component,
    MachineModel, Phase, StateMachine,
};
use crate::shutdown::{ShutdownReceiver, ShutdownSender};

verus! {

/// Contains the initial model and widgets being docked into a component.
pub struct ComponentParts<C: Component> {
    /// The model of the component.
    pub model: C,
    /// The widgets created for the view.
    pub widgets: C::Widgets,
}

/// Maps a child component's outputs into a parent's inputs; the transform a
/// parent supplies when a child is attached to it.
pub trait OutputTransform<A, B> {
    /// The input the transform produces for a given output.
    spec fn transform_spec(&self, output: A) -> B;

    /// Applies the transform to one output.
    fn transform(&self, output: A) -> (input: B)
        ensures
            input == self.transform_spec(output),
    ;
}

/// Launches components of one kind.
pub struct ComponentBuilder<C: Component> {
    marker: core::marker::PhantomData<C>,
}

impl<C: Component> ComponentBuilder<C> {
    /// Creates a builder.
    pub fn new() -> ComponentBuilder<C> {
        ComponentBuilder { marker: core::marker::PhantomData }
    }

    /// Launches a component from already docked parts: starts its state
    /// machine and allocates its shutdown broadcast, whose signal attached
    /// children will observe.
    pub fn launch_with_parts(self, parts: ComponentParts<C>) -> (c: Connector<C>)
        ensures
            c.wf(),
            c@ == spec_started_machine(parts.model),
    {
        let ComponentParts { model, widgets } = parts;
        let mut machine = StateMachine::new(model);
        machine.start();
        let (shutdown_tx, _own_rx) = crate::shutdown::channel();
        Connector { machine, widgets, shutdown_tx, shutdown_rx: None }
    }

    /// Launches a component from its init parameters, building the model
    /// with [`Component::init`].
    pub fn launch(self, init: C::Init, widgets: C::Widgets) -> (c: Connector<C>)
        ensures
            c.wf(),
            c@ == spec_started_machine(C::init_spec(init)),
    {
        let model = C::init(init);
        Self::new().launch_with_parts(ComponentParts { model, widgets })
    }
}

/// A freshly launched component, not yet handed to its final owner: the
/// intermediate handle between launching and controlling.
pub struct Connector<C: Component> {
    machine: StateMachine<C>,
    widgets: C::Widgets,
    shutdown_tx: ShutdownSender,
    shutdown_rx: Option<ShutdownReceiver>,
}

impl<C: Component> View for Connector<C> {
    type V = MachineModel<C>;

    closed spec fn view(&self) -> MachineModel<C> {
        self.machine@
    }
}

impl<C: Component> Connector<C> {
    /// Well-formedness of the underlying machine.
    pub closed spec fn wf(&self) -> bool {
        self.machine.wf()
    }

    /// Sends `input` to the freshly launched component; never blocks, and
    /// fails with a non-fatal [`SendError`] once shutdown has been
    /// requested.
    pub fn send(&mut self, input: C::Input) -> (r: Result<(), SendError>)
        requires
            old(self).wf(),
        ensures
            final(self).wf(),
            final(self)@ == spec_send(old(self)@, input),
            r is Ok <==> accepts_input(old(self)@),
    {
        self.machine.send(input)
    }

    /// Borrows the component's widgets, the root handle exposed for
    /// composition.
    pub fn widgets(&self) -> &C::Widgets {
        &self.widgets
    }

    /// Attaches the component to a parent: subscribes it to the parent's
    /// shutdown broadcast, so the parent's detach reaches it, and hands back
    /// the controlling capability. Outputs are relayed to the parent by
    /// [`relay_outputs`] with the transform the parent chose.
    pub fn attach(self, parent_shutdown: &ShutdownSender) -> (ctrl: Controller<C>)
        requires
            self.wf(),
        ensures
            ctrl.wf(),
            ctrl@ == self@,
    {
        let Connector { machine, widgets, shutdown_tx, shutdown_rx: _ } = self;
        let rx = parent_shutdown.subscribe();
        Controller { machine, widgets, shutdown_tx, shutdown_rx: Some(rx) }
    }

    /// Turns the connector into a standalone controller, attached to no
    /// parent.
    pub fn into_controller(self) -> (ctrl: Controller<C>)
        requires
            self.wf(),
        ensures
            ctrl.wf(),
            ctrl@ == self@,
    {
        let Connector { machine, widgets, shutdown_tx, shutdown_rx } = self;
        Controller { machine, widgets, shutdown_tx, shutdown_rx }
    }
}

/// The externally visible capability over a running component: a message
/// sender combined with the lifecycle handle responsible for eventual
/// shutdown.
pub struct Controller<C: Component> {
    machine: StateMachine<C>,
    widgets: C::Widgets,
    shutdown_tx: ShutdownSender,
    shutdown_rx: Option<ShutdownReceiver>,
}

impl<C: Component> View for Controller<C> {
    type V = MachineModel<C>;

    closed spec fn view(&self) -> MachineModel<C> {
        self.machine@
    }
}

impl<C: Component> Controller<C> {
    /// Well-formedness of the underlying machine.
    pub closed spec fn wf(&self) -> bool {
        self.machine.wf()
    }

    /// Sends `input` to the component; never blocks, and fails with a
    /// non-fatal [`SendError`] once shutdown has been requested.
    pub fn send(&mut self, input: C::Input) -> (r: Result<(), SendError>)
        requires
            old(self).wf(),
        ensures
            final(self).wf(),
            final(self)@ == spec_send(old(self)@, input),
            r is Ok <==> accepts_input(old(self)@),
    {
        self.machine.send(input)
    }

    /// Drives the processing loop until the inbox is empty.
    pub fn run_to_idle(&mut self)
        requires
            old(self).wf(),
            old(self)@.phase == Phase::Running,
            old(self)@.refreshes + old(self)@.inbox.len() <= u64::MAX,
        ensures
            final(self).wf(),
            final(self)@ == spec_run(old(self)@),
    {
        self.machine.run_to_idle()
    }

    /// Requests shutdown and acknowledges it: broadcasts the shutdown signal
    /// to attached children and terminates the component. Non-blocking, and
    /// idempotent — a repeated detach has no additional effect.
    pub fn detach(&mut self)
        requires
            old(self).wf(),
        ensures
            final(self).wf(),
            final(self)@ == spec_detach(old(self)@),
    {
        self.shutdown_tx.shutdown();
        self.machine.detach();
    }

    /// One cooperative check of the parent's shutdown broadcast, as the
    /// component's loop performs at a suspension point. Whatever the poll
    /// returned: either the signal was observed and the component detaches
    /// (relaying the broadcast to its own children), or it is exactly as it
    /// was. On a component attached to no parent this is a no-op.
    pub fn poll_shutdown(&mut self) -> (observed: bool)
        requires
            old(self).wf(),
        ensures
            final(self).wf(),
            observed ==> final(self)@ == spec_detach(old(self)@),
            !observed ==> final(self)@ == old(self)@,
    {
        let observed = match &mut self.shutdown_rx {
            None => false,
            Some(rx) => rx.try_observe(),
        };
        if observed {
            self.shutdown_tx.shutdown();
            self.machine.detach();
        }
        observed
    }

    /// The shutdown broadcast a child subscribes to when it is attached to
    /// this component.
    pub fn shutdown_sender(&self) -> &ShutdownSender {
        &self.shutdown_tx
    }

    /// The current lifecycle phase.
    pub fn state(&self) -> (p: Phase)
        ensures
            p == self@.phase,
    {
        self.machine.phase()
    }

    /// Borrows the component's model, for state watchers.
    pub fn model(&self) -> (m: &C)
        ensures
            *m == self@.model,
    {
        self.machine.model()
    }

    /// Borrows the component's widgets, the root handle exposed for
    /// composition.
    pub fn widgets(&self) -> &C::Widgets {
        &self.widgets
    }

    /// How many view refreshes have run.
    pub fn refreshes(&self) -> (n: u64)
        ensures
            n as nat == self@.refreshes,
    {
        self.machine.refreshes()
    }

    /// How many inputs are pending.
    pub fn queued(&self) -> (n: usize)
        ensures
            n as nat == self@.inbox.len(),
    {
        self.machine.queued()
    }

    /// Notes one more in-flight command for this component.
    pub fn spawn_command(&mut self)
        requires
            old(self).wf(),
            old(self)@.phase == Phase::Running,
            old(self)@.pending_commands < u64::MAX,
        ensures
            final(self).wf(),
            final(self)@ == crate::component::spec_spawn_command(old(self)@),
    {
        self.machine.spawn_command()
    }

    /// An in-flight command reports back; dropped without error if the
    /// component no longer runs.
    pub fn deliver_command_result(&mut self, msg: C::Input) -> (delivered: bool)
        requires
            old(self).wf(),
            old(self)@.pending_commands >= 1,
        ensures
            final(self).wf(),
            final(self)@ == crate::component::spec_deliver(old(self)@, msg),
            delivered <==> old(self)@.phase == Phase::Running,
    {
        self.machine.deliver_command_result(msg)
    }

    /// Pops the oldest emitted output.
    pub fn take_output(&mut self) -> (r: Option<C::Output>)
        requires
            old(self).wf(),
        ensures
            final(self).wf(),
            old(self)@.outbox.len() == 0 ==> r is None && final(self)@ == old(self)@,
            old(self)@.outbox.len() > 0 ==> r == Some(old(self)@.outbox[0])
                && final(self)@ == (MachineModel { outbox: old(self)@.outbox.drop_first(), ..old(self)@ }),
    {
        self.machine.take_output()
    }
}

/// The parent-side state after a batch of mapped child outputs `msgs` is
/// sent into it, in order: appended to the inbox while the parent accepts
/// input, dropped otherwise.
pub open spec fn spec_relay<P: Component>(
    v: MachineModel<P>,
    msgs: Seq<P::Input>,
) -> MachineModel<P> {
    if accepts_input(v) {
        MachineModel { inbox: v.inbox + msgs, ..v }
    } else {
        v
    }
}

/// The relay loop itself, over the bare machines: drains the child's
/// outbox, maps each output, sends it into the parent.
pub(crate) fn relay_machine_outputs<
    C: Component,
    P: Component,
    F: OutputTransform<C::Output, P::Input>,
>(
    child: &mut StateMachine<C>,
    parent: &mut StateMachine<P>,
    transform: &F,
)
    requires
        old(child).wf(),
        old(parent).wf(),
    ensures
        final(child).wf(),
        final(parent).wf(),
        final(child)@ == (MachineModel { outbox: Seq::<C::Output>::empty(), ..old(child)@ }),
        final(parent)@ == spec_relay(
            old(parent)@,
            old(child)@.outbox.map_values(|o: C::Output| transform.transform_spec(o)),
        ),
{
    let ghost all = old(child)@.outbox.map_values(|o: C::Output| transform.transform_spec(o));
    loop
        invariant
            child.wf(),
            parent.wf(),
            child@ == (MachineModel { outbox: child@.outbox, ..old(child)@ }),
            spec_relay(
                parent@,
                child@.outbox.map_values(|o: C::Output| transform.transform_spec(o)),
            ) == spec_relay(old(parent)@, all),
        ensures
            child@.outbox.len() == 0,
        decreases child@.outbox.len(),
    {
        let ghost vc = child@;
        let ghost vp = parent@;
        let next = child.take_output();
        match next {
            None => {
                break;
            },
            Some(output) => {
                let input = transform.transform(output);
                let _ = parent.send(input);
                proof {
                    let mapped_rest = child@.outbox.map_values(
                        |o: C::Output| transform.transform_spec(o),
                    );
                    let mapped_all = vc.outbox.map_values(
                        |o: C::Output| transform.transform_spec(o),
                    );
                    assert(mapped_all =~= seq![transform.transform_spec(vc.outbox[0])] + mapped_rest);
                    if accepts_input(vp) {
                        assert(vp.inbox + mapped_all =~= parent@.inbox + mapped_rest);
                        assert(spec_relay(parent@, mapped_rest) =~= spec_relay(vp, mapped_all));
                    } else {
                        assert(spec_relay(parent@, mapped_rest) =~= spec_relay(vp, mapped_all));
                    }
                    assert(child@ =~= (MachineModel { outbox: child@.outbox, ..old(child)@ }));
                }
            },
        }
    }
    proof {
        assert(child@.outbox.map_values(|o: C::Output| transform.transform_spec(o))
            =~= Seq::<P::Input>::empty());
        assert(spec_relay(parent@, Seq::<P::Input>::empty()) =~= parent@);
        assert(parent@ =~= spec_relay(old(parent)@, all));
        assert(child@ =~= (MachineModel { outbox: Seq::<C::Output>::empty(), ..old(child)@ }));
    }
}

/// One scheduler step of an attachment: drains every output the child has
/// emitted so far, maps each through the parent's transform, and sends it
/// into the parent — preserving emission order, so a child's outputs reach
/// the parent in the order they were produced.
pub fn relay_outputs<C: Component, P: Component, F: OutputTransform<C::Output, P::Input>>(
    child: &mut Controller<C>,
    parent: &mut Controller<P>,
    transform: &F,
)
    requires
        old(child).wf(),
        old(parent).wf(),
    ensures
        final(child).wf(),
        final(parent).wf(),
        final(child)@ == (MachineModel { outbox: Seq::<C::Output>::empty(), ..old(child)@ }),
        final(parent)@ == spec_relay(
            old(parent)@,
            old(child)@.outbox.map_values(|o: C::Output| transform.transform_spec(o)),
        ),
{
    relay_machine_outputs(&mut child.machine, &mut parent.machine, transform)
}

/// One scheduler step of a factory attachment: drains every output the
/// entry carrying `key` has emitted, maps each through the parent's
/// transform, and sends it into the parent, in emission order. With no such
/// entry nothing changes.
pub fn relay_factory_outputs<
    C: Component,
    P: Component,
    F: OutputTransform<C::Output, P::Input>,
>(
    factory: &mut crate::factory::Factory<C>,
    key: u64,
    parent: &mut Controller<P>,
    transform: &F,
)
    requires
        old(factory).wf(),
        old(parent).wf(),
    ensures
        final(factory).wf(),
        final(parent).wf(),
        !crate::factory::has_key(old(factory)@.entries, key) ==> final(factory)@ == old(
            factory,
        )@ && final(parent)@ == old(parent)@,
        crate::factory::has_key(old(factory)@.entries, key) ==> final(factory)@ == (
        crate::factory::FactoryModel {
            entries: old(factory)@.entries.update(
                crate::factory::index_of_key(old(factory)@.entries, key),
                (
                    key,
                    (MachineModel {
                        outbox: Seq::<C::Output>::empty(),
                        ..crate::factory::entry_model(old(factory)@.entries, key)
                    }),
                ),
            ),
            ..old(factory)@
        }) && final(parent)@ == spec_relay(
            old(parent)@,
            crate::factory::entry_model(old(factory)@.entries, key).outbox.map_values(
                |o: C::Output| transform.transform_spec(o),
            ),
        ),
{
    factory.forward_entry_outputs(key, &mut parent.machine, transform)
}

} // verus!
