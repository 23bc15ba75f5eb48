//! The component state machine.
//!
//! A component owns a model and drives it through an `Uninitialized` →
//! `Running` → `ShuttingDown` → `Terminated` lifecycle. While running, each
//! received input triggers one update step (which mutates the model and may
//! emit outputs) followed by one view refresh, back to back, so two update
//! steps of the same model never interleave. Once shutdown is requested the
//! machine stops accepting input; once shutdown completes, undelivered input
//! is abandoned and no further view refresh happens.
//!
//! The machine is a value driven by the scheduler that owns it; its abstract
//! state is the [`MachineModel`] ghost view, and every operation's contract
//! pins the new view to a spec-level transition function, so laws about whole
//! schedules can be proved by composing those functions.

use vstd::prelude::*;

use crate::channel::{Channel, SendError};

verus! {

/// Lifecycle phase of a component state machine.
#[derive(Clone, Copy, Debug, PartialEq, Eq, Structural)]
pub enum Phase {
    /// Model constructed, processing loop not yet consuming input.
    Uninitialized,
    /// The processing loop consumes input and refreshes the view.
    Running,
    /// Shutdown was requested: no new input is accepted.
    ShuttingDown,
    /// Teardown ran: undelivered input is abandoned and the view is released.
    Terminated,
}

/// A component: a model together with its update behaviour.
///
/// `update` is the only place a model mutates, and its contract ties the
/// mutation to the spec-level [`next_spec`](Component::next_spec), so
/// everything a schedule does to a component is determined by the inputs it
/// delivers and their order.
pub trait Component: Sized {
    /// Parameters the initial model is built from.
    type Init;
    /// The inputs the component accepts.
    type Input;
    /// The outputs the component emits towards a parent or subscriber.
    type Output;
    /// Opaque, toolkit-owned view state paired with the model.
    type Widgets;

    /// The model `init` constructs.
    spec fn init_spec(init: Self::Init) -> Self;

    /// The model after one update step on `input`.
    spec fn next_spec(self, input: Self::Input) -> Self;

    /// The outputs one update step on `input` emits, in emission order.
    spec fn outputs_spec(self, input: Self::Input) -> Seq<Self::Output>;

    /// Builds the initial model.
    fn init(init: Self::Init) -> (model: Self)
        ensures
            model == Self::init_spec(init),
    ;

    /// One update step: mutates the model and returns the emitted outputs.
    fn update(&mut self, input: Self::Input) -> (out: Vec<Self::Output>)
        ensures
            *final(self) == old(self).next_spec(input),
            out@ == old(self).outputs_spec(input),
    ;
}

/// Type which supports signaling when it has been destroyed; widget roots
/// implement it so a component's teardown can run when the toolkit releases
/// its view.
pub trait OnDestroy {
    /// Runs the given function when destroyed.
    fn on_destroy<F: FnOnce() + 'static>(&self, func: F);
}

/// Abstract state of a component state machine.
#[verifier::ext_equal]
pub ghost struct MachineModel<C: Component> {
    /// Lifecycle phase.
    pub phase: Phase,
    /// The owned model.
    pub model: C,
    /// Inputs sent but not yet processed, oldest first.
    pub inbox: Seq<C::Input>,
    /// Outputs emitted but not yet relayed to a parent, oldest first.
    pub outbox: Seq<C::Output>,
    /// How many view refreshes have run; one per processed input.
    pub refreshes: nat,
    /// How many spawned commands have not reported back yet.
    pub pending_commands: nat,
    /// Every input processed so far, in processing order.
    pub processed: Seq<C::Input>,
}

/// Basic well-formedness of an abstract machine state: the view was refreshed
/// exactly once per processed input, and a terminated machine has abandoned
/// its queue.
pub open spec fn wf_machine<C: Component>(v: MachineModel<C>) -> bool {
    &&& v.refreshes == v.processed.len()
    &&& v.phase == Phase::Terminated ==> v.inbox.len() == 0
}

/// The abstract state of a freshly built machine around `model`.
pub open spec fn spec_init_machine<C: Component>(model: C) -> MachineModel<C> {
    MachineModel {
        phase: Phase::Uninitialized,
        model,
        inbox: Seq::empty(),
        outbox: Seq::empty(),
        refreshes: 0,
        pending_commands: 0,
        processed: Seq::empty(),
    }
}

/// A machine whose processing loop has started consuming input.
pub open spec fn spec_started_machine<C: Component>(model: C) -> MachineModel<C> {
    MachineModel { phase: Phase::Running, ..spec_init_machine(model) }
}

/// Whether the machine still accepts new input.
pub open spec fn accepts_input<C: Component>(v: MachineModel<C>) -> bool {
    v.phase == Phase::Uninitialized || v.phase == Phase::Running
}

/// Transition: the processing loop begins consuming input.
pub open spec fn spec_start<C: Component>(v: MachineModel<C>) -> MachineModel<C> {
    if v.phase == Phase::Uninitialized {
        MachineModel { phase: Phase::Running, ..v }
    } else {
        v
    }
}

/// Transition: an external caller sends `input`. After shutdown is requested
/// the input is dropped.
pub open spec fn spec_send<C: Component>(v: MachineModel<C>, input: C::Input) -> MachineModel<C> {
    if accepts_input(v) {
        MachineModel { inbox: v.inbox.push(input), ..v }
    } else {
        v
    }
}

/// Transition: the loop processes the oldest pending input — one update step,
/// then one view refresh.
pub open spec fn spec_step<C: Component>(v: MachineModel<C>) -> MachineModel<C> {
    if v.phase == Phase::Running && v.inbox.len() > 0 {
        let input = v.inbox[0];
        MachineModel {
            model: v.model.next_spec(input),
            inbox: v.inbox.drop_first(),
            outbox: v.outbox + v.model.outputs_spec(input),
            refreshes: v.refreshes + 1,
            processed: v.processed.push(input),
            ..v
        }
    } else {
        v
    }
}

/// The model after applying one update step per input, front to back.
pub open spec fn fold_model<C: Component>(model: C, inputs: Seq<C::Input>) -> C
    decreases inputs.len(),
{
    if inputs.len() == 0 {
        model
    } else {
        fold_model(model.next_spec(inputs[0]), inputs.drop_first())
    }
}

/// The outputs collected while applying one update step per input.
pub open spec fn fold_outputs<C: Component>(model: C, inputs: Seq<C::Input>) -> Seq<C::Output>
    decreases inputs.len(),
{
    if inputs.len() == 0 {
        Seq::empty()
    } else {
        model.outputs_spec(inputs[0]) + fold_outputs(model.next_spec(inputs[0]), inputs.drop_first())
    }
}

/// Transition: the loop drains its whole inbox, one step at a time.
pub open spec fn spec_run<C: Component>(v: MachineModel<C>) -> MachineModel<C> {
    if v.phase == Phase::Running {
        MachineModel {
            model: fold_model(v.model, v.inbox),
            inbox: Seq::empty(),
            outbox: v.outbox + fold_outputs(v.model, v.inbox),
            refreshes: v.refreshes + v.inbox.len(),
            processed: v.processed + v.inbox,
            ..v
        }
    } else {
        v
    }
}

/// Transition: shutdown is requested; the machine stops accepting input.
pub open spec fn spec_request_shutdown<C: Component>(v: MachineModel<C>) -> MachineModel<C> {
    if accepts_input(v) {
        MachineModel { phase: Phase::ShuttingDown, ..v }
    } else {
        v
    }
}

/// Transition: teardown runs; undelivered input is abandoned and the machine
/// becomes terminal.
pub open spec fn spec_complete_shutdown<C: Component>(v: MachineModel<C>) -> MachineModel<C> {
    if v.phase == Phase::ShuttingDown {
        MachineModel { phase: Phase::Terminated, inbox: Seq::empty(), ..v }
    } else {
        v
    }
}

/// Transition: detach — request shutdown and wait for it to be acknowledged.
pub open spec fn spec_detach<C: Component>(v: MachineModel<C>) -> MachineModel<C> {
    spec_complete_shutdown(spec_request_shutdown(v))
}

/// Transition: one more command is in flight.
pub open spec fn spec_spawn_command<C: Component>(v: MachineModel<C>) -> MachineModel<C> {
    if v.phase == Phase::Running {
        MachineModel { pending_commands: v.pending_commands + 1, ..v }
    } else {
        v
    }
}

/// Transition: an in-flight command reports its result as a synthetic input.
/// If the component no longer runs, the result is dropped without error and
/// without message delivery.
pub open spec fn spec_deliver<C: Component>(v: MachineModel<C>, msg: C::Input) -> MachineModel<C> {
    let remaining: nat = if v.pending_commands > 0 { (v.pending_commands - 1) as nat } else { 0 };
    if v.phase == Phase::Running {
        MachineModel { inbox: v.inbox.push(msg), pending_commands: remaining, ..v }
    } else {
        MachineModel { pending_commands: remaining, ..v }
    }
}

/// A component state machine: the model, its pending input, its emitted
/// output, and the lifecycle bookkeeping, owned by one scheduler.
pub struct StateMachine<C: Component> {
    phase: Phase,
    model: C,
    inbox: Channel<C::Input>,
    outbox: Vec<C::Output>,
    refreshes: u64,
    pending_commands: u64,
    processed: Ghost<Seq<C::Input>>,
}

impl<C: Component> View for StateMachine<C> {
    type V = MachineModel<C>;

    closed spec fn view(&self) -> MachineModel<C> {
        MachineModel {
            phase: self.phase,
            model: self.model,
            inbox: self.inbox.pending(),
            outbox: self.outbox@,
            refreshes: self.refreshes as nat,
            pending_commands: self.pending_commands as nat,
            processed: self.processed@,
        }
    }
}

impl<C: Component> StateMachine<C> {
    /// Machine-level well-formedness: the abstract state is well formed and
    /// the inbox is closed exactly from the moment shutdown was requested.
    pub closed spec fn wf(&self) -> bool {
        &&& wf_machine(self@)
        &&& self.inbox.is_closed() <==> (self.phase == Phase::ShuttingDown
            || self.phase == Phase::Terminated)
    }

    /// Builds a machine around `model`: widgets constructed elsewhere, loop
    /// not yet consuming.
    pub fn new(model: C) -> (m: Self)
        ensures
            m.wf(),
            m@ == spec_init_machine(model),
    {
        let m = StateMachine {
            phase: Phase::Uninitialized,
            model,
            inbox: Channel::new(),
            outbox: Vec::new(),
            refreshes: 0,
            pending_commands: 0,
            processed: Ghost(Seq::empty()),
        };
        proof {
            assert(m@ =~= spec_init_machine(m@.model));
        }
        m
    }

    /// The processing loop begins consuming input.
    pub fn start(&mut self)
        requires
            old(self).wf(),
        ensures
            final(self).wf(),
            final(self)@ == spec_start(old(self)@),
    {
        if self.phase == Phase::Uninitialized {
            self.phase = Phase::Running;
        }
        proof {
            assert(self@ =~= spec_start(old(self)@));
        }
    }

    /// Sends `input` to the machine. Succeeds exactly as long as shutdown has
    /// not been requested; afterwards the input is dropped and the sender
    /// sees a non-fatal [`SendError`].
    pub fn send(&mut self, input: C::Input) -> (r: Result<(), SendError>)
        requires
            old(self).wf(),
        ensures
            final(self).wf(),
            final(self)@ == spec_send(old(self)@, input),
            r is Ok <==> accepts_input(old(self)@),
    {
        let r = self.inbox.send(input);
        proof {
            assert(self@ =~= spec_send(old(self)@, input));
        }
        r
    }

    /// The current lifecycle phase.
    pub fn phase(&self) -> (p: Phase)
        ensures
            p == self@.phase,
    {
        self.phase
    }

    /// Borrows the owned model, for state watchers.
    pub fn model(&self) -> (m: &C)
        ensures
            *m == self@.model,
    {
        &self.model
    }

    /// Consumes the machine and hands the model back.
    pub fn into_model(self) -> (m: C)
        ensures
            m == self@.model,
    {
        self.model
    }

    /// How many view refreshes have run.
    pub fn refreshes(&self) -> (n: u64)
        ensures
            n as nat == self@.refreshes,
    {
        self.refreshes
    }

    /// How many inputs are pending.
    pub fn queued(&self) -> (n: usize)
        ensures
            n as nat == self@.inbox.len(),
    {
        self.inbox.len()
    }

    /// How many spawned commands have not reported back yet.
    pub fn pending_commands(&self) -> (n: u64)
        ensures
            n as nat == self@.pending_commands,
    {
        self.pending_commands
    }

    /// How many outputs await relaying.
    pub fn emitted(&self) -> (n: usize)
        ensures
            n as nat == self@.outbox.len(),
    {
        self.outbox.len()
    }

    /// Processes the oldest pending input: one update step, then one view
    /// refresh, back to back.
    pub fn process_one(&mut self)
        requires
            old(self).wf(),
            old(self)@.phase == Phase::Running,
            old(self)@.inbox.len() > 0,
            old(self)@.refreshes < u64::MAX,
        ensures
            final(self).wf(),
            final(self)@ == spec_step(old(self)@),
    {
        let recv = self.inbox.try_recv();
        let input = match recv {
            Some(input) => input,
            None => {
                proof {
                    assert(false);
                }
                unreached()
            },
        };
        let ghost gi = input;
        let mut out = self.model.update(input);
        self.outbox.append(&mut out);
        self.refreshes = self.refreshes + 1;
        proof {
            self.processed@ = self.processed@.push(gi);
        }
        proof {
            assert(self@ =~= spec_step(old(self)@));
        }
    }

    /// Drains the whole inbox, processing the inputs one at a time in send
    /// order and refreshing the view after each one.
    pub fn run_to_idle(&mut self)
        requires
            old(self).wf(),
            old(self)@.phase == Phase::Running,
            old(self)@.refreshes + old(self)@.inbox.len() <= u64::MAX,
        ensures
            final(self).wf(),
            final(self)@ == spec_run(old(self)@),
    {
        let ghost v0 = self@;
        loop
            invariant
                self.wf(),
                self@.phase == Phase::Running,
                self@.refreshes + self@.inbox.len() <= u64::MAX,
                spec_run(self@) == spec_run(v0),
            ensures
                self@.inbox.len() == 0,
            decreases self@.inbox.len(),
        {
            if self.queued() == 0 {
                break;
            }
            let ghost vpre = self@;
            self.process_one();
            proof {
                lemma_step_preserves_run(vpre);
            }
        }
        proof {
            assert(fold_model(self@.model, self@.inbox) == self@.model);
            assert(self@.outbox + fold_outputs(self@.model, self@.inbox) =~= self@.outbox);
            assert(self@.processed + self@.inbox =~= self@.processed);
            assert(spec_run(self@) =~= self@);
        }
    }

    /// Requests shutdown: the machine stops accepting input; pending input
    /// and in-flight commands are not yet touched.
    pub fn request_shutdown(&mut self)
        requires
            old(self).wf(),
        ensures
            final(self).wf(),
            final(self)@ == spec_request_shutdown(old(self)@),
    {
        if self.phase == Phase::Uninitialized || self.phase == Phase::Running {
            self.phase = Phase::ShuttingDown;
            self.inbox.close();
        }
        proof {
            assert(self@ =~= spec_request_shutdown(old(self)@));
        }
    }

    /// Completes a requested shutdown: teardown abandons undelivered input
    /// and the machine becomes terminal.
    pub fn complete_shutdown(&mut self)
        requires
            old(self).wf(),
        ensures
            final(self).wf(),
            final(self)@ == spec_complete_shutdown(old(self)@),
    {
        if self.phase == Phase::ShuttingDown {
            self.phase = Phase::Terminated;
            self.inbox.clear();
        }
        proof {
            assert(self@ =~= spec_complete_shutdown(old(self)@));
        }
    }

    /// Detaches the machine: requests shutdown and acknowledges it. Safe to
    /// repeat; a second call has no additional effect.
    pub fn detach(&mut self)
        requires
            old(self).wf(),
        ensures
            final(self).wf(),
            final(self)@ == spec_detach(old(self)@),
    {
        self.request_shutdown();
        self.complete_shutdown();
    }

    /// Notes one more in-flight command. The command itself runs on an
    /// executor outside the machine; its result re-enters through
    /// [`deliver_command_result`](Self::deliver_command_result).
    pub fn spawn_command(&mut self)
        requires
            old(self).wf(),
            old(self)@.phase == Phase::Running,
            old(self)@.pending_commands < u64::MAX,
        ensures
            final(self).wf(),
            final(self)@ == spec_spawn_command(old(self)@),
    {
        self.pending_commands = self.pending_commands + 1;
        proof {
            assert(self@ =~= spec_spawn_command(old(self)@));
        }
    }

    /// An in-flight command reports back: its result enters the inbox as a
    /// synthetic input. If the component no longer runs, the result is
    /// dropped — no error, no message delivery.
    pub fn deliver_command_result(&mut self, msg: C::Input) -> (delivered: bool)
        requires
            old(self).wf(),
            old(self)@.pending_commands >= 1,
        ensures
            final(self).wf(),
            final(self)@ == spec_deliver(old(self)@, msg),
            delivered <==> old(self)@.phase == Phase::Running,
    {
        self.pending_commands = self.pending_commands - 1;
        let delivered = if self.phase == Phase::Running {
            let _ = self.inbox.send(msg);
            true
        } else {
            false
        };
        proof {
            assert(self@ =~= spec_deliver(old(self)@, msg));
        }
        delivered
    }

    /// Pops the oldest emitted output, for relaying towards a parent.
    pub fn take_output(&mut self) -> (r: Option<C::Output>)
        requires
            old(self).wf(),
        ensures
            final(self).wf(),
            old(self)@.outbox.len() == 0 ==> r is None && final(self)@ == old(self)@,
            old(self)@.outbox.len() > 0 ==> r == Some(old(self)@.outbox[0])
                && final(self)@ == (MachineModel { outbox: old(self)@.outbox.drop_first(), ..old(self)@ }),
    {
        if self.outbox.len() == 0 {
            proof {
                assert(self@ =~= old(self)@);
            }
            None
        } else {
            let out = self.outbox.remove(0);
            proof {
                assert(self@ =~= (MachineModel { outbox: old(self)@.outbox.drop_first(), ..old(self)@ }));
            }
            Some(out)
        }
    }
}

/// Law: update steps apply once per input, in send order. Delivering a batch
/// `a` and then a batch `b` drives the model exactly where processing `a`
/// first and `b` afterwards drives it, so the observed sequence of model
/// mutations is the fold of `update` over the inputs in queue order.
pub proof fn lemma_updates_apply_in_send_order<C: Component>(
    model: C,
    a: Seq<C::Input>,
    b: Seq<C::Input>,
)
    ensures
        fold_model(model, a + b) == fold_model(fold_model(model, a), b),
    decreases a.len(),
{
    if a.len() == 0 {
        assert(a + b =~= b);
    } else {
        assert((a + b)[0] == a[0]);
        assert((a + b).drop_first() =~= a.drop_first() + b);
        lemma_updates_apply_in_send_order(model.next_spec(a[0]), a.drop_first(), b);
    }
}

/// The machine after a whole batch of inputs is sent, front to back.
pub open spec fn spec_send_all<C: Component>(
    v: MachineModel<C>,
    inputs: Seq<C::Input>,
) -> MachineModel<C>
    decreases inputs.len(),
{
    if inputs.len() == 0 {
        v
    } else {
        spec_send_all(spec_send(v, inputs[0]), inputs.drop_first())
    }
}

/// Sending a batch into a machine that accepts input queues the whole batch,
/// in send order, and touches nothing else.
pub proof fn lemma_send_all_queues<C: Component>(v: MachineModel<C>, inputs: Seq<C::Input>)
    requires
        accepts_input(v),
    ensures
        spec_send_all(v, inputs) == (MachineModel { inbox: v.inbox + inputs, ..v }),
    decreases inputs.len(),
{
    if inputs.len() == 0 {
        assert(v.inbox + inputs =~= v.inbox);
        assert(spec_send_all(v, inputs) =~= (MachineModel { inbox: v.inbox + inputs, ..v }));
    } else {
        let w = spec_send(v, inputs[0]);
        lemma_send_all_queues(w, inputs.drop_first());
        assert(w.inbox + inputs.drop_first() =~= v.inbox + inputs);
        assert(spec_send_all(v, inputs) =~= (MachineModel { inbox: v.inbox + inputs, ..v }));
    }
}

/// Law: FIFO delivery. For any sequence of inputs sent to a running
/// component, draining the loop applies `update` exactly once per input, in
/// send order, after the inputs already queued; the processing history
/// records exactly that order, and one view refresh ran per input.
pub proof fn lemma_fifo_delivery<C: Component>(v: MachineModel<C>, inputs: Seq<C::Input>)
    requires
        v.phase == Phase::Running,
    ensures
        spec_run(spec_send_all(v, inputs)).model == fold_model(v.model, v.inbox + inputs),
        spec_run(spec_send_all(v, inputs)).processed == v.processed + v.inbox + inputs,
        spec_run(spec_send_all(v, inputs)).refreshes == v.refreshes + v.inbox.len()
            + inputs.len(),
{
    lemma_send_all_queues(v, inputs);
    assert(v.processed + (v.inbox + inputs) =~= v.processed + v.inbox + inputs);
}

/// Law: detach is idempotent. Once a detach has been acknowledged, repeating
/// it has no additional effect.
pub proof fn lemma_detach_idempotent<C: Component>(v: MachineModel<C>)
    ensures
        spec_detach(spec_detach(v)) == spec_detach(v),
{
    assert(spec_detach(spec_detach(v)) =~= spec_detach(v));
}

/// Law: a terminated machine is inert. After detach has been acknowledged no
/// operation mutates the view again — the refresh count, the model, the
/// queues and the processing history all stay put; only the in-flight
/// command count can still drain as abandoned commands report back and are
/// dropped.
pub proof fn lemma_terminated_is_inert<C: Component>(
    v: MachineModel<C>,
    input: C::Input,
    msg: C::Input,
)
    requires
        v.phase == Phase::Terminated,
    ensures
        spec_start(v) == v,
        spec_send(v, input) == v,
        spec_step(v) == v,
        spec_run(v) == v,
        spec_request_shutdown(v) == v,
        spec_complete_shutdown(v) == v,
        spec_detach(v) == v,
        spec_spawn_command(v) == v,
        spec_deliver(v, msg).refreshes == v.refreshes,
        spec_deliver(v, msg).model == v.model,
        spec_deliver(v, msg).inbox == v.inbox,
        spec_deliver(v, msg).outbox == v.outbox,
        spec_deliver(v, msg).processed == v.processed,
        spec_deliver(v, msg).phase == v.phase,
{
}

/// Law: a command whose component was detached before the command completed
/// delivers nothing. When the result arrives it is dropped — no error, no
/// message delivery, no model change, no view refresh.
pub proof fn lemma_result_after_detach_dropped<C: Component>(v: MachineModel<C>, msg: C::Input)
    ensures
        spec_detach(v).phase == Phase::Terminated,
        spec_deliver(spec_detach(v), msg).inbox == spec_detach(v).inbox,
        spec_deliver(spec_detach(v), msg).model == spec_detach(v).model,
        spec_deliver(spec_detach(v), msg).refreshes == spec_detach(v).refreshes,
        spec_deliver(spec_detach(v), msg).outbox == spec_detach(v).outbox,
        spec_deliver(spec_detach(v), msg).processed == spec_detach(v).processed,
        spec_deliver(spec_detach(v), msg).phase == Phase::Terminated,
{
}

/// Law: shutdown preserves the model. Detaching terminates a component but
/// leaves its model, its processing history and its refresh count exactly as
/// they were when the shutdown was observed.
pub proof fn lemma_shutdown_preserves_model<C: Component>(v: MachineModel<C>)
    ensures
        spec_detach(v).phase == Phase::Terminated,
        spec_detach(v).model == v.model,
        spec_detach(v).refreshes == v.refreshes,
        spec_detach(v).processed == v.processed,
        spec_detach(v).outbox == v.outbox,
{
}

/// Law: a shutdown broadcast isolates siblings. When a parent's shutdown is
/// observed by two attached children, both reach `Terminated`, and neither
/// child's model state at the time of shutdown is affected by the other —
/// each ends with exactly its own model, history and refresh count.
pub proof fn lemma_broadcast_shutdown_isolates_siblings<A: Component, B: Component>(
    a: MachineModel<A>,
    b: MachineModel<B>,
)
    ensures
        spec_detach(a).phase == Phase::Terminated,
        spec_detach(b).phase == Phase::Terminated,
        spec_detach(a).model == a.model,
        spec_detach(b).model == b.model,
        spec_detach(a).refreshes == a.refreshes,
        spec_detach(b).refreshes == b.refreshes,
{
    lemma_shutdown_preserves_model(a);
    lemma_shutdown_preserves_model(b);
}

/// One processing step does not change where a full drain of the inbox ends
/// up: the drain is exactly the steps, composed in queue order.
pub proof fn lemma_step_preserves_run<C: Component>(v: MachineModel<C>)
    ensures
        spec_run(spec_step(v)) == spec_run(v),
{
    if v.phase == Phase::Running && v.inbox.len() > 0 {
        let w = spec_step(v);
        assert(fold_model(v.model, v.inbox) == fold_model(w.model, w.inbox));
        assert(w.outbox + fold_outputs(w.model, w.inbox) =~= v.outbox + fold_outputs(v.model, v.inbox));
        assert(w.processed + w.inbox =~= v.processed + v.inbox);
        assert(spec_run(spec_step(v)) =~= spec_run(v));
    }
}

} // verus!
