use vstd::prelude::*;

use crate::message::EnvelopeKind;

verus! {

/// Where an actor's worker stands in its life.
#[derive(Debug, Clone, Copy, PartialEq, Eq, Structural)]
pub enum WorkerPhase {
    /// Spawned; the actor's `started` hook has not run yet.
    Created,
    /// Waiting on the mailbox and on the tasks of the actor's context.
    Receiving,
    /// A message is being delivered: its handler holds the actor until the
    /// delivery has finished. The mailbox is not read meanwhile, and the tasks
    /// are polled but what they produce is held back.
    Delivering,
    /// The actor's `stopped` hook has run; the worker does nothing more.
    Finished,
}

/// The state on which a worker bases its decisions.
#[derive(Debug, Clone, Copy, PartialEq, Eq, Structural)]
pub struct WorkerState {
    pub phase: WorkerPhase,
    /// The mailbox has reported that every address of the actor is gone.
    pub mailbox_closed: bool,
    /// Task outputs arrived during a delivery and wait for it to finish.
    pub outputs_held: bool,
}

/// What the runtime observed since the last decision.
#[derive(Debug, Clone, Copy, PartialEq, Eq, Structural)]
pub enum WorkerEvent {
    /// The last action was carried out and did not wait on anything.
    Resumed,
    /// A task of the context produced an output, now held by the runtime.
    TaskOutput,
    /// The set of tasks reported that it has nothing left to produce.
    TasksExhausted,
    /// The mailbox handed over an envelope, now held by the runtime.
    Envelope(EnvelopeKind),
    /// The mailbox reported that it is closed and empty.
    MailboxClosed,
    /// The delivery in progress has finished.
    Delivered,
}

/// An event together with the state of the context's tasks at that moment.
#[derive(Debug, Clone, Copy, PartialEq, Eq, Structural)]
pub struct Observation {
    pub event: WorkerEvent,
    /// The set of tasks being polled is not empty.
    pub tasks_active: bool,
    /// The context holds tasks, spawned since the last drain, that are not yet
    /// in the set being polled and can be moved into it now (not while a
    /// handler holds the context).
    pub tasks_pending: bool,
}

/// What the runtime is to do next.
#[derive(Debug, Clone, Copy, PartialEq, Eq, Structural)]
pub enum WorkerAction {
    /// Call the actor's `started` hook, then report `Resumed`.
    CallStarted,
    /// Move the pending tasks into the polled set, then wait for the first of
    /// the enabled sources: the task set if `tasks`, the mailbox if `mailbox`.
    Select { tasks: bool, mailbox: bool },
    /// Call the task output that arrived, then report `Resumed`.
    RunTaskOutput,
    /// Log that the task set ran dry while it was polled, then report `Resumed`.
    ReportTasksExhausted { delivering: bool },
    /// Begin the delivery of the envelope that arrived, keeping it in
    /// progress until it finishes, then report `Resumed`.
    StartDelivery,
    /// Wait for the first of: the delivery in progress, and the task set if
    /// `tasks`.
    ContinueDelivery { tasks: bool },
    /// Keep the task output that arrived, to be called once the delivery has
    /// finished, then report `Resumed`.
    HoldTaskOutput,
    /// The delivery has finished and the handler has let go of the actor and
    /// the context: call the task outputs held back meanwhile (if any), in the
    /// order they arrived, then report `Resumed` with a fresh observation of
    /// the tasks, which counts those the handler spawned or added.
    RunHeldOutputs,
    /// Call the actor's `stopped` hook and hand the actor back to whoever sent
    /// the stop envelope; the worker ends.
    ReturnActor,
    /// Call the actor's `stopped` hook; the worker ends.
    Finish,
    /// Nothing is left to do.
    Halt,
}

impl WorkerState {
    /// The state of a freshly spawned worker.
    pub open spec fn initial_spec() -> WorkerState {
        WorkerState { phase: WorkerPhase::Created, mailbox_closed: false, outputs_held: false }
    }
}

/// The decision at the head of the receive loop: first call what a delivery
/// held back; then end the worker once the mailbox is closed and no task is
/// left to poll; otherwise wait on the sources that can still produce something.
pub open spec fn receive_decision(
    mailbox_closed: bool,
    outputs_held: bool,
    tasks_active: bool,
    tasks_pending: bool,
) -> (WorkerState, WorkerAction) {
    if outputs_held {
        (
            WorkerState { phase: WorkerPhase::Receiving, mailbox_closed, outputs_held: false },
            WorkerAction::RunHeldOutputs,
        )
    } else if mailbox_closed && !tasks_active {
        (
            WorkerState { phase: WorkerPhase::Finished, mailbox_closed, outputs_held: false },
            WorkerAction::Finish,
        )
    } else {
        (
            WorkerState { phase: WorkerPhase::Receiving, mailbox_closed, outputs_held: false },
            WorkerAction::Select { tasks: tasks_active || tasks_pending, mailbox: !mailbox_closed },
        )
    }
}

/// The worker's transition table. An event that the last action could not
/// have produced is taken as `Resumed`.
pub open spec fn next(s: WorkerState, obs: Observation) -> (WorkerState, WorkerAction) {
    let active = obs.tasks_active;
    let pending = obs.tasks_pending;
    match s.phase {
        WorkerPhase::Created => (
            WorkerState { phase: WorkerPhase::Receiving, ..s },
            WorkerAction::CallStarted,
        ),
        WorkerPhase::Receiving => match obs.event {
            WorkerEvent::TaskOutput => (s, WorkerAction::RunTaskOutput),
            WorkerEvent::TasksExhausted => (s, WorkerAction::ReportTasksExhausted { delivering: false }),
            WorkerEvent::Envelope(EnvelopeKind::Stop) => (
                WorkerState { phase: WorkerPhase::Finished, ..s },
                WorkerAction::ReturnActor,
            ),
            WorkerEvent::Envelope(EnvelopeKind::Message) => (
                WorkerState { phase: WorkerPhase::Delivering, ..s },
                WorkerAction::StartDelivery,
            ),
            WorkerEvent::MailboxClosed => receive_decision(true, s.outputs_held, active, pending),
            _ => receive_decision(s.mailbox_closed, s.outputs_held, active, pending),
        },
        WorkerPhase::Delivering => match obs.event {
            WorkerEvent::TaskOutput => (
                WorkerState { outputs_held: true, ..s },
                WorkerAction::HoldTaskOutput,
            ),
            WorkerEvent::TasksExhausted => (s, WorkerAction::ReportTasksExhausted { delivering: true }),
            WorkerEvent::Delivered => (
                WorkerState {
                    phase: WorkerPhase::Receiving,
                    mailbox_closed: s.mailbox_closed,
                    outputs_held: false,
                },
                WorkerAction::RunHeldOutputs,
            ),
            _ => (s, WorkerAction::ContinueDelivery { tasks: active || pending }),
        },
        WorkerPhase::Finished => (s, WorkerAction::Halt),
    }
}

impl WorkerState {
    /// The state of a freshly spawned worker.
    pub fn initial() -> (s: WorkerState)
        ensures
            s == WorkerState::initial_spec(),
    {
        WorkerState { phase: WorkerPhase::Created, mailbox_closed: false, outputs_held: false }
    }

    /// Decides, from the worker's state and what was observed, the worker's
    /// next state and the action the runtime is to carry out.
    pub fn step(self, obs: Observation) -> (r: (WorkerState, WorkerAction))
        ensures
            r == next(self, obs),
    {
        let active = obs.tasks_active;
        let pending = obs.tasks_pending;
        match self.phase {
            WorkerPhase::Created => (
                WorkerState { phase: WorkerPhase::Receiving, ..self },
                WorkerAction::CallStarted,
            ),
            WorkerPhase::Receiving => match obs.event {
                WorkerEvent::TaskOutput => (self, WorkerAction::RunTaskOutput),
                WorkerEvent::TasksExhausted => (
                    self,
                    WorkerAction::ReportTasksExhausted { delivering: false },
                ),
                WorkerEvent::Envelope(EnvelopeKind::Stop) => (
                    WorkerState { phase: WorkerPhase::Finished, ..self },
                    WorkerAction::ReturnActor,
                ),
                WorkerEvent::Envelope(EnvelopeKind::Message) => (
                    WorkerState { phase: WorkerPhase::Delivering, ..self },
                    WorkerAction::StartDelivery,
                ),
                WorkerEvent::MailboxClosed => Self::receive_next(
                    true,
                    self.outputs_held,
                    active,
                    pending,
                ),
                _ => Self::receive_next(self.mailbox_closed, self.outputs_held, active, pending),
            },
            WorkerPhase::Delivering => match obs.event {
                WorkerEvent::TaskOutput => (
                    WorkerState { outputs_held: true, ..self },
                    WorkerAction::HoldTaskOutput,
                ),
                WorkerEvent::TasksExhausted => (
                    self,
                    WorkerAction::ReportTasksExhausted { delivering: true },
                ),
                WorkerEvent::Delivered => (
                    WorkerState {
                        phase: WorkerPhase::Receiving,
                        mailbox_closed: self.mailbox_closed,
                        outputs_held: false,
                    },
                    WorkerAction::RunHeldOutputs,
                ),
                _ => (self, WorkerAction::ContinueDelivery { tasks: active || pending }),
            },
            WorkerPhase::Finished => (self, WorkerAction::Halt),
        }
    }

    fn receive_next(
        mailbox_closed: bool,
        outputs_held: bool,
        tasks_active: bool,
        tasks_pending: bool,
    ) -> (r: (WorkerState, WorkerAction))
        ensures
            r == receive_decision(mailbox_closed, outputs_held, tasks_active, tasks_pending),
    {
        if outputs_held {
            (
                WorkerState { phase: WorkerPhase::Receiving, mailbox_closed, outputs_held: false },
                WorkerAction::RunHeldOutputs,
            )
        } else if mailbox_closed && !tasks_active {
            (
                WorkerState { phase: WorkerPhase::Finished, mailbox_closed, outputs_held: false },
                WorkerAction::Finish,
            )
        } else {
            (
                WorkerState { phase: WorkerPhase::Receiving, mailbox_closed, outputs_held: false },
                WorkerAction::Select {
                    tasks: tasks_active || tasks_pending,
                    mailbox: !mailbox_closed,
                },
            )
        }
    }
}

/// The actions a worker takes when, starting in state `s`, it observes `obs`
/// one after the other.
pub open spec fn run(s: WorkerState, obs: Seq<Observation>) -> Seq<WorkerAction>
    decreases obs.len(),
{
    if obs.len() == 0 {
        Seq::empty()
    } else {
        let (s2, a) = next(s, obs[0]);
        seq![a] + run(s2, obs.drop_first())
    }
}

/// The action calls the actor's `stopped` hook.
pub open spec fn calls_stopped(a: WorkerAction) -> bool {
    a == WorkerAction::ReturnActor || a == WorkerAction::Finish
}

proof fn lemma_run_len(s: WorkerState, obs: Seq<Observation>)
    ensures
        run(s, obs).len() == obs.len(),
    decreases obs.len(),
{
    if obs.len() > 0 {
        lemma_run_len(next(s, obs[0]).0, obs.drop_first());
    }
}

proof fn lemma_finished_halts(s: WorkerState, obs: Seq<Observation>)
    requires
        s.phase == WorkerPhase::Finished,
    ensures
        forall|i: int| 0 <= i < obs.len() ==> run(s, obs)[i] == WorkerAction::Halt,
    decreases obs.len(),
{
    lemma_run_len(s, obs);
    if obs.len() > 0 {
        let rest = obs.drop_first();
        lemma_finished_halts(s, rest);
        lemma_run_len(s, rest);
        assert forall|i: int| 0 <= i < obs.len() implies run(s, obs)[i] == WorkerAction::Halt by {
            if i > 0 {
                assert(run(s, obs)[i] == run(s, rest)[i - 1]);
            }
        }
    }
}

proof fn lemma_no_restart(s: WorkerState, obs: Seq<Observation>)
    requires
        s.phase != WorkerPhase::Created,
    ensures
        forall|i: int| 0 <= i < obs.len() ==> run(s, obs)[i] != WorkerAction::CallStarted,
    decreases obs.len(),
{
    lemma_run_len(s, obs);
    if obs.len() > 0 {
        let s2 = next(s, obs[0]).0;
        let rest = obs.drop_first();
        lemma_no_restart(s2, rest);
        lemma_run_len(s2, rest);
        assert forall|i: int| 0 <= i < obs.len() implies run(s, obs)[i]
            != WorkerAction::CallStarted by {
            if i > 0 {
                assert(run(s, obs)[i] == run(s2, rest)[i - 1]);
            }
        }
    }
}

proof fn lemma_stopped_is_last(s: WorkerState, obs: Seq<Observation>)
    ensures
        forall|i: int, j: int|
            0 <= i < j < obs.len() && calls_stopped(#[trigger] run(s, obs)[i]) ==> #[trigger] run(
                s,
                obs,
            )[j] == WorkerAction::Halt,
    decreases obs.len(),
{
    lemma_run_len(s, obs);
    if obs.len() > 0 {
        let s2 = next(s, obs[0]).0;
        let rest = obs.drop_first();
        lemma_stopped_is_last(s2, rest);
        lemma_run_len(s2, rest);
        if calls_stopped(run(s, obs)[0]) {
            lemma_finished_halts(s2, rest);
        }
        assert forall|i: int, j: int|
            0 <= i < j < obs.len() && calls_stopped(#[trigger] run(s, obs)[i]) implies #[trigger] run(
            s,
            obs,
        )[j] == WorkerAction::Halt by {
            assert(run(s, obs)[j] == run(s2, rest)[j - 1]);
            if i > 0 {
                assert(run(s, obs)[i] == run(s2, rest)[i - 1]);
            }
        }
    }
}

/// Lifecycle of an actor: whatever the worker observes, the actor's `started`
/// hook is the first thing called and is never called again, the `stopped`
/// hook is called at most once, and after it the worker does nothing more.
pub proof fn lemma_lifecycle(obs: Seq<Observation>)
    ensures
        run(WorkerState::initial_spec(), obs).len() == obs.len(),
        obs.len() > 0 ==> run(WorkerState::initial_spec(), obs)[0] == WorkerAction::CallStarted,
        forall|i: int|
            0 < i < obs.len() ==> #[trigger] run(WorkerState::initial_spec(), obs)[i]
                != WorkerAction::CallStarted,
        forall|i: int, j: int|
            0 <= i < j < obs.len() && calls_stopped(
                #[trigger] run(WorkerState::initial_spec(), obs)[i],
            ) ==> #[trigger] run(WorkerState::initial_spec(), obs)[j] == WorkerAction::Halt,
{
    let s = WorkerState::initial_spec();
    lemma_run_len(s, obs);
    lemma_stopped_is_last(s, obs);
    if obs.len() > 0 {
        let s2 = next(s, obs[0]).0;
        let rest = obs.drop_first();
        lemma_no_restart(s2, rest);
        lemma_run_len(s2, rest);
        assert forall|i: int| 0 < i < obs.len() implies #[trigger] run(s, obs)[i]
            != WorkerAction::CallStarted by {
            assert(run(s, obs)[i] == run(s2, rest)[i - 1]);
        }
    }
}

proof fn lemma_halt_after_stopped(s: WorkerState, obs: Seq<Observation>)
    requires
        s.phase != WorkerPhase::Finished,
    ensures
        forall|i: int|
            0 <= i < obs.len() && #[trigger] run(s, obs)[i] == WorkerAction::Halt ==> exists|k: int|
                0 <= k < i && calls_stopped(#[trigger] run(s, obs)[k]),
    decreases obs.len(),
{
    lemma_run_len(s, obs);
    if obs.len() > 0 {
        let (s2, a) = next(s, obs[0]);
        let rest = obs.drop_first();
        lemma_run_len(s2, rest);
        assert(run(s, obs)[0] == a);
        assert forall|i: int|
            0 <= i < obs.len() && #[trigger] run(s, obs)[i] == WorkerAction::Halt implies exists|k: int|
            0 <= k < i && calls_stopped(#[trigger] run(s, obs)[k]) by {
            if calls_stopped(a) {
                assert(calls_stopped(run(s, obs)[0]));
            } else {
                assert(s2.phase != WorkerPhase::Finished);
                lemma_halt_after_stopped(s2, rest);
                assert(run(s, obs)[i] == run(s2, rest)[i - 1]);
                let k = choose|k: int| 0 <= k < i - 1 && calls_stopped(#[trigger] run(s2, rest)[k]);
                assert(run(s, obs)[k + 1] == run(s2, rest)[k]);
            }
        }
    }
}

/// The worker halts only after the actor's `stopped` hook was called: on every
/// path where the worker ends, that hook is called exactly once.
pub proof fn lemma_halts_only_after_stopped(obs: Seq<Observation>)
    ensures
        forall|i: int|
            0 <= i < obs.len() && #[trigger] run(WorkerState::initial_spec(), obs)[i]
                == WorkerAction::Halt ==> exists|k: int|
                0 <= k < i && calls_stopped(#[trigger] run(WorkerState::initial_spec(), obs)[k]),
{
    lemma_halt_after_stopped(WorkerState::initial_spec(), obs);
}

/// Whenever the worker waits on its sources, at least one of them is enabled,
/// so the wait can always end.
pub proof fn lemma_select_has_a_source(s: WorkerState, obs: Observation)
    ensures
        next(s, obs).1 matches WorkerAction::Select { tasks, mailbox } ==> tasks || mailbox,
{
}

/// Once the mailbox has closed it stays closed, and the worker reads the
/// mailbox exactly when it is not known to be closed.
pub proof fn lemma_closed_mailbox_is_not_read(s: WorkerState, obs: Observation)
    ensures
        s.mailbox_closed ==> next(s, obs).0.mailbox_closed,
        next(s, obs).1 matches WorkerAction::Select { mailbox, .. } ==> mailbox == !next(
            s,
            obs,
        ).0.mailbox_closed,
{
}

/// The action lets user code touch the actor (a hook or a task output).
pub open spec fn touches_actor(a: WorkerAction) -> bool {
    ||| a == WorkerAction::CallStarted
    ||| a == WorkerAction::RunTaskOutput
    ||| a == WorkerAction::RunHeldOutputs
    ||| calls_stopped(a)
}

/// An actor handles one message at a time: while a delivery is in progress,
/// until it has finished, the worker neither reads the mailbox nor starts
/// another delivery, and lets nothing else touch the actor, whose handler
/// holds it; task outputs that arrive meanwhile are held back.
pub proof fn lemma_one_message_at_a_time(s: WorkerState, obs: Observation)
    requires
        s.phase == WorkerPhase::Delivering,
        obs.event != WorkerEvent::Delivered,
    ensures
        next(s, obs).0.phase == WorkerPhase::Delivering,
        next(s, obs).0.mailbox_closed == s.mailbox_closed,
        s.outputs_held ==> next(s, obs).0.outputs_held,
        !(next(s, obs).1 is Select),
        next(s, obs).1 != WorkerAction::StartDelivery,
        !touches_actor(next(s, obs).1),
        obs.event == WorkerEvent::TaskOutput ==> next(s, obs).1 == WorkerAction::HoldTaskOutput
            && next(s, obs).0.outputs_held,
{
}

/// When a delivery finishes, the worker first calls what it held back (if
/// anything) and takes a fresh observation, before the mailbox is read again
/// or the worker winds down.
pub proof fn lemma_held_outputs_run_after_delivery(s: WorkerState, obs: Observation)
    ensures
        s.phase == WorkerPhase::Delivering && obs.event == WorkerEvent::Delivered ==> next(s, obs)
            == (
            WorkerState {
                phase: WorkerPhase::Receiving,
                mailbox_closed: s.mailbox_closed,
                outputs_held: false,
            },
            WorkerAction::RunHeldOutputs,
        ),
        (next(s, obs).1 is Select || next(s, obs).1 == WorkerAction::Finish) ==> !s.outputs_held
            && !next(s, obs).0.outputs_held,
{
}

/// Spawned futures and added streams are worked on in the background: every
/// wait is decided on an observation taken outside a delivery, when the
/// context can be seen whole, and it includes the task set whenever the
/// context holds any task, active or just spawned; a delivery likewise runs
/// beside every task already in the set.
pub proof fn lemma_tasks_are_polled(s: WorkerState, obs: Observation)
    ensures
        next(s, obs).1 is Select ==> s.phase == WorkerPhase::Receiving,
        next(s, obs).1 matches WorkerAction::Select { tasks, .. } ==> tasks == (obs.tasks_active
            || obs.tasks_pending),
        next(s, obs).1 matches WorkerAction::ContinueDelivery { tasks } ==> tasks == (
        obs.tasks_active || obs.tasks_pending),
        next(s, obs).1 == WorkerAction::Finish ==> s.phase == WorkerPhase::Receiving
            && !obs.tasks_active,
{
}

/// The worker's state after it has observed the first `n` of `obs`.
pub open spec fn state_after(s: WorkerState, obs: Seq<Observation>, n: nat) -> WorkerState
    decreases n,
{
    if n == 0 || obs.len() == 0 {
        s
    } else {
        state_after(next(s, obs[0]).0, obs.drop_first(), (n - 1) as nat)
    }
}

proof fn lemma_run_index(s: WorkerState, obs: Seq<Observation>, i: int)
    requires
        0 <= i < obs.len(),
    ensures
        run(s, obs)[i] == next(state_after(s, obs, i as nat), obs[i]).1,
        state_after(s, obs, (i + 1) as nat) == next(state_after(s, obs, i as nat), obs[i]).0,
    decreases i,
{
    let s2 = next(s, obs[0]).0;
    let rest = obs.drop_first();
    lemma_run_len(s, obs);
    lemma_run_len(s2, rest);
    assert(run(s, obs) == seq![next(s, obs[0]).1] + run(s2, rest));
    if i == 0 {
        assert(state_after(s, obs, 1) == state_after(s2, rest, 0));
    } else {
        lemma_run_index(s2, rest, i - 1);
        assert(state_after(s, obs, i as nat) == state_after(s2, rest, (i - 1) as nat));
        assert(state_after(s, obs, (i + 1) as nat) == state_after(s2, rest, i as nat));
        assert(run(s, obs)[i] == run(s2, rest)[i - 1]);
        assert(rest[i - 1] == obs[i]);
    }
}

/// Over a whole run, an actor handles one message at a time: from the start of
/// a delivery until the delivery is reported finished, the worker stays in
/// its delivery, and takes no action that reads the mailbox, starts another
/// delivery, stops, or lets anything else touch the actor.
pub proof fn lemma_deliveries_do_not_overlap(s: WorkerState, obs: Seq<Observation>, i: int, j: int)
    requires
        0 <= i < j < obs.len(),
        run(s, obs)[i] == WorkerAction::StartDelivery,
        forall|k: int| i < k <= j ==> (#[trigger] obs[k]).event != WorkerEvent::Delivered,
    ensures
        state_after(s, obs, j as nat).phase == WorkerPhase::Delivering,
        !(run(s, obs)[j] is Select),
        run(s, obs)[j] != WorkerAction::StartDelivery,
        !touches_actor(run(s, obs)[j]),
    decreases j - i,
{
    lemma_run_index(s, obs, j);
    lemma_run_index(s, obs, j - 1);
    if j - 1 == i {
        lemma_stop_is_never_delivered(state_after(s, obs, i as nat), obs[i]);
    } else {
        lemma_deliveries_do_not_overlap(s, obs, i, j - 1);
        lemma_one_message_at_a_time(state_after(s, obs, (j - 1) as nat), obs[j - 1]);
    }
    lemma_one_message_at_a_time(state_after(s, obs, j as nat), obs[j]);
}

/// A delivery starts only for a message envelope, and only when none is in
/// progress; a stop envelope makes the worker hand the actor back and finish.
pub proof fn lemma_stop_is_never_delivered(s: WorkerState, obs: Observation)
    ensures
        next(s, obs).1 == WorkerAction::StartDelivery ==> s.phase == WorkerPhase::Receiving
            && obs.event == WorkerEvent::Envelope(EnvelopeKind::Message) && next(s, obs).0.phase
            == WorkerPhase::Delivering,
        next(s, obs).0.phase == WorkerPhase::Delivering && s.phase != WorkerPhase::Delivering
            ==> next(s, obs).1 == WorkerAction::StartDelivery,
        s.phase == WorkerPhase::Receiving && obs.event == WorkerEvent::Envelope(EnvelopeKind::Stop)
            ==> next(s, obs) == (
            WorkerState { phase: WorkerPhase::Finished, ..s },
            WorkerAction::ReturnActor,
        ),
{
}

/// The worker ends only right after a stop envelope, handing the actor back,
/// or, back at the head of its receive loop with nothing held, when the
/// mailbox is closed and no task is left to poll; it enters its final phase
/// exactly then.
pub proof fn lemma_ends_only_after_stop_or_drain(s: WorkerState, obs: Observation)
    ensures
        calls_stopped(next(s, obs).1) ==> (next(s, obs).1 == WorkerAction::ReturnActor && s.phase
            == WorkerPhase::Receiving && obs.event == WorkerEvent::Envelope(EnvelopeKind::Stop)) || (
        next(s, obs).1 == WorkerAction::Finish && next(s, obs).0.mailbox_closed
            && !obs.tasks_active && !s.outputs_held),
        next(s, obs).0.phase == WorkerPhase::Finished <==> (s.phase == WorkerPhase::Finished
            || calls_stopped(next(s, obs).1)),
        s.phase == WorkerPhase::Receiving && !s.outputs_held && obs.event
            == WorkerEvent::MailboxClosed && !obs.tasks_active ==> next(s, obs).1
            == WorkerAction::Finish,
        s.phase == WorkerPhase::Receiving && !s.outputs_held && obs.event
            == WorkerEvent::MailboxClosed && obs.tasks_active ==> next(s, obs).1 == (
        WorkerAction::Select { tasks: true, mailbox: false }),
{
}

/// Every task output that arrives is used, never discarded: outside a
/// delivery it is called at once, with the worker's state left as it was;
/// during a delivery it is held back (and called when the delivery ends, see
/// `lemma_held_outputs_run_after_delivery`), the worker staying in its
/// delivery. This holds whatever the mailbox and the task set look like.
pub proof fn lemma_task_outputs_are_never_dropped(s: WorkerState, obs: Observation)
    requires
        obs.event == WorkerEvent::TaskOutput,
    ensures
        s.phase == WorkerPhase::Receiving ==> next(s, obs) == (s, WorkerAction::RunTaskOutput),
        s.phase == WorkerPhase::Delivering ==> next(s, obs) == (
            WorkerState { outputs_held: true, ..s },
            WorkerAction::HoldTaskOutput,
        ),
        s.phase == WorkerPhase::Receiving || s.phase == WorkerPhase::Delivering ==> (next(s, obs).1
            == WorkerAction::RunTaskOutput || next(s, obs).1 == WorkerAction::HoldTaskOutput),
{
}

/// A task set that runs dry is reported, telling whether a delivery was in
/// progress, and changes nothing else.
pub proof fn lemma_exhausted_tasks_are_reported(s: WorkerState, obs: Observation)
    requires
        obs.event == WorkerEvent::TasksExhausted,
        s.phase == WorkerPhase::Receiving || s.phase == WorkerPhase::Delivering,
    ensures
        next(s, obs) == (
            s,
            WorkerAction::ReportTasksExhausted { delivering: s.phase == WorkerPhase::Delivering },
        ),
{
}

/// A fresh worker calls the `started` hook whatever it observes, and changes
/// nothing but its phase; a finished worker does nothing and stays as it is.
pub proof fn lemma_first_and_last_steps(s: WorkerState, obs: Observation)
    ensures
        s.phase == WorkerPhase::Created ==> next(s, obs) == (
            WorkerState { phase: WorkerPhase::Receiving, ..s },
            WorkerAction::CallStarted,
        ),
        s.phase == WorkerPhase::Finished ==> next(s, obs) == (s, WorkerAction::Halt),
{
}

/// A message envelope that arrives while receiving starts its delivery and
/// changes nothing but the phase.
pub proof fn lemma_message_starts_delivery(s: WorkerState, obs: Observation)
    requires
        s.phase == WorkerPhase::Receiving,
        obs.event == WorkerEvent::Envelope(EnvelopeKind::Message),
    ensures
        next(s, obs) == (
            WorkerState { phase: WorkerPhase::Delivering, ..s },
            WorkerAction::StartDelivery,
        ),
{
}

/// While a delivery is in progress and nothing else happened, the worker keeps
/// waiting on the same delivery, beside the task set when the context holds a
/// task, and its state does not change.
pub proof fn lemma_delivery_is_waited_on(s: WorkerState, obs: Observation)
    requires
        s.phase == WorkerPhase::Delivering,
        obs.event != WorkerEvent::TaskOutput,
        obs.event != WorkerEvent::TasksExhausted,
        obs.event != WorkerEvent::Delivered,
    ensures
        next(s, obs) == (
            s,
            WorkerAction::ContinueDelivery { tasks: obs.tasks_active || obs.tasks_pending },
        ),
{
}

/// At the head of the receive loop (resumed, told the mailbox has closed, or
/// any event a wait on the mailbox and tasks cannot give): the worker first
/// calls what it holds back; otherwise it records a closed mailbox, winds
/// down exactly when the mailbox is closed and no task is active, and else
/// waits on the mailbox if it is open and on the task set if the context
/// holds a task.
pub proof fn lemma_receive_loop_head(s: WorkerState, obs: Observation)
    requires
        s.phase == WorkerPhase::Receiving,
        obs.event == WorkerEvent::Resumed || obs.event == WorkerEvent::MailboxClosed || obs.event
            == WorkerEvent::Delivered,
    ensures
        s.outputs_held ==> next(s, obs) == (
            WorkerState {
                phase: WorkerPhase::Receiving,
                mailbox_closed: s.mailbox_closed || obs.event == WorkerEvent::MailboxClosed,
                outputs_held: false,
            },
            WorkerAction::RunHeldOutputs,
        ),
        !s.outputs_held ==> ({
            let closed = s.mailbox_closed || obs.event == WorkerEvent::MailboxClosed;
            &&& closed && !obs.tasks_active ==> next(s, obs) == (
                WorkerState { phase: WorkerPhase::Finished, mailbox_closed: closed, outputs_held: false },
                WorkerAction::Finish,
            )
            &&& !(closed && !obs.tasks_active) ==> next(s, obs) == (
                WorkerState { phase: WorkerPhase::Receiving, mailbox_closed: closed, outputs_held: false },
                WorkerAction::Select { tasks: obs.tasks_active || obs.tasks_pending, mailbox: !closed },
            )
        }),
{
}

} // verus!
