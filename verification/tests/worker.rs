use sampr::message::EnvelopeKind;
use sampr::worker::{Observation, WorkerAction, WorkerEvent, WorkerPhase, WorkerState};

fn obs(event: WorkerEvent, tasks_active: bool, tasks_pending: bool) -> Observation {
    Observation { event, tasks_active, tasks_pending }
}

/// Feeds the observations to a fresh worker and collects its actions.
fn drive(events: &[Observation]) -> (WorkerState, Vec<WorkerAction>) {
    let mut state = WorkerState::initial();
    let mut actions = Vec::new();
    for o in events {
        let (next, action) = state.step(*o);
        state = next;
        actions.push(action);
    }
    (state, actions)
}

fn count(actions: &[WorkerAction], wanted: WorkerAction) -> usize {
    actions.iter().filter(|a| **a == wanted).count()
}

fn stopped_calls(actions: &[WorkerAction]) -> usize {
    count(actions, WorkerAction::ReturnActor) + count(actions, WorkerAction::Finish)
}

#[test]
fn test_actor_start_stop() {
    let (state, actions) = drive(&[
        obs(WorkerEvent::Resumed, false, false),
        obs(WorkerEvent::Resumed, false, false),
        obs(WorkerEvent::Envelope(EnvelopeKind::Stop), false, false),
    ]);
    assert_eq!(
        actions,
        vec![
            WorkerAction::CallStarted,
            WorkerAction::Select { tasks: false, mailbox: true },
            WorkerAction::ReturnActor,
        ]
    );
    assert_eq!(count(&actions, WorkerAction::CallStarted), 1);
    assert_eq!(stopped_calls(&actions), 1);
    assert_eq!(state.phase, WorkerPhase::Finished);
}

#[test]
fn test_actor_send_after_stop() {
    // a message first, then a stop; afterwards the worker never reads the mailbox again
    let (state, actions) = drive(&[
        obs(WorkerEvent::Resumed, false, false),
        obs(WorkerEvent::Resumed, false, false),
        obs(WorkerEvent::Envelope(EnvelopeKind::Message), false, false),
        obs(WorkerEvent::Resumed, false, false),
        obs(WorkerEvent::Delivered, false, false),
        obs(WorkerEvent::Resumed, false, false),
        obs(WorkerEvent::Envelope(EnvelopeKind::Stop), false, false),
        obs(WorkerEvent::Resumed, false, false),
        obs(WorkerEvent::Envelope(EnvelopeKind::Message), false, false),
    ]);
    assert_eq!(actions[2], WorkerAction::StartDelivery);
    assert_eq!(actions[3], WorkerAction::ContinueDelivery { tasks: false });
    assert_eq!(actions[4], WorkerAction::RunHeldOutputs);
    assert_eq!(actions[5], WorkerAction::Select { tasks: false, mailbox: true });
    assert_eq!(actions[6], WorkerAction::ReturnActor);
    assert_eq!(actions[7], WorkerAction::Halt);
    assert_eq!(actions[8], WorkerAction::Halt);
    assert_eq!(count(&actions, WorkerAction::CallStarted), 1);
    assert_eq!(stopped_calls(&actions), 1);
    assert_eq!(state.phase, WorkerPhase::Finished);
}

#[test]
fn worker_finishes_when_mailbox_closed_and_no_tasks() {
    let (state, actions) = drive(&[
        obs(WorkerEvent::Resumed, false, false),
        obs(WorkerEvent::Resumed, false, false),
        obs(WorkerEvent::MailboxClosed, false, false),
        obs(WorkerEvent::Resumed, false, false),
    ]);
    assert_eq!(actions[2], WorkerAction::Finish);
    assert_eq!(actions[3], WorkerAction::Halt);
    assert!(state.mailbox_closed);
    assert_eq!(stopped_calls(&actions), 1);
}

#[test]
fn worker_keeps_polling_tasks_after_mailbox_closed() {
    let (state, actions) = drive(&[
        obs(WorkerEvent::Resumed, false, true),
        obs(WorkerEvent::Resumed, false, true),
        obs(WorkerEvent::MailboxClosed, true, false),
        obs(WorkerEvent::TaskOutput, true, false),
        obs(WorkerEvent::Resumed, true, false),
        obs(WorkerEvent::TaskOutput, false, false),
        obs(WorkerEvent::Resumed, false, false),
    ]);
    assert_eq!(actions[1], WorkerAction::Select { tasks: true, mailbox: true });
    assert_eq!(actions[2], WorkerAction::Select { tasks: true, mailbox: false });
    assert_eq!(actions[3], WorkerAction::RunTaskOutput);
    assert_eq!(actions[4], WorkerAction::Select { tasks: true, mailbox: false });
    assert_eq!(actions[5], WorkerAction::RunTaskOutput);
    assert_eq!(actions[6], WorkerAction::Finish);
    assert_eq!(state.phase, WorkerPhase::Finished);
}

#[test]
fn worker_delivers_one_message_at_a_time() {
    let (state, actions) = drive(&[
        obs(WorkerEvent::Resumed, false, false),
        obs(WorkerEvent::Resumed, true, false),
        obs(WorkerEvent::Envelope(EnvelopeKind::Message), true, false),
        obs(WorkerEvent::Resumed, true, false),
        obs(WorkerEvent::TaskOutput, true, false),
        obs(WorkerEvent::Resumed, true, false),
        obs(WorkerEvent::TaskOutput, true, false),
        obs(WorkerEvent::Resumed, true, false),
        obs(WorkerEvent::TasksExhausted, false, false),
        obs(WorkerEvent::Resumed, false, false),
        // an envelope cannot arrive while delivering: it is taken as a resumption
        obs(WorkerEvent::Envelope(EnvelopeKind::Stop), false, false),
        obs(WorkerEvent::Delivered, false, false),
        obs(WorkerEvent::Resumed, false, false),
    ]);
    assert_eq!(actions[2], WorkerAction::StartDelivery);
    assert_eq!(actions[3], WorkerAction::ContinueDelivery { tasks: true });
    assert_eq!(actions[4], WorkerAction::HoldTaskOutput);
    assert_eq!(actions[5], WorkerAction::ContinueDelivery { tasks: true });
    assert_eq!(actions[6], WorkerAction::HoldTaskOutput);
    assert_eq!(actions[7], WorkerAction::ContinueDelivery { tasks: true });
    assert_eq!(actions[8], WorkerAction::ReportTasksExhausted { delivering: true });
    assert_eq!(actions[9], WorkerAction::ContinueDelivery { tasks: false });
    assert_eq!(actions[10], WorkerAction::ContinueDelivery { tasks: false });
    // what was held back runs first, then the mailbox is read again
    assert_eq!(actions[11], WorkerAction::RunHeldOutputs);
    assert_eq!(actions[12], WorkerAction::Select { tasks: false, mailbox: true });
    assert_eq!(count(&actions, WorkerAction::StartDelivery), 1);
    assert_eq!(state.phase, WorkerPhase::Receiving);
    assert!(!state.outputs_held);
}

#[test]
fn worker_finishes_after_delivery_without_held_outputs() {
    let (state, actions) = drive(&[
        obs(WorkerEvent::Resumed, false, false),
        obs(WorkerEvent::Resumed, false, false),
        obs(WorkerEvent::MailboxClosed, true, false),
        obs(WorkerEvent::TaskOutput, true, false),
        obs(WorkerEvent::Resumed, false, false),
    ]);
    assert_eq!(actions[2], WorkerAction::Select { tasks: true, mailbox: false });
    assert_eq!(actions[3], WorkerAction::RunTaskOutput);
    assert_eq!(actions[4], WorkerAction::Finish);
    assert_eq!(state.phase, WorkerPhase::Finished);
}

#[test]
fn worker_halts_only_after_stopped() {
    let (_, actions) = drive(&[
        obs(WorkerEvent::Resumed, false, false),
        obs(WorkerEvent::Resumed, false, false),
        obs(WorkerEvent::MailboxClosed, false, false),
        obs(WorkerEvent::Resumed, false, false),
        obs(WorkerEvent::TaskOutput, false, false),
    ]);
    let first_halt = actions.iter().position(|a| *a == WorkerAction::Halt).unwrap();
    assert!(actions[..first_halt]
        .iter()
        .any(|a| *a == WorkerAction::Finish || *a == WorkerAction::ReturnActor));
}

#[test]
fn worker_reports_exhausted_tasks_while_receiving() {
    let state = WorkerState { phase: WorkerPhase::Receiving, mailbox_closed: false, outputs_held: false };
    let (next, action) = state.step(obs(WorkerEvent::TasksExhausted, false, false));
    assert_eq!(action, WorkerAction::ReportTasksExhausted { delivering: false });
    assert_eq!(next, state);
}

#[test]
fn select_always_has_a_source() {
    for closed in [false, true] {
        for active in [false, true] {
            for pending in [false, true] {
                let state = WorkerState {
                    phase: WorkerPhase::Receiving,
                    mailbox_closed: closed,
                    outputs_held: false,
                };
                let (_, action) = state.step(obs(WorkerEvent::Resumed, active, pending));
                if let WorkerAction::Select { tasks, mailbox } = action {
                    assert!(tasks || mailbox);
                    assert_eq!(mailbox, !closed);
                } else {
                    assert_eq!(action, WorkerAction::Finish);
                    assert!(closed && !active);
                }
            }
        }
    }
}

#[test]
fn spawned_task_does_not_block_messages() {
    // with a spawned task running, the mailbox is read as well
    let (_, actions) = drive(&[
        obs(WorkerEvent::Resumed, false, false),
        obs(WorkerEvent::Resumed, false, true),
        obs(WorkerEvent::Envelope(EnvelopeKind::Message), true, false),
        obs(WorkerEvent::Resumed, true, false),
        obs(WorkerEvent::Delivered, true, false),
        obs(WorkerEvent::Resumed, true, false),
    ]);
    assert_eq!(actions[1], WorkerAction::Select { tasks: true, mailbox: true });
    assert_eq!(actions[2], WorkerAction::StartDelivery);
    assert_eq!(actions[3], WorkerAction::ContinueDelivery { tasks: true });
    assert_eq!(actions[4], WorkerAction::RunHeldOutputs);
    assert_eq!(actions[5], WorkerAction::Select { tasks: true, mailbox: true });
}

#[test]
fn task_spawned_by_a_handler_is_polled_after_delivery() {
    // the handler spawns a future (or adds a stream) while no other task runs;
    // the context cannot be seen until the delivery ends
    let (_, actions) = drive(&[
        obs(WorkerEvent::Resumed, false, false),
        obs(WorkerEvent::Resumed, false, false),
        obs(WorkerEvent::Envelope(EnvelopeKind::Message), false, false),
        obs(WorkerEvent::Resumed, false, false),
        obs(WorkerEvent::Delivered, false, false),
        // fresh observation: the new task waits in the context
        obs(WorkerEvent::Resumed, false, true),
        obs(WorkerEvent::TaskOutput, true, false),
        obs(WorkerEvent::Resumed, true, false),
    ]);
    assert_eq!(actions[4], WorkerAction::RunHeldOutputs);
    assert_eq!(actions[5], WorkerAction::Select { tasks: true, mailbox: true });
    assert_eq!(actions[6], WorkerAction::RunTaskOutput);
    assert_eq!(actions[7], WorkerAction::Select { tasks: true, mailbox: true });
}
