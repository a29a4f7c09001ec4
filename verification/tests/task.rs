use sampr::task::{OneShotTask, StreamRelay, TaskPoll, TaskQueue};

#[test]
fn test_actor_stream() {
    let mut relay = StreamRelay::new();
    let mut handed: Vec<TaskPoll<Option<u8>>> = Vec::new();
    for polled in [
        TaskPoll::Yield(1u8),
        TaskPoll::Pending,
        TaskPoll::Yield(2),
        TaskPoll::Yield(3),
        TaskPoll::Yield(4),
        TaskPoll::Finished,
    ] {
        handed.push(relay.relay(polled));
    }
    let stream_count = handed
        .iter()
        .filter(|p| matches!(p, TaskPoll::Yield(Some(_))))
        .count();
    assert_eq!(stream_count, 4);
    assert_eq!(handed[5], TaskPoll::Yield(None));
    assert!(relay.is_ended());
    // the stream is not polled again: whatever is passed, the task is finished
    assert_eq!(relay.relay(TaskPoll::Yield(9u8)), TaskPoll::Finished);
}

#[test]
fn stream_items_keep_their_order() {
    let mut relay = StreamRelay::new();
    assert!(!relay.is_ended());
    assert_eq!(relay.relay(TaskPoll::Yield("I")), TaskPoll::Yield(Some("I")));
    assert_eq!(relay.relay(TaskPoll::Yield("have")), TaskPoll::Yield(Some("have")));
    assert_eq!(relay.relay(TaskPoll::<&str>::Pending), TaskPoll::Pending);
    assert_eq!(relay.relay(TaskPoll::<&str>::Finished), TaskPoll::Yield(None));
    assert_eq!(relay.relay(TaskPoll::<&str>::Finished), TaskPoll::Finished);
}

#[test]
fn test_actor_spawn() {
    let mut task = OneShotTask::new(10u32);
    assert!(task.is_waiting());
    for _ in 0..10 {
        assert_eq!(task.poll(None::<usize>), TaskPoll::Pending);
    }
    assert!(task.is_waiting());
    assert_eq!(task.poll(Some(0usize)), TaskPoll::Yield((0, 10)));
    assert!(!task.is_waiting());
    assert_eq!(task.poll(Some(1usize)), TaskPoll::Finished);
    assert_eq!(task.poll(None::<usize>), TaskPoll::Finished);
}

#[test]
fn queue_hands_over_in_order() {
    let mut q = TaskQueue::new();
    assert!(q.is_empty());
    q.push(1);
    q.push(2);
    q.push(3);
    assert!(!q.is_empty());
    assert_eq!(q.take_all(), vec![1, 2, 3]);
    assert!(q.is_empty());
    assert_eq!(q.take_all(), Vec::<i32>::new());
    q.push(4);
    assert_eq!(q.take_all(), vec![4]);
}
