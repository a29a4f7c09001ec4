use vstd::prelude::*;

verus! {

/// The tasks spawned into an actor's context since the worker last collected
/// them, in the order they were spawned.
pub struct TaskQueue<T> {
    tasks: Vec<T>,
}

impl<T> View for TaskQueue<T> {
    type V = Seq<T>;

    closed spec fn view(&self) -> Seq<T> {
        self.tasks@
    }
}

impl<T> TaskQueue<T> {
    /// An empty queue.
    pub fn new() -> (q: TaskQueue<T>)
        ensures
            q@ == Seq::<T>::empty(),
    {
        TaskQueue { tasks: Vec::new() }
    }

    /// Adds a task behind those already queued.
    pub fn push(&mut self, task: T)
        ensures
            final(self)@ == old(self)@.push(task),
    {
        self.tasks.push(task);
    }

    /// No task is waiting to be collected.
    pub fn is_empty(&self) -> (r: bool)
        ensures
            r == (self@.len() == 0),
    {
        self.tasks.len() == 0
    }

    /// Hands over every queued task, in the order they were pushed, and
    /// leaves the queue empty.
    pub fn take_all(&mut self) -> (tasks: Vec<T>)
        ensures
            tasks@ == old(self)@,
            final(self)@ == Seq::<T>::empty(),
    {
        let mut tasks: Vec<T> = Vec::new();
        std::mem::swap(&mut tasks, &mut self.tasks);
        tasks
    }
}

/// One poll of a task, or of what a task watches: nothing yet, an item, or
/// nothing ever again.
#[derive(Debug, PartialEq, Eq, Structural)]
pub enum TaskPoll<T> {
    Pending,
    Yield(T),
    Finished,
}

/// A future spawned into an actor's context, with the callback to run on its
/// result: it produces one output, the result with the callback, and is
/// finished from then on.
pub struct OneShotTask<C> {
    callback: Option<C>,
}

impl<C> View for OneShotTask<C> {
    type V = Option<C>;

    /// The callback not yet handed out; `None` once the task has produced its output.
    closed spec fn view(&self) -> Option<C> {
        self.callback
    }
}

/// One poll of a spawned task, given the callback it still holds and what
/// polling its future gave; the callback left afterwards comes first.
pub open spec fn oneshot_next<C, O>(callback: Option<C>, ready: Option<O>) -> (Option<C>, TaskPoll<(O, C)>) {
    match callback {
        None => (None, TaskPoll::Finished),
        Some(c) => match ready {
            None => (Some(c), TaskPoll::Pending),
            Some(result) => (None, TaskPoll::Yield((result, c))),
        },
    }
}

/// What a spawned task produces over successive polls.
pub open spec fn oneshot_run<C, O>(callback: Option<C>, readies: Seq<Option<O>>) -> Seq<
    TaskPoll<(O, C)>,
>
    decreases readies.len(),
{
    if readies.len() == 0 {
        Seq::empty()
    } else {
        let (c2, out) = oneshot_next(callback, readies[0]);
        seq![out] + oneshot_run(c2, readies.drop_first())
    }
}

impl<C> OneShotTask<C> {
    /// A task waiting for its future, holding `callback`.
    pub fn new(callback: C) -> (t: OneShotTask<C>)
        ensures
            t@ == Some(callback),
    {
        OneShotTask { callback: Some(callback) }
    }

    /// The task still waits for its future; otherwise the future must not be
    /// polled again.
    pub fn is_waiting(&self) -> (r: bool)
        ensures
            r == (self@ is Some),
    {
        self.callback.is_some()
    }

    /// One poll of the task, given what polling its future gave (`None` while
    /// the future is pending): finished once the output was produced, pending
    /// while the future is, and otherwise the output, the future's result with
    /// the callback.
    pub fn poll<O>(&mut self, ready: Option<O>) -> (out: TaskPoll<(O, C)>)
        ensures
            (final(self)@, out) == oneshot_next(old(self)@, ready),
    {
        if self.callback.is_none() {
            return TaskPoll::Finished;
        }
        match ready {
            None => TaskPoll::Pending,
            Some(result) => {
                let callback = self.callback.take();
                match callback {
                    Some(c) => TaskPoll::Yield((result, c)),
                    None => TaskPoll::Finished,
                }
            },
        }
    }
}

/// A stream added to an actor's context: every item it produces is handed on
/// as `Some(item)`, its end as a final `None`, after which the task is
/// finished and the stream is not polled again.
pub struct StreamRelay {
    ended: bool,
}

/// One poll of a stream task, given the state of the relay (`ended`) and what
/// polling the stream gave; the new state comes first.
pub open spec fn relay_next<T>(ended: bool, polled: TaskPoll<T>) -> (bool, TaskPoll<Option<T>>) {
    if ended {
        (true, TaskPoll::Finished)
    } else {
        match polled {
            TaskPoll::Pending => (false, TaskPoll::Pending),
            TaskPoll::Yield(item) => (false, TaskPoll::Yield(Some(item))),
            TaskPoll::Finished => (true, TaskPoll::Yield(None)),
        }
    }
}

/// What a stream task produces over successive polls.
pub open spec fn relay_run<T>(ended: bool, polls: Seq<TaskPoll<T>>) -> Seq<TaskPoll<Option<T>>>
    decreases polls.len(),
{
    if polls.len() == 0 {
        Seq::empty()
    } else {
        let (e2, out) = relay_next(ended, polls[0]);
        seq![out] + relay_run(e2, polls.drop_first())
    }
}

/// What a stream does that produces `items` and then ends.
pub open spec fn stream_of<T>(items: Seq<T>) -> Seq<TaskPoll<T>> {
    items.map_values(|x: T| TaskPoll::Yield(x)).push(TaskPoll::Finished)
}

/// What the actor receives from such a stream.
pub open spec fn handed_on<T>(items: Seq<T>) -> Seq<TaskPoll<Option<T>>> {
    items.map_values(|x: T| TaskPoll::Yield(Some(x))).push(TaskPoll::Yield(None))
}

impl View for StreamRelay {
    type V = bool;

    /// The stream has ended and was handed on as such.
    closed spec fn view(&self) -> bool {
        self.ended
    }
}

impl StreamRelay {
    /// A relay for a stream that has not ended.
    pub fn new() -> (r: StreamRelay)
        ensures
            !r@,
    {
        StreamRelay { ended: false }
    }

    /// The stream's end was handed on; the stream must not be polled again.
    pub fn is_ended(&self) -> (r: bool)
        ensures
            r == self@,
    {
        self.ended
    }

    /// One poll of the stream task, given what polling the stream gave (any
    /// value once the relay has ended, since the stream is then not polled).
    pub fn relay<T>(&mut self, polled: TaskPoll<T>) -> (out: TaskPoll<Option<T>>)
        ensures
            (final(self)@, out) == relay_next(old(self)@, polled),
    {
        if self.ended {
            return TaskPoll::Finished;
        }
        match polled {
            TaskPoll::Pending => TaskPoll::Pending,
            TaskPoll::Yield(item) => TaskPoll::Yield(Some(item)),
            TaskPoll::Finished => {
                self.ended = true;
                TaskPoll::Yield(None)
            },
        }
    }
}

proof fn lemma_ended_relay_is_finished<T>(polls: Seq<TaskPoll<T>>)
    ensures
        relay_run(true, polls).len() == polls.len(),
        forall|i: int|
            0 <= i < polls.len() ==> #[trigger] relay_run(true, polls)[i] == TaskPoll::<
                Option<T>,
            >::Finished,
    decreases polls.len(),
{
    if polls.len() > 0 {
        let rest = polls.drop_first();
        lemma_ended_relay_is_finished(rest);
        assert forall|i: int| 0 <= i < polls.len() implies #[trigger] relay_run(true, polls)[i]
            == TaskPoll::<Option<T>>::Finished by {
            if i > 0 {
                assert(relay_run(true, polls)[i] == relay_run(true, rest)[i - 1]);
            }
        }
    }
}

proof fn lemma_relay_concat<T>(items: Seq<T>, later: Seq<TaskPoll<T>>)
    ensures
        relay_run(false, stream_of(items) + later) == handed_on(items) + relay_run(true, later),
    decreases items.len(),
{
    if items.len() == 0 {
        assert(stream_of(items) =~= seq![TaskPoll::<T>::Finished]);
        assert(handed_on(items) =~= seq![TaskPoll::<Option<T>>::Yield(None)]);
        let whole = stream_of(items) + later;
        assert(whole[0] == TaskPoll::<T>::Finished);
        assert(whole.drop_first() =~= later);
        assert(stream_of(items).drop_first() =~= Seq::<TaskPoll<T>>::empty());
    } else {
        let rest = items.drop_first();
        lemma_relay_concat(rest, later);
        assert(stream_of(items)[0] == TaskPoll::Yield(items[0]));
        assert(stream_of(items).drop_first() =~= stream_of(rest));
        assert(handed_on(items) =~= seq![TaskPoll::Yield(Some(items[0]))] + handed_on(rest));
        let whole = stream_of(items) + later;
        assert(whole[0] == TaskPoll::Yield(items[0]));
        assert(whole.drop_first() =~= stream_of(rest) + later);
        assert(seq![TaskPoll::Yield(Some(items[0]))] + (handed_on(rest) + relay_run(true, later))
            =~= handed_on(items) + relay_run(true, later));
    }
}

/// A stream that produces `items` and ends reaches the actor as `Some` of each
/// item, in order, then one `None`; from then on the task is finished, whatever
/// is asked of it.
pub proof fn lemma_stream_handed_on<T>(items: Seq<T>, later: Seq<TaskPoll<T>>)
    ensures
        relay_run(false, stream_of(items)) == handed_on(items),
        relay_run(false, stream_of(items) + later) == handed_on(items) + relay_run(true, later),
        forall|i: int|
            0 <= i < later.len() ==> #[trigger] relay_run(true, later)[i] == TaskPoll::<
                Option<T>,
            >::Finished,
{
    lemma_ended_relay_is_finished(later);
    lemma_relay_concat(items, later);
    lemma_relay_concat(items, Seq::empty());
    assert(stream_of(items) + Seq::<TaskPoll<T>>::empty() =~= stream_of(items));
    assert(relay_run(true, Seq::<TaskPoll<T>>::empty()) =~= Seq::<TaskPoll<Option<T>>>::empty());
    assert(handed_on(items) + Seq::<TaskPoll<Option<T>>>::empty() =~= handed_on(items));
}

proof fn lemma_spent_task_is_finished<C, O>(readies: Seq<Option<O>>)
    ensures
        oneshot_run(None::<C>, readies) =~= Seq::new(
            readies.len(),
            |i: int| TaskPoll::<(O, C)>::Finished,
        ),
    decreases readies.len(),
{
    if readies.len() > 0 {
        lemma_spent_task_is_finished::<C, O>(readies.drop_first());
    }
}

/// A spawned future whose result `r` arrives after `k` pending polls makes
/// its task pending `k` times, then produce `r` with the callback, once, and
/// be finished from then on, whatever is asked of it.
pub proof fn lemma_callback_runs_once<C, O>(callback: C, k: nat, r: O, later: Seq<Option<O>>)
    ensures
        oneshot_run(
            Some(callback),
            Seq::new(k, |i: int| None::<O>) + seq![Some(r)] + later,
        ) =~= Seq::new(k, |i: int| TaskPoll::<(O, C)>::Pending) + seq![
            TaskPoll::Yield((r, callback)),
        ] + Seq::new(later.len(), |i: int| TaskPoll::<(O, C)>::Finished),
    decreases k,
{
    let readies = Seq::new(k, |i: int| None::<O>) + seq![Some(r)] + later;
    if k == 0 {
        assert(readies[0] == Some(r));
        assert(readies.drop_first() =~= later);
        lemma_spent_task_is_finished::<C, O>(later);
    } else {
        let k1 = (k - 1) as nat;
        lemma_callback_runs_once(callback, k1, r, later);
        assert(readies[0] == None::<O>);
        assert(readies.drop_first() =~= Seq::new(k1, |i: int| None::<O>) + seq![Some(r)] + later);
    }
}

/// One poll of a stream task: once the end was handed on, the task is finished
/// and stays so; before that, a pending stream leaves it pending, an item is
/// handed on as `Some(item)`, and the stream's end is handed on as `None`,
/// after which the relay has ended.
pub proof fn lemma_relay_step<T>(ended: bool, polled: TaskPoll<T>)
    ensures
        ended ==> relay_next(ended, polled) == (true, TaskPoll::<Option<T>>::Finished),
        !ended && polled == TaskPoll::<T>::Pending ==> relay_next(ended, polled) == (
            false,
            TaskPoll::<Option<T>>::Pending,
        ),
        !ended && polled is Yield ==> relay_next(ended, polled) == (
            false,
            TaskPoll::Yield(Some(polled->Yield_0)),
        ),
        !ended && polled == TaskPoll::<T>::Finished ==> relay_next(ended, polled) == (
            true,
            TaskPoll::<Option<T>>::Yield(None),
        ),
{
}

/// One poll of a spawned task: once its output was produced it is finished
/// and stays so; before that it stays pending, holding its callback, while
/// the future is, and hands out the future's result with the callback, once,
/// when the future is ready.
pub proof fn lemma_oneshot_step<C, O>(callback: Option<C>, ready: Option<O>)
    ensures
        callback is None ==> oneshot_next(callback, ready) == (
            None::<C>,
            TaskPoll::<(O, C)>::Finished,
        ),
        callback is Some && ready is None ==> oneshot_next(callback, ready) == (
            callback,
            TaskPoll::<(O, C)>::Pending,
        ),
        callback is Some && ready is Some ==> oneshot_next(callback, ready) == (
            None::<C>,
            TaskPoll::Yield((ready->0, callback->0)),
        ),
{
}

} // verus!
