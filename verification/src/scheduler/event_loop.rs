//! The decisions of the background loop: which queued tasks to hand out when
//! it wakes, which to discard, how long to wait, and when to end.

use crate::scheduler::clock::{elapsed, read_clock, shorter, Span, Timestamp};
use crate::scheduler::queue::{is_earliest, none_due, PendingQueue, TaskEntry};
use crate::scheduler::Config;
use vstd::multiset::Multiset;
use vstd::prelude::*;

verus! {

/// What a handle tells the loop.
pub enum ControlMessage<J> {
    /// Put the task into the queue.
    AddTask(TaskEntry<J>),
    /// End the loop and discard what is still queued.
    Stop,
}

/// Where the loop stands in its life.
#[derive(Debug, Clone, Copy, PartialEq, Eq, Structural)]
pub enum LoopState {
    /// No task has been queued yet.
    Idle,
    /// Tasks are accepted and handed out.
    Running,
    /// The loop has ended; nothing is accepted or handed out any more.
    Terminated,
}

/// The entries of `pending` that are not yet due at `now`.
pub open spec fn waiting<J>(pending: Multiset<TaskEntry<J>>, now: Timestamp) -> Multiset<
    TaskEntry<J>,
> {
    pending.filter(|entry: TaskEntry<J>| entry.due_time@ > now@)
}

/// The entries of `pending` that are due at `now` and run.
pub open spec fn ready<J>(config: Config, pending: Multiset<TaskEntry<J>>, now: Timestamp) -> Multiset<
    TaskEntry<J>,
> {
    pending.filter(
        |entry: TaskEntry<J>| entry.due_time@ <= now@ && !config.is_stale(now, entry.due_time),
    )
}

/// The entries of `pending` that are due at `now` but too late to run.
pub open spec fn lapsed<J>(config: Config, pending: Multiset<TaskEntry<J>>, now: Timestamp) -> Multiset<
    TaskEntry<J>,
> {
    pending.filter(
        |entry: TaskEntry<J>| entry.due_time@ <= now@ && config.is_stale(now, entry.due_time),
    )
}

/// The entries of `entries` come in order of due time, earliest first.
pub open spec fn in_due_order<J>(entries: Seq<TaskEntry<J>>) -> bool {
    forall|i: int, j: int|
        #![trigger entries[i], entries[j]]
        0 <= i <= j < entries.len() ==> entries[i].due_time@ <= entries[j].due_time@
}

/// `wait` is how long a loop with these options and this queue sleeps at
/// `now`: until the earliest queued task is due, but no longer than the poll
/// interval; the whole poll interval when nothing is queued.
pub open spec fn is_next_wait<J>(
    config: Config,
    pending: Multiset<TaskEntry<J>>,
    now: Timestamp,
    wait: Span,
) -> bool {
    &&& pending.len() == 0 ==> wait == config.max_poll_interval
    &&& forall|entry: TaskEntry<J>| #[trigger]
        is_earliest(pending, entry) ==> wait@ == shorter(
            elapsed(now@, entry.due_time@),
            config.max_poll_interval@,
        )
}

/// Where a loop in `state` stands after `message` has arrived; `None` stands
/// for a control channel that has been closed.
pub open spec fn state_after<J>(state: LoopState, message: Option<ControlMessage<J>>) -> LoopState {
    match (state, message) {
        (LoopState::Terminated, _) => LoopState::Terminated,
        (_, Some(ControlMessage::AddTask(_))) => LoopState::Running,
        (_, Some(ControlMessage::Stop)) => LoopState::Terminated,
        (_, None) => LoopState::Terminated,
    }
}

/// What a loop in `state` has queued after `message` has arrived: a task is
/// added unless the loop has ended, and the end of the loop discards what is
/// queued.
pub open spec fn pending_after<J>(
    state: LoopState,
    pending: Multiset<TaskEntry<J>>,
    message: Option<ControlMessage<J>>,
) -> Multiset<TaskEntry<J>> {
    match (state, message) {
        (LoopState::Terminated, _) => Multiset::empty(),
        (_, Some(ControlMessage::AddTask(entry))) => pending.insert(entry),
        (_, Some(ControlMessage::Stop)) => Multiset::empty(),
        (_, None) => Multiset::empty(),
    }
}

/// What makes the loop go round once more.
pub enum Event<J> {
    /// The wait ended and nothing arrived. The loop also starts with this.
    TimerElapsed,
    /// A control message arrived.
    Message(ControlMessage<J>),
    /// The control channel was closed: every handle is gone.
    ChannelClosed,
}

impl<J> Event<J> {
    /// The message this event brings, with `None` for a closed channel.
    /// For the end of a wait there is nothing to bring.
    pub open spec fn brings(self) -> Option<Option<ControlMessage<J>>> {
        match self {
            Event::TimerElapsed => None,
            Event::Message(message) => Some(Some(message)),
            Event::ChannelClosed => Some(None),
        }
    }
}

/// Where a loop in `state` stands once `event` is taken in.
pub open spec fn state_on<J>(state: LoopState, event: Event<J>) -> LoopState {
    match event.brings() {
        Some(message) => state_after(state, message),
        None => state,
    }
}

/// What a loop in `state` with the queue `pending` has queued once `event`
/// is taken in, before it looks at the queue.
pub open spec fn queued_on<J>(
    state: LoopState,
    pending: Multiset<TaskEntry<J>>,
    event: Event<J>,
) -> Multiset<TaskEntry<J>> {
    match event.brings() {
        Some(message) => pending_after(state, pending, message),
        None => pending,
    }
}

/// What the loop does after it has dealt with an event.
#[derive(Debug, Clone, Copy, PartialEq, Eq, Structural)]
pub enum Directive {
    /// No task has been queued yet: wait for a control message, however
    /// long it takes.
    AwaitMessage,
    /// Wait this long for a control message and go round again when the
    /// time is up or a message has come, whichever is first.
    Wait(Span),
    /// End the loop.
    Exit,
}

/// What one turn of the loop decides.
pub struct Step<J> {
    /// The tasks that left the queue in this turn.
    pub batch: Batch<J>,
    /// What to do next.
    pub next: Directive,
}

/// What one look at the queue hands out.
pub struct Batch<J> {
    /// The tasks to dispatch, in order of due time.
    pub ready: Vec<TaskEntry<J>>,
    /// The tasks discarded for being later than the catch-up limit, in order
    /// of due time.
    pub stale: Vec<TaskEntry<J>>,
}

/// The state that the background loop owns: the options, the pending queue
/// and where the loop stands in its life.
pub struct SchedulerLoop<J> {
    config: Config,
    queue: PendingQueue<J>,
    state: LoopState,
}

impl<J> SchedulerLoop<J> {
    #[verifier::type_invariant]
    spec fn queue_only_while_running(self) -> bool {
        !(self.state is Running) ==> self.queue@.len() == 0
    }

    /// The options the loop was made with.
    pub closed spec fn config(self) -> Config {
        self.config
    }

    /// The queued tasks.
    pub closed spec fn pending(self) -> Multiset<TaskEntry<J>> {
        self.queue@
    }

    /// Where the loop stands.
    pub closed spec fn state(self) -> LoopState {
        self.state
    }

    /// A loop that has not seen a task yet.
    pub fn new(config: Config) -> (event_loop: Self)
        ensures
            event_loop.config() == config,
            event_loop.state() == LoopState::Idle,
            event_loop.pending() == Multiset::<TaskEntry<J>>::empty(),
    {
        SchedulerLoop { config, queue: PendingQueue::new(), state: LoopState::Idle }
    }

    /// Where the loop stands.
    pub fn current_state(&self) -> (state: LoopState)
        ensures
            state == self.state(),
    {
        self.state
    }

    /// The number of queued tasks.
    pub fn pending_count(&self) -> (n: usize)
        ensures
            n == self.pending().len(),
    {
        self.queue.len()
    }

    /// Looks at the queue at `now`: every task that is due leaves the queue,
    /// earliest first, and is either handed out for dispatch or, when it is
    /// later than the catch-up limit, discarded. Tasks that are not yet due
    /// stay queued.
    pub fn poll(&mut self, now: Timestamp) -> (batch: Batch<J>)
        ensures
            final(self).config() == old(self).config(),
            final(self).state() == old(self).state(),
            final(self).pending() == waiting(old(self).pending(), now),
            batch.ready@.to_multiset() == ready(old(self).config(), old(self).pending(), now),
            batch.stale@.to_multiset() == lapsed(old(self).config(), old(self).pending(), now),
            in_due_order(batch.ready@),
            in_due_order(batch.stale@),
    {
        broadcast use vstd::multiset::group_multiset_axioms;

        proof {
            use_type_invariant(&*self);
        }
        let config = self.config;
        let ghost before = self.queue@;
        let mut queue: PendingQueue<J> = PendingQueue::new();
        core::mem::swap(&mut queue, &mut self.queue);
        let mut ready_entries: Vec<TaskEntry<J>> = Vec::new();
        let mut stale_entries: Vec<TaskEntry<J>> = Vec::new();
        proof {
            ready_entries@.to_multiset_ensures();
            stale_entries@.to_multiset_ensures();
            assert(before =~= queue@.add(ready_entries@.to_multiset()).add(
                stale_entries@.to_multiset(),
            ));
        }
        loop
            invariant
                before == queue@.add(ready_entries@.to_multiset()).add(stale_entries@.to_multiset()),
                forall|i: int|
                    0 <= i < ready_entries@.len() ==> {
                        &&& (#[trigger] ready_entries@[i]).due_time@ <= now@
                        &&& !config.is_stale(now, ready_entries@[i].due_time)
                    },
                forall|i: int|
                    0 <= i < stale_entries@.len() ==> {
                        &&& (#[trigger] stale_entries@[i]).due_time@ <= now@
                        &&& config.is_stale(now, stale_entries@[i].due_time)
                    },
                forall|i: int, entry: TaskEntry<J>|
                    0 <= i < ready_entries@.len() && #[trigger] queue@.count(entry) > 0 ==> (
                    #[trigger] ready_entries@[i]).due_time@ <= entry.due_time@,
                forall|i: int, entry: TaskEntry<J>|
                    0 <= i < stale_entries@.len() && #[trigger] queue@.count(entry) > 0 ==> (
                    #[trigger] stale_entries@[i]).due_time@ <= entry.due_time@,
                in_due_order(ready_entries@),
                in_due_order(stale_entries@),
            ensures
                before == queue@.add(ready_entries@.to_multiset()).add(stale_entries@.to_multiset()),
                forall|i: int|
                    0 <= i < ready_entries@.len() ==> {
                        &&& (#[trigger] ready_entries@[i]).due_time@ <= now@
                        &&& !config.is_stale(now, ready_entries@[i].due_time)
                    },
                forall|i: int|
                    0 <= i < stale_entries@.len() ==> {
                        &&& (#[trigger] stale_entries@[i]).due_time@ <= now@
                        &&& config.is_stale(now, stale_entries@[i].due_time)
                    },
                in_due_order(ready_entries@),
                in_due_order(stale_entries@),
                none_due(queue@, now),
            decreases queue@.len(),
        {
            let ghost queued = queue@;
            let ghost ready_before = ready_entries@;
            let ghost stale_before = stale_entries@;
            let due = |entry: &TaskEntry<J>| -> (due: bool)
                ensures
                    due == (entry.due_time@ <= now@),
                { entry.due_time.is_at_or_before(now) };
            match queue.pop_if(due) {
                None => {
                    proof {
                        if queued.len() > 0 {
                            let head = choose|entry: TaskEntry<J>|
                                is_earliest(queued, entry) && #[trigger] call_ensures(
                                    due,
                                    (&entry,),
                                    false,
                                );
                            assert forall|entry: TaskEntry<J>| #[trigger]
                                queued.count(entry) > 0 implies entry.due_time@ > now@ by {
                                assert(head.due_time@ <= entry.due_time@);
                            }
                        } else {
                            assert forall|entry: TaskEntry<J>| #[trigger]
                                queued.count(entry) > 0 implies entry.due_time@ > now@ by {
                                vstd::multiset::axiom_count_le_len(queued, entry);
                            }
                        }
                    }
                    break ;
                },
                Some(entry) => {
                    if config.exceeds_catch_up_limit(now, entry.due_time) {
                        stale_entries.push(entry);
                        proof {
                            stale_before.to_multiset_ensures();
                            assert(stale_entries@.to_multiset() =~= stale_before.to_multiset().insert(
                                entry,
                            ));
                        }
                    } else {
                        ready_entries.push(entry);
                        proof {
                            ready_before.to_multiset_ensures();
                            assert(ready_entries@.to_multiset() =~= ready_before.to_multiset().insert(
                                entry,
                            ));
                        }
                    }
                    proof {
                        assert(before =~= queue@.add(ready_entries@.to_multiset()).add(
                            stale_entries@.to_multiset(),
                        ));
                    }
                },
            }
        }
        proof {
            ready_entries@.to_multiset_ensures();
            stale_entries@.to_multiset_ensures();
            lemma_partition(
                config,
                before,
                now,
                queue@,
                ready_entries@,
                stale_entries@,
            );
        }
        self.queue = queue;
        Batch { ready: ready_entries, stale: stale_entries }
    }

    /// How long to wait at `now` before the next look at the queue: until
    /// the earliest queued task is due, but never longer than the poll
    /// interval, and the whole poll interval when nothing is queued.
    pub fn next_wait(&self, now: Timestamp) -> (wait: Span)
        ensures
            is_next_wait(self.config(), self.pending(), now, wait),
    {
        match self.queue.peek() {
            None => {
                proof {
                    assert forall|entry: TaskEntry<J>| #[trigger]
                        is_earliest(self.queue@, entry) implies false by {
                        vstd::multiset::axiom_count_le_len(self.queue@, entry);
                    }
                }
                self.config.max_poll_interval
            },
            Some(head) => {
                let wait = head.due_time.saturating_since(now).min(self.config.max_poll_interval);
                proof {
                    assert(self.queue@.len() > 0) by {
                        vstd::multiset::axiom_count_le_len(self.queue@, *head);
                    }
                    assert forall|entry: TaskEntry<J>| #[trigger]
                        is_earliest(self.queue@, entry) implies entry.due_time@ == head.due_time@ by {
                        assert(self.queue@.count(*head) > 0);
                        assert(self.queue@.count(entry) > 0);
                    }
                }
                wait
            },
        }
    }

    /// Takes in what came over the control channel: a task is queued and the
    /// loop is running from then on; a stop message, or `None` for a closed
    /// channel, ends the loop and discards what is queued. A loop that has
    /// ended stays as it is, whatever arrives.
    pub fn receive(&mut self, message: Option<ControlMessage<J>>)
        ensures
            final(self).config() == old(self).config(),
            final(self).state() == state_after(old(self).state(), message),
            final(self).pending() == pending_after(old(self).state(), old(self).pending(), message),
    {
        proof {
            use_type_invariant(&*self);
            vstd::multiset::lemma_multiset_empty_len(self.queue@);
        }
        match self.state {
            LoopState::Terminated => {},
            _ => {
                match message {
                    Some(ControlMessage::AddTask(entry)) => {
                        let mut queue: PendingQueue<J> = PendingQueue::new();
                        core::mem::swap(&mut queue, &mut self.queue);
                        queue.push(entry);
                        self.state = LoopState::Running;
                        self.queue = queue;
                    },
                    _ => {
                        self.queue = PendingQueue::new();
                        self.state = LoopState::Terminated;
                    },
                }
            },
        }
    }

    /// One turn of the loop at `now`: takes in the event, hands out what is
    /// due, and says what to do next. A loop that has not yet seen a task
    /// waits for a message; a running loop waits until the earliest queued
    /// task is due, but no longer than the poll interval; a loop that has
    /// ended exits.
    pub fn step_at(&mut self, now: Timestamp, event: Event<J>) -> (step: Step<J>)
        ensures
            is_step(*old(self), now, event, *final(self), step),
    {
        match event {
            Event::TimerElapsed => {},
            Event::Message(message) => self.receive(Some(message)),
            Event::ChannelClosed => self.receive(None),
        }
        let batch = self.poll(now);
        let next = match self.state {
            LoopState::Idle => Directive::AwaitMessage,
            LoopState::Running => Directive::Wait(self.next_wait(now)),
            LoopState::Terminated => Directive::Exit,
        };
        Step { batch, next }
    }

    /// One turn of the loop at the present moment, read from the system
    /// clock: whatever the clock says, the turn is the one `step_at` takes
    /// at that instant.
    pub fn step(&mut self, event: Event<J>) -> (step: Step<J>)
        ensures
            exists|now: Timestamp| is_step(*old(self), now, event, *final(self), step),
    {
        let now = read_clock();
        let step = self.step_at(now, event);
        proof {
            assert(is_step(*old(self), now, event, *self, step));
        }
        step
    }
}

/// `step` is the turn that the loop `before` takes at `now` on `event`, and
/// `after` is the loop it leaves behind.
pub open spec fn is_step<J>(
    before: SchedulerLoop<J>,
    now: Timestamp,
    event: Event<J>,
    after: SchedulerLoop<J>,
    step: Step<J>,
) -> bool {
    let state = state_on(before.state(), event);
    let queued = queued_on(before.state(), before.pending(), event);
    &&& after.config() == before.config()
    &&& after.state() == state
    &&& after.pending() == waiting(queued, now)
    &&& step.batch.ready@.to_multiset() == ready(before.config(), queued, now)
    &&& step.batch.stale@.to_multiset() == lapsed(before.config(), queued, now)
    &&& in_due_order(step.batch.ready@)
    &&& in_due_order(step.batch.stale@)
    &&& match step.next {
        Directive::AwaitMessage => state is Idle,
        Directive::Wait(wait) => state is Running && is_next_wait(
            before.config(),
            after.pending(),
            now,
            wait,
        ),
        Directive::Exit => state is Terminated,
    }
}

/// A queue split into what stays, what runs and what lapses is split the one
/// way the due times and the catch-up limit allow.
proof fn lemma_partition<J>(
    config: Config,
    before: Multiset<TaskEntry<J>>,
    now: Timestamp,
    kept: Multiset<TaskEntry<J>>,
    run: Seq<TaskEntry<J>>,
    dropped: Seq<TaskEntry<J>>,
)
    requires
        before == kept.add(run.to_multiset()).add(dropped.to_multiset()),
        none_due(kept, now),
        forall|i: int|
            0 <= i < run.len() ==> {
                &&& (#[trigger] run[i]).due_time@ <= now@
                &&& !config.is_stale(now, run[i].due_time)
            },
        forall|i: int|
            0 <= i < dropped.len() ==> {
                &&& (#[trigger] dropped[i]).due_time@ <= now@
                &&& config.is_stale(now, dropped[i].due_time)
            },
    ensures
        kept == waiting(before, now),
        run.to_multiset() == ready(config, before, now),
        dropped.to_multiset() == lapsed(config, before, now),
{
    broadcast use vstd::multiset::group_multiset_axioms;

    run.to_multiset_ensures();
    dropped.to_multiset_ensures();
    assert forall|entry: TaskEntry<J>| run.to_multiset().count(entry) > 0 implies entry.due_time@
        <= now@ && !config.is_stale(now, entry.due_time) by {
        assert(run.contains(entry));
        let i = choose|i: int| 0 <= i < run.len() && run[i] == entry;
        assert(run[i].due_time@ <= now@);
    }
    assert forall|entry: TaskEntry<J>| dropped.to_multiset().count(entry) > 0 implies entry.due_time@
        <= now@ && config.is_stale(now, entry.due_time) by {
        assert(dropped.contains(entry));
        let i = choose|i: int| 0 <= i < dropped.len() && dropped[i] == entry;
        assert(dropped[i].due_time@ <= now@);
    }
    assert forall|entry: TaskEntry<J>| kept.count(entry) > 0 implies entry.due_time@ > now@ by {}
    assert(kept =~= waiting(before, now));
    assert(run.to_multiset() =~= ready(config, before, now));
    assert(dropped.to_multiset() =~= lapsed(config, before, now));
}

} // verus!