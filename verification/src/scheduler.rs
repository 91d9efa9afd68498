//! A deferred task scheduler: work is submitted together with an absolute
//! point in time and handed out for execution at or after that time.

pub mod channel;
pub mod clock;
pub mod error;
pub mod event_loop;
pub mod history;
pub mod laws;
pub mod queue;

use crate::scheduler::channel::{current_runtime, open_channel, send_message, spawn_on};
use crate::scheduler::clock::{elapsed, read_clock, Span, Timestamp};
use crate::scheduler::error::ScheduleError;
use crate::scheduler::event_loop::ControlMessage;
use crate::scheduler::queue::TaskEntry;
use std::future::Future;
use tokio::runtime::Handle;
use tokio::sync::mpsc::{UnboundedReceiver, UnboundedSender};
use vstd::prelude::*;

verus! {

/// The options of a scheduler.
#[derive(Debug, Clone, Copy)]
pub struct Config {
    /// Upper bound on how long the loop waits before it looks at the queue
    /// again; bounds the delay after a long gap without queued work.
    pub max_poll_interval: Span,
    /// If set, a task that is later than this when its turn comes is
    /// discarded instead of run. If unset, every overdue task runs.
    pub catch_up_limit: Option<Span>,
    /// If true, a task submitted with a due time that has already passed is
    /// dispatched at submission, without going through the queue.
    pub prioritize_overdue: bool,
}

impl Default for Config {
    /// Polls at least once a minute, runs every overdue task, and dispatches
    /// tasks that are already due at submission.
    fn default() -> (config: Self)
        ensures
            config.max_poll_interval@ == 60 * 1_000_000_000,
            config.catch_up_limit is None,
            config.prioritize_overdue,
    {
        Config {
            max_poll_interval: Span::from_secs(60),
            catch_up_limit: None,
            prioritize_overdue: true,
        }
    }
}

impl Config {
    /// By how much a task due at `due_time` is late at `now`.
    pub open spec fn lateness(now: Timestamp, due_time: Timestamp) -> nat {
        elapsed(due_time@, now@)
    }

    /// A task due at `due_time` whose turn comes at `now` is too late to run.
    pub open spec fn is_stale(self, now: Timestamp, due_time: Timestamp) -> bool {
        self.catch_up_limit matches Some(limit) && Self::lateness(now, due_time) > limit@
    }

    /// A task submitted at `now` for `due_time` is dispatched at once.
    pub open spec fn bypasses_queue(self, now: Timestamp, due_time: Timestamp) -> bool {
        self.prioritize_overdue && due_time@ <= now@
    }

    /// Decides whether a task due at `due_time`, taken from the queue at
    /// `now`, is discarded for being later than the catch-up limit.
    pub fn exceeds_catch_up_limit(&self, now: Timestamp, due_time: Timestamp) -> (stale: bool)
        ensures
            stale == self.is_stale(now, due_time),
    {
        match self.catch_up_limit {
            Some(limit) => now.saturating_since(due_time).nanos > limit.nanos,
            None => false,
        }
    }

    /// Decides where `job`, submitted at `now` for `due_time`, goes: past
    /// the queue if overdue tasks are prioritized and the due time has come,
    /// and otherwise to the background loop as a task to add.
    pub fn route<J>(&self, now: Timestamp, due_time: Timestamp, job: J) -> (route: Route<J>)
        ensures
            self.bypasses_queue(now, due_time) ==> route == Route::Immediate(job),
            !self.bypasses_queue(now, due_time) ==> route == Route::ToLoop(
                ControlMessage::AddTask(TaskEntry { due_time, job }),
            ),
    {
        if self.dispatches_at_submission(now, due_time) {
            Route::Immediate(job)
        } else {
            Route::ToLoop(ControlMessage::AddTask(TaskEntry { due_time, job }))
        }
    }

    /// Decides whether a task submitted at `now` for `due_time` is
    /// dispatched at once instead of queued.
    pub fn dispatches_at_submission(&self, now: Timestamp, due_time: Timestamp) -> (immediate: bool)
        ensures
            immediate == self.bypasses_queue(now, due_time),
    {
        self.prioritize_overdue && due_time.is_at_or_before(now)
    }
}

/// Where a submitted task goes.
pub enum Route<J> {
    /// Past the queue: the job is to be dispatched at once.
    Immediate(J),
    /// To the background loop, as this message.
    ToLoop(ControlMessage<J>),
}

/// What became of a task that was submitted.
pub enum Submission<J> {
    /// The task was already due: it did not go through the queue, and the
    /// job is handed back to be dispatched at once.
    Immediate(J),
    /// The task is on its way to the background loop.
    Queued,
}

/// The front end of a scheduler: submits tasks to the background loop and
/// asks it to stop.
///
/// When the last handle is dropped the control channel closes, which ends
/// the loop just as a stop message does.
#[verifier::reject_recursive_types(J)]
pub struct Scheduler<J> {
    config: Config,
    sender: UnboundedSender<ControlMessage<J>>,
}

/// What a submission comes to once the control channel has said whether it
/// took the message: a message that was taken is queued; one that was refused
/// means that no loop is there to run the task.
pub fn submission_outcome<J>(sent: Result<(), ControlMessage<J>>) -> (outcome: Result<
    Submission<J>,
    ScheduleError,
>)
    ensures
        sent is Ok ==> outcome == Ok::<Submission<J>, ScheduleError>(Submission::Queued),
        sent is Err ==> outcome == Err::<Submission<J>, ScheduleError>(
            ScheduleError::TaskRunnerUnavailable,
        ),
{
    match sent {
        Ok(()) => Ok(Submission::Queued),
        Err(_) => Err(ScheduleError::TaskRunnerUnavailable),
    }
}

/// Starts `job` as a task of its own on `runtime`, if there is one: with a
/// runtime the job is handed to it and nobody waits for the job; without
/// one nothing is started and the job comes back.
pub fn start_on<J: Future<Output = ()> + Send + 'static>(runtime: Option<Handle>, job: J) -> (started:
    Result<(), J>)
    ensures
        runtime is Some ==> started == Ok::<(), J>(()),
        runtime is None ==> started == Err::<(), J>(job),
{
    match runtime {
        Some(runtime) => {
            spawn_on(&runtime, job);
            Ok(())
        },
        None => Err(job),
    }
}

/// Starts `job` on the runtime that the caller is in, as a task of its own
/// that nobody waits for. Whether the caller is in a runtime is for the
/// runtime to say; whatever it says, a job that was not started comes back
/// as it was handed in.
pub fn dispatch<J: Future<Output = ()> + Send + 'static>(job: J) -> (started: Result<(), J>)
    ensures
        started matches Err(returned) ==> returned == job,
{
    start_on(current_runtime(), job)
}

/// What a submission past the queue comes to once it is known whether the
/// job was started: a job that was started is submitted; one that came back
/// means that nothing is there to run it.
pub fn dispatch_outcome<J>(started: Result<(), J>) -> (outcome: Result<(), ScheduleError>)
    ensures
        started is Ok ==> outcome == Ok::<(), ScheduleError>(()),
        started is Err ==> outcome == Err::<(), ScheduleError>(
            ScheduleError::TaskRunnerUnavailable,
        ),
{
    match started {
        Ok(()) => Ok(()),
        Err(_) => Err(ScheduleError::TaskRunnerUnavailable),
    }
}

impl<J> Scheduler<J> {
    /// The options the handle was made with.
    pub closed spec fn config(self) -> Config {
        self.config
    }

    /// The options the handle was made with.
    pub fn options(&self) -> (config: Config)
        ensures
            config == self.config(),
    {
        self.config
    }

    /// A handle with the options `config`, and the receiving end of its
    /// control channel, which goes to the background loop.
    pub fn new(config: Config) -> (made: (Scheduler<J>, UnboundedReceiver<ControlMessage<J>>))
        ensures
            made.0.config() == config,
    {
        let (sender, receiver) = open_channel();
        (Scheduler { config, sender }, receiver)
    }

    /// Submits `job` for `due_time`, at the instant `now`.
    ///
    /// With `prioritize_overdue` set, a job whose due time has come is
    /// handed back for dispatch at once and nothing is sent. Every other
    /// job is sent to the background loop; the submission fails if and only
    /// if the control channel refuses the message.
    pub fn schedule_at(&mut self, now: Timestamp, due_time: Timestamp, job: J) -> (outcome: Result<
        Submission<J>,
        ScheduleError,
    >)
        ensures
            final(self).config() == old(self).config(),
            old(self).config().bypasses_queue(now, due_time) ==> outcome == Ok::<
                Submission<J>,
                ScheduleError,
            >(Submission::Immediate(job)),
            !old(self).config().bypasses_queue(now, due_time) ==> {
                ||| outcome == Ok::<Submission<J>, ScheduleError>(Submission::Queued)
                ||| outcome == Err::<Submission<J>, ScheduleError>(
                    ScheduleError::TaskRunnerUnavailable,
                )
            },
    {
        match self.config.route(now, due_time, job) {
            Route::Immediate(job) => Ok(Submission::Immediate(job)),
            Route::ToLoop(message) => submission_outcome(send_message(&self.sender, message)),
        }
    }

    /// Asks the background loop to stop. It does not matter whether the loop
    /// is still there: a stop that nobody receives is no error.
    pub fn stop(&self) {
        let _ = send_message(&self.sender, ControlMessage::Stop);
    }
}

impl<J: Future<Output = ()> + Send + 'static> Scheduler<J> {
    /// Submits `job` to run at or after `due_time`.
    ///
    /// Reads the clock and submits as `schedule_at` does at that instant; a
    /// job that is handed back is dispatched on the spot, with the outcome
    /// that `dispatch_outcome` gives. The call does not wait for the job to
    /// run. Whether it succeeds is decided outside on every input: by the
    /// control channel for a job that is sent, by the runtime for a job that
    /// is dispatched at once.
    pub fn schedule(&mut self, due_time: Timestamp, job: J) -> (outcome: Result<(), ScheduleError>)
        ensures
            final(self).config() == old(self).config(),
            outcome is Err ==> outcome == Err::<(), ScheduleError>(
                ScheduleError::TaskRunnerUnavailable,
            ),
    {
        let now = read_clock();
        match self.schedule_at(now, due_time, job) {
            Ok(Submission::Immediate(job)) => dispatch_outcome(dispatch(job)),
            Ok(Submission::Queued) => Ok(()),
            Err(error) => Err(error),
        }
    }
}

} // verus!
