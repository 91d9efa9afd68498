use std::future::Future;
use std::pin::Pin;
use std::sync::atomic::{AtomicUsize, Ordering};
use std::sync::{Arc, Mutex};
use std::time::Duration;
use tokio::sync::mpsc::error::TryRecvError;
use tokio::sync::mpsc::UnboundedReceiver;
use youkoso::scheduler::clock::{Span, Timestamp};
use youkoso::scheduler::error::ScheduleError;
use youkoso::scheduler::event_loop::{ControlMessage, Directive, Event, SchedulerLoop};
use youkoso::scheduler::{
    dispatch, dispatch_outcome, start_on, submission_outcome, Config, Route, Scheduler, Submission,
};

type Job = Pin<Box<dyn Future<Output = ()> + Send>>;

fn at(unix_nanos: i128) -> Timestamp {
    Timestamp::from_unix_nanos(unix_nanos)
}

fn options(prioritize_overdue: bool) -> Config {
    Config {
        max_poll_interval: Span::from_secs(1),
        catch_up_limit: None,
        prioritize_overdue,
    }
}

fn system_now() -> i128 {
    let since_epoch = std::time::SystemTime::now()
        .duration_since(std::time::UNIX_EPOCH)
        .unwrap();
    since_epoch.as_nanos() as i128
}

/// Plays the part of the background task: takes turns as the loop tells it
/// to and starts what the loop hands out.
async fn drive(mut receiver: UnboundedReceiver<ControlMessage<Job>>, config: Config) {
    let mut event_loop: SchedulerLoop<Job> = SchedulerLoop::new(config);
    let mut event = Event::TimerElapsed;
    loop {
        let step = event_loop.step(event);
        for entry in step.batch.ready {
            assert!(dispatch(entry.job).is_ok());
        }
        event = match step.next {
            Directive::Exit => return,
            Directive::AwaitMessage => match receiver.recv().await {
                Some(message) => Event::Message(message),
                None => Event::ChannelClosed,
            },
            Directive::Wait(wait) => {
                let wait = Duration::from_nanos(wait.nanos as u64);
                match tokio::time::timeout(wait, receiver.recv()).await {
                    Ok(Some(message)) => Event::Message(message),
                    Ok(None) => Event::ChannelClosed,
                    Err(_) => Event::TimerElapsed,
                }
            }
        };
    }
}

#[test]
fn the_handle_keeps_its_options() {
    let (scheduler, _receiver) = Scheduler::<u8>::new(options(true));
    assert!(scheduler.options().prioritize_overdue);
    assert_eq!(scheduler.options().max_poll_interval, Span::from_secs(1));
    assert_eq!(scheduler.options().catch_up_limit, None);
}

#[test]
fn an_overdue_task_is_handed_back_at_once_when_prioritized() {
    let (mut scheduler, mut receiver) = Scheduler::new(options(true));
    match scheduler.schedule_at(at(100), at(40), "job") {
        Ok(Submission::Immediate(job)) => assert_eq!(job, "job"),
        _ => panic!("the job should have come back for dispatch"),
    }
    assert!(matches!(receiver.try_recv(), Err(TryRecvError::Empty)));
}

#[test]
fn a_task_due_right_now_is_handed_back_at_once_when_prioritized() {
    let (mut scheduler, mut receiver) = Scheduler::new(options(true));
    assert!(matches!(
        scheduler.schedule_at(at(100), at(100), 7u8),
        Ok(Submission::Immediate(7))
    ));
    assert!(matches!(receiver.try_recv(), Err(TryRecvError::Empty)));
}

#[test]
fn a_future_task_goes_to_the_loop() {
    let (mut scheduler, mut receiver) = Scheduler::new(options(true));
    assert!(matches!(
        scheduler.schedule_at(at(100), at(101), "job"),
        Ok(Submission::Queued)
    ));
    match receiver.try_recv() {
        Ok(ControlMessage::AddTask(entry)) => {
            assert_eq!(entry.due_time, at(101));
            assert_eq!(entry.job, "job");
        }
        _ => panic!("the task should have arrived"),
    }
    assert!(matches!(receiver.try_recv(), Err(TryRecvError::Empty)));
}

#[test]
fn an_overdue_task_goes_to_the_loop_when_not_prioritized() {
    let (mut scheduler, mut receiver) = Scheduler::new(options(false));
    assert!(matches!(
        scheduler.schedule_at(at(100), at(40), "job"),
        Ok(Submission::Queued)
    ));
    match receiver.try_recv() {
        Ok(ControlMessage::AddTask(entry)) => {
            assert_eq!(entry.due_time, at(40));
            assert_eq!(entry.job, "job");
        }
        _ => panic!("the task should have arrived"),
    }
}

#[test]
fn tasks_arrive_in_the_order_in_which_they_were_sent() {
    let (mut scheduler, mut receiver) = Scheduler::new(options(false));
    for (due, job) in [(30, 'a'), (10, 'b'), (20, 'c')] {
        assert!(scheduler.schedule_at(at(0), at(due), job).is_ok());
    }
    let mut arrived = Vec::new();
    while let Ok(ControlMessage::AddTask(entry)) = receiver.try_recv() {
        arrived.push((entry.due_time.unix_nanos, entry.job));
    }
    assert_eq!(arrived, vec![(30, 'a'), (10, 'b'), (20, 'c')]);
}

#[test]
fn submitting_fails_when_no_loop_is_listening() {
    let (mut scheduler, receiver) = Scheduler::new(options(true));
    drop(receiver);
    assert!(matches!(
        scheduler.schedule_at(at(0), at(10), "job"),
        Err(ScheduleError::TaskRunnerUnavailable)
    ));
}

#[test]
fn submitting_fails_once_the_loop_has_closed_the_channel() {
    let (mut scheduler, mut receiver) = Scheduler::new(options(false));
    assert!(scheduler.schedule_at(at(0), at(10), 1u8).is_ok());
    receiver.close();
    assert!(matches!(
        scheduler.schedule_at(at(0), at(10), 2u8),
        Err(ScheduleError::TaskRunnerUnavailable)
    ));
}

#[test]
fn an_overdue_task_bypasses_even_a_closed_channel() {
    let (mut scheduler, receiver) = Scheduler::new(options(true));
    drop(receiver);
    assert!(matches!(
        scheduler.schedule_at(at(5), at(1), "job"),
        Ok(Submission::Immediate("job"))
    ));
}

#[test]
fn stop_sends_a_stop_message() {
    let (scheduler, mut receiver) = Scheduler::<u8>::new(options(true));
    scheduler.stop();
    assert!(matches!(receiver.try_recv(), Ok(ControlMessage::Stop)));
    assert!(matches!(receiver.try_recv(), Err(TryRecvError::Empty)));
}

#[test]
fn stop_may_be_called_twice() {
    let (scheduler, mut receiver) = Scheduler::<u8>::new(options(true));
    scheduler.stop();
    scheduler.stop();
    let mut event_loop: SchedulerLoop<u8> = SchedulerLoop::new(options(true));
    let first = event_loop.step_at(at(0), Event::Message(receiver.try_recv().unwrap()));
    assert_eq!(first.next, Directive::Exit);
    let second = event_loop.step_at(at(0), Event::Message(receiver.try_recv().unwrap()));
    assert_eq!(second.next, Directive::Exit);
}

#[test]
fn stop_after_the_loop_is_gone_is_no_error() {
    let (scheduler, receiver) = Scheduler::<u8>::new(options(true));
    drop(receiver);
    scheduler.stop();
    scheduler.stop();
}

#[test]
fn dropping_the_handle_closes_the_channel() {
    let (scheduler, mut receiver) = Scheduler::<u8>::new(options(true));
    drop(scheduler);
    assert!(matches!(receiver.try_recv(), Err(TryRecvError::Disconnected)));
}

#[test]
fn routing_follows_the_options() {
    match options(true).route(at(10), at(3), 'x') {
        Route::Immediate(job) => assert_eq!(job, 'x'),
        Route::ToLoop(_) => panic!("an overdue task goes past the queue"),
    }
    match options(true).route(at(10), at(11), 'y') {
        Route::ToLoop(ControlMessage::AddTask(entry)) => {
            assert_eq!(entry.due_time, at(11));
            assert_eq!(entry.job, 'y');
        }
        _ => panic!("a future task goes to the loop"),
    }
    match options(false).route(at(10), at(3), 'z') {
        Route::ToLoop(ControlMessage::AddTask(entry)) => {
            assert_eq!(entry.due_time, at(3));
            assert_eq!(entry.job, 'z');
        }
        _ => panic!("without priority every task goes to the loop"),
    }
}

#[test]
fn a_refused_message_means_no_runner() {
    assert!(matches!(
        submission_outcome::<u8>(Ok(())),
        Ok(Submission::Queued)
    ));
    assert!(matches!(
        submission_outcome::<u8>(Err(ControlMessage::Stop)),
        Err(ScheduleError::TaskRunnerUnavailable)
    ));
}

#[test]
fn nothing_can_be_dispatched_outside_a_runtime() {
    let ran = Arc::new(AtomicUsize::new(0));
    let counter = Arc::clone(&ran);
    let job: Job = Box::pin(async move {
        counter.fetch_add(1, Ordering::SeqCst);
    });
    assert!(dispatch(job).is_err());
    assert_eq!(ran.load(Ordering::SeqCst), 0);
}

#[test]
fn a_dispatched_job_runs_on_the_runtime() {
    let runtime = tokio::runtime::Builder::new_current_thread()
        .enable_time()
        .build()
        .unwrap();
    let ran = Arc::new(AtomicUsize::new(0));
    let counter = Arc::clone(&ran);
    runtime.block_on(async move {
        let job: Job = Box::pin(async move {
            counter.fetch_add(1, Ordering::SeqCst);
        });
        assert!(dispatch(job).is_ok());
        tokio::time::sleep(Duration::from_millis(20)).await;
    });
    assert_eq!(ran.load(Ordering::SeqCst), 1);
}

#[test]
fn schedule_outside_a_runtime_cannot_dispatch_an_overdue_task() {
    let (mut scheduler, _receiver) = Scheduler::<Job>::new(options(true));
    let outcome = scheduler.schedule(at(0), Box::pin(async {}));
    assert_eq!(outcome, Err(ScheduleError::TaskRunnerUnavailable));
}

#[test]
fn schedule_dispatches_an_overdue_task_without_the_loop() {
    let runtime = tokio::runtime::Builder::new_current_thread()
        .enable_time()
        .build()
        .unwrap();
    let ran = Arc::new(AtomicUsize::new(0));
    let counter = Arc::clone(&ran);
    runtime.block_on(async move {
        let (mut scheduler, mut receiver) = Scheduler::<Job>::new(options(true));
        let job: Job = Box::pin(async move {
            counter.fetch_add(1, Ordering::SeqCst);
        });
        assert_eq!(scheduler.schedule(at(system_now() - 1_000_000_000), job), Ok(()));
        assert!(matches!(receiver.try_recv(), Err(TryRecvError::Empty)));
        tokio::time::sleep(Duration::from_millis(20)).await;
    });
    assert_eq!(ran.load(Ordering::SeqCst), 1);
}

#[test]
fn schedule_queues_a_future_task() {
    let (mut scheduler, mut receiver) = Scheduler::<Job>::new(options(true));
    let due = at(system_now() + 3_600_000_000_000);
    assert_eq!(scheduler.schedule(due, Box::pin(async {})), Ok(()));
    match receiver.try_recv() {
        Ok(ControlMessage::AddTask(entry)) => assert_eq!(entry.due_time, due),
        _ => panic!("the task should have arrived"),
    }
}

#[test]
fn schedule_fails_when_no_loop_is_listening() {
    let (mut scheduler, receiver) = Scheduler::<Job>::new(options(false));
    drop(receiver);
    let outcome = scheduler.schedule(at(system_now()), Box::pin(async {}));
    assert_eq!(outcome, Err(ScheduleError::TaskRunnerUnavailable));
}

#[test]
fn a_running_scheduler_dispatches_in_order_of_due_time() {
    let runtime = tokio::runtime::Builder::new_current_thread()
        .enable_time()
        .build()
        .unwrap();
    let order = Arc::new(Mutex::new(Vec::new()));
    let seen = Arc::clone(&order);
    runtime.block_on(async move {
        let config = options(true);
        let (mut scheduler, receiver) = Scheduler::<Job>::new(config);
        let background = tokio::spawn(drive(receiver, config));
        let start = system_now();
        for (delay_ms, name) in [(300i128, 'A'), (200, 'B'), (100, 'C')] {
            let seen = Arc::clone(&seen);
            let job: Job = Box::pin(async move {
                seen.lock().unwrap().push((name, system_now()));
            });
            let due = at(start + delay_ms * 1_000_000);
            assert_eq!(scheduler.schedule(due, job), Ok(()));
        }
        tokio::time::sleep(Duration::from_millis(600)).await;
        scheduler.stop();
        scheduler.stop();
        background.await.unwrap();
        let seen = seen.lock().unwrap();
        assert_eq!(
            seen.iter().map(|(name, _)| *name).collect::<Vec<char>>(),
            vec!['C', 'B', 'A']
        );
        for ((_, ran_at), delay_ms) in seen.iter().zip([100i128, 200, 300]) {
            assert!(*ran_at >= start + delay_ms * 1_000_000);
        }
    });
    assert_eq!(order.lock().unwrap().len(), 3);
}

#[test]
fn a_stopped_scheduler_runs_nothing_that_was_still_queued() {
    let runtime = tokio::runtime::Builder::new_current_thread()
        .enable_time()
        .build()
        .unwrap();
    let ran = Arc::new(AtomicUsize::new(0));
    let counter = Arc::clone(&ran);
    runtime.block_on(async move {
        let config = options(true);
        let (mut scheduler, receiver) = Scheduler::<Job>::new(config);
        let background = tokio::spawn(drive(receiver, config));
        let job: Job = Box::pin(async move {
            counter.fetch_add(1, Ordering::SeqCst);
        });
        let due = at(system_now() + 150_000_000);
        assert_eq!(scheduler.schedule(due, job), Ok(()));
        scheduler.stop();
        background.await.unwrap();
        tokio::time::sleep(Duration::from_millis(300)).await;
        let late: Job = Box::pin(async {});
        let outcome = scheduler.schedule(at(system_now() + 1_000_000_000), late);
        assert_eq!(outcome, Err(ScheduleError::TaskRunnerUnavailable));
    });
    assert_eq!(ran.load(Ordering::SeqCst), 0);
}

#[test]
fn the_loop_ends_when_the_last_handle_is_dropped() {
    let runtime = tokio::runtime::Builder::new_current_thread()
        .enable_time()
        .build()
        .unwrap();
    runtime.block_on(async move {
        let config = options(true);
        let (scheduler, receiver) = Scheduler::<Job>::new(config);
        let background = tokio::spawn(drive(receiver, config));
        drop(scheduler);
        let ended = tokio::time::timeout(Duration::from_secs(5), background).await;
        assert!(ended.is_ok());
    });
}

#[test]
fn without_a_runtime_the_job_comes_back_unstarted() {
    let ran = Arc::new(AtomicUsize::new(0));
    let counter = Arc::clone(&ran);
    let job: Job = Box::pin(async move {
        counter.fetch_add(1, Ordering::SeqCst);
    });
    let returned = match start_on(None, job) {
        Err(job) => job,
        Ok(()) => panic!("nothing can be started without a runtime"),
    };
    assert_eq!(ran.load(Ordering::SeqCst), 0);
    let runtime = tokio::runtime::Builder::new_current_thread().build().unwrap();
    runtime.block_on(returned);
    assert_eq!(ran.load(Ordering::SeqCst), 1);
}

#[test]
fn with_a_runtime_the_job_is_started_on_it() {
    let runtime = tokio::runtime::Builder::new_current_thread()
        .enable_time()
        .build()
        .unwrap();
    let ran = Arc::new(AtomicUsize::new(0));
    let counter = Arc::clone(&ran);
    let job: Job = Box::pin(async move {
        counter.fetch_add(1, Ordering::SeqCst);
    });
    assert!(start_on(Some(runtime.handle().clone()), job).is_ok());
    runtime.block_on(async {
        tokio::time::sleep(Duration::from_millis(20)).await;
    });
    assert_eq!(ran.load(Ordering::SeqCst), 1);
}

#[test]
fn a_job_that_came_back_means_no_runner() {
    assert_eq!(dispatch_outcome::<u8>(Ok(())), Ok(()));
    assert_eq!(
        dispatch_outcome(Err(7u8)),
        Err(ScheduleError::TaskRunnerUnavailable)
    );
}
