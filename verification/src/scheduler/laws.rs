//! What holds of the scheduler as a whole, proved from the definitions that
//! the contracts of the queue and the loop are stated with.

use crate::scheduler::clock::{elapsed, Span, Timestamp};
use crate::scheduler::event_loop::{
    in_due_order, is_next_wait, lapsed, pending_after, ready, state_after, waiting, ControlMessage,
    LoopState,
};
use crate::scheduler::queue::{is_earliest, TaskEntry};
use crate::scheduler::Config;
use vstd::multiset::Multiset;
use vstd::prelude::*;

verus! {

/// A look at the queue loses nothing and invents nothing: every queued task
/// either stays queued, is handed out to run, or lapses, and it does so as
/// often as it was queued.
pub proof fn law_poll_accounts_for_every_task<J>(
    config: Config,
    pending: Multiset<TaskEntry<J>>,
    now: Timestamp,
)
    ensures
        pending == waiting(pending, now).add(ready(config, pending, now)).add(
            lapsed(config, pending, now),
        ),
{
    broadcast use vstd::multiset::group_multiset_axioms;

    assert(pending =~= waiting(pending, now).add(ready(config, pending, now)).add(
        lapsed(config, pending, now),
    ));
}

/// No task is handed out before its due time, and no task that is due stays
/// queued.
pub proof fn law_handed_out_when_due<J>(
    config: Config,
    pending: Multiset<TaskEntry<J>>,
    now: Timestamp,
    entry: TaskEntry<J>,
)
    ensures
        ready(config, pending, now).count(entry) > 0 ==> entry.due_time@ <= now@,
        lapsed(config, pending, now).count(entry) > 0 ==> entry.due_time@ <= now@,
        waiting(pending, now).count(entry) > 0 ==> entry.due_time@ > now@,
        entry.due_time@ > now@ ==> waiting(pending, now).count(entry) == pending.count(entry),
{
    broadcast use vstd::multiset::group_multiset_axioms;

}

/// Without a catch-up limit nothing lapses: at the first look at or after
/// its due time a queued task is handed out to run, however late that is.
pub proof fn law_without_limit_every_due_task_runs<J>(
    config: Config,
    pending: Multiset<TaskEntry<J>>,
    now: Timestamp,
    entry: TaskEntry<J>,
)
    requires
        config.catch_up_limit is None,
    ensures
        lapsed(config, pending, now) == Multiset::<TaskEntry<J>>::empty(),
        entry.due_time@ <= now@ ==> ready(config, pending, now).count(entry) == pending.count(entry),
{
    broadcast use vstd::multiset::group_multiset_axioms;

    assert(lapsed(config, pending, now) =~= Multiset::<TaskEntry<J>>::empty());
}

/// With a catch-up limit a due task runs if and only if it is late by no
/// more than the limit; otherwise it lapses and does not run.
pub proof fn law_catch_up_limit_decides<J>(
    config: Config,
    limit: Span,
    pending: Multiset<TaskEntry<J>>,
    now: Timestamp,
    entry: TaskEntry<J>,
)
    requires
        config.catch_up_limit == Some(limit),
        entry.due_time@ <= now@,
    ensures
        now@ - entry.due_time@ > limit@ ==> {
            &&& lapsed(config, pending, now).count(entry) == pending.count(entry)
            &&& ready(config, pending, now).count(entry) == 0
        },
        now@ - entry.due_time@ <= limit@ ==> {
            &&& ready(config, pending, now).count(entry) == pending.count(entry)
            &&& lapsed(config, pending, now).count(entry) == 0
        },
{
    broadcast use vstd::multiset::group_multiset_axioms;

}

/// Within one batch, a task that is due earlier than another is not handed
/// out after it.
pub proof fn law_batch_follows_due_time<J>(batch: Seq<TaskEntry<J>>, i: int, j: int)
    requires
        in_due_order(batch),
        0 <= i < batch.len(),
        0 <= j < batch.len(),
        batch[i].due_time@ < batch[j].due_time@,
    ensures
        i < j,
{
    if j <= i {
        assert(batch[j].due_time@ <= batch[i].due_time@);
    }
}

/// From one look at the queue to the next, with nothing added in between,
/// the due times only go up: whatever the later look hands out is due after
/// everything the earlier look handed out.
pub proof fn law_later_looks_hand_out_later_tasks<J>(
    config: Config,
    pending: Multiset<TaskEntry<J>>,
    first_look: Timestamp,
    second_look: Timestamp,
    earlier: TaskEntry<J>,
    later: TaskEntry<J>,
)
    requires
        ready(config, pending, first_look).count(earlier) > 0,
        ready(config, waiting(pending, first_look), second_look).count(later) > 0,
    ensures
        earlier.due_time@ < later.due_time@,
{
    broadcast use vstd::multiset::group_multiset_axioms;

}

/// The loop never sleeps past the due time of a queued task, nor for longer
/// than the poll interval. So a loop that is woken when its wait is up finds
/// no queued task overdue: a task is late only by as much as the wake-up is.
pub proof fn law_wait_is_bounded<J>(
    config: Config,
    pending: Multiset<TaskEntry<J>>,
    now: Timestamp,
    wait: Span,
    entry: TaskEntry<J>,
)
    requires
        is_next_wait(config, pending, now, wait),
    ensures
        wait@ <= config.max_poll_interval@,
        pending.count(entry) > 0 ==> wait@ <= elapsed(now@, entry.due_time@),
        pending.count(entry) > 0 && now@ <= entry.due_time@ ==> now@ + wait@ <= entry.due_time@,
{
    broadcast use vstd::multiset::group_multiset_axioms;

    if pending.len() > 0 {
        lemma_some_entry_is_earliest(pending);
        let head = choose|head: TaskEntry<J>| is_earliest(pending, head);
        if pending.count(entry) > 0 {
            assert(head.due_time@ <= entry.due_time@);
        }
    } else {
        vstd::multiset::axiom_count_le_len(pending, entry);
    }
}

/// A second stop changes nothing: a loop that was told to stop stays
/// terminated with an empty queue whatever arrives afterwards.
pub proof fn law_stop_is_final<J>(
    state: LoopState,
    pending: Multiset<TaskEntry<J>>,
    later: Option<ControlMessage<J>>,
)
    ensures
        state_after(state, Some(ControlMessage::<J>::Stop)) == LoopState::Terminated,
        pending_after(state, pending, Some(ControlMessage::<J>::Stop)) == Multiset::<
            TaskEntry<J>,
        >::empty(),
        state_after(LoopState::Terminated, later) == LoopState::Terminated,
        pending_after(LoopState::Terminated, Multiset::<TaskEntry<J>>::empty(), later)
            == Multiset::<TaskEntry<J>>::empty(),
{
}

/// A queue that is not empty has an earliest task.
proof fn lemma_some_entry_is_earliest<J>(pending: Multiset<TaskEntry<J>>)
    requires
        pending.len() > 0,
    ensures
        exists|head: TaskEntry<J>| is_earliest(pending, head),
    decreases pending.len(),
{
    broadcast use vstd::multiset::group_multiset_axioms;

    vstd::multiset::lemma_multiset_empty_len(pending);
    let some = pending.choose();
    let rest = pending.remove(some);
    if rest.len() == 0 {
        vstd::multiset::lemma_multiset_empty_len(rest);
        assert forall|other: TaskEntry<J>| #[trigger] pending.count(other) > 0 implies some.due_time@
            <= other.due_time@ by {
            if other != some {
                assert(rest.count(other) == pending.count(other));
            }
        }
        assert(is_earliest(pending, some));
    } else {
        lemma_some_entry_is_earliest(rest);
        let head = choose|head: TaskEntry<J>| is_earliest(rest, head);
        let best = if some.due_time@ <= head.due_time@ {
            some
        } else {
            head
        };
        assert forall|other: TaskEntry<J>| #[trigger] pending.count(other) > 0 implies best.due_time@
            <= other.due_time@ by {
            if other != some {
                assert(rest.count(other) == pending.count(other));
                assert(head.due_time@ <= other.due_time@);
            }
        }
        assert(pending.count(best) > 0);
        assert(is_earliest(pending, best));
    }
}

} // verus!
