//! The loop over time: what a whole run of turns has accepted, handed out,
//! let lapse and discarded, and what holds of every such run.

use crate::scheduler::clock::Timestamp;
use crate::scheduler::event_loop::{
    is_step, lapsed, queued_on, ready, state_on, waiting, ControlMessage, Event, LoopState,
    SchedulerLoop, Step,
};
use crate::scheduler::queue::TaskEntry;
use crate::scheduler::Config;
use vstd::multiset::Multiset;
use vstd::prelude::*;

verus! {

/// One turn of the loop: the instant at which it is taken and the event that
/// set it off.
pub struct Turn<J> {
    pub now: Timestamp,
    pub event: Event<J>,
}

/// The tasks that `event` adds to the queue of a loop in `state`.
pub open spec fn accepted_on<J>(state: LoopState, event: Event<J>) -> Multiset<TaskEntry<J>> {
    match event {
        Event::Message(ControlMessage::AddTask(entry)) if !(state is Terminated) => Multiset::empty().insert(
            entry,
        ),
        _ => Multiset::empty(),
    }
}

/// The queued tasks that `event` makes a loop in `state` throw away
/// unrun: all of them when the loop ends.
pub open spec fn discarded_on<J>(
    state: LoopState,
    pending: Multiset<TaskEntry<J>>,
    event: Event<J>,
) -> Multiset<TaskEntry<J>> {
    if !(state is Terminated) && state_on(state, event) is Terminated {
        pending
    } else {
        Multiset::empty()
    }
}

/// Where a loop stands after the turns `turns`, taken from its start.
pub open spec fn state_of<J>(turns: Seq<Turn<J>>) -> LoopState
    decreases turns.len(),
{
    if turns.len() == 0 {
        LoopState::Idle
    } else {
        state_on(state_of(turns.drop_last()), turns.last().event)
    }
}

/// What is queued after the turns `turns`.
pub open spec fn pending_of<J>(turns: Seq<Turn<J>>) -> Multiset<TaskEntry<J>>
    decreases turns.len(),
{
    if turns.len() == 0 {
        Multiset::empty()
    } else {
        let earlier = turns.drop_last();
        waiting(
            queued_on(state_of(earlier), pending_of(earlier), turns.last().event),
            turns.last().now,
        )
    }
}

/// Every task that the turns `turns` took into the queue.
pub open spec fn accepted_in<J>(turns: Seq<Turn<J>>) -> Multiset<TaskEntry<J>>
    decreases turns.len(),
{
    if turns.len() == 0 {
        Multiset::empty()
    } else {
        let earlier = turns.drop_last();
        accepted_in(earlier).add(accepted_on(state_of(earlier), turns.last().event))
    }
}

/// Every task that the turns `turns` handed out to run.
pub open spec fn dispatched_in<J>(config: Config, turns: Seq<Turn<J>>) -> Multiset<TaskEntry<J>>
    decreases turns.len(),
{
    if turns.len() == 0 {
        Multiset::empty()
    } else {
        let earlier = turns.drop_last();
        dispatched_in(config, earlier).add(
            ready(
                config,
                queued_on(state_of(earlier), pending_of(earlier), turns.last().event),
                turns.last().now,
            ),
        )
    }
}

/// Every task that the turns `turns` let lapse for being too late.
pub open spec fn lapsed_in<J>(config: Config, turns: Seq<Turn<J>>) -> Multiset<TaskEntry<J>>
    decreases turns.len(),
{
    if turns.len() == 0 {
        Multiset::empty()
    } else {
        let earlier = turns.drop_last();
        lapsed_in(config, earlier).add(
            lapsed(
                config,
                queued_on(state_of(earlier), pending_of(earlier), turns.last().event),
                turns.last().now,
            ),
        )
    }
}

/// Every task that was still queued when the turns `turns` ended the loop.
pub open spec fn discarded_in<J>(turns: Seq<Turn<J>>) -> Multiset<TaskEntry<J>>
    decreases turns.len(),
{
    if turns.len() == 0 {
        Multiset::empty()
    } else {
        let earlier = turns.drop_last();
        discarded_in(earlier).add(
            discarded_on(state_of(earlier), pending_of(earlier), turns.last().event),
        )
    }
}

/// A turn of the loop is a turn of the run: if `before` is where the turns
/// `turns` have led, then after one more step the loop is where the turns
/// with that step added lead, and the step's batch is what that last turn
/// hands out and lets lapse.
pub proof fn law_step_extends_run<J>(
    turns: Seq<Turn<J>>,
    before: SchedulerLoop<J>,
    now: Timestamp,
    event: Event<J>,
    after: SchedulerLoop<J>,
    step: Step<J>,
)
    requires
        before.state() == state_of(turns),
        before.pending() == pending_of(turns),
        is_step(before, now, event, after, step),
    ensures
        after.state() == state_of(turns.push(Turn { now, event })),
        after.pending() == pending_of(turns.push(Turn { now, event })),
        dispatched_in(before.config(), turns.push(Turn { now, event })) == dispatched_in(
            before.config(),
            turns,
        ).add(step.batch.ready@.to_multiset()),
        lapsed_in(before.config(), turns.push(Turn { now, event })) == lapsed_in(
            before.config(),
            turns,
        ).add(step.batch.stale@.to_multiset()),
{
    let longer = turns.push(Turn { now, event });
    assert(longer.drop_last() == turns);
    assert(longer.last() == Turn { now, event });
}

/// A loop that has not started running, or has ended, has nothing queued.
pub proof fn law_queue_only_while_running<J>(turns: Seq<Turn<J>>)
    ensures
        !(state_of(turns) is Running) ==> pending_of(turns) == Multiset::<TaskEntry<J>>::empty(),
    decreases turns.len(),
{
    broadcast use vstd::multiset::group_multiset_axioms;

    if turns.len() > 0 {
        let earlier = turns.drop_last();
        law_queue_only_while_running(earlier);
        if !(state_of(turns) is Running) {
            let queued = queued_on(state_of(earlier), pending_of(earlier), turns.last().event);
            assert(queued == Multiset::<TaskEntry<J>>::empty());
            assert(waiting(queued, turns.last().now) =~= Multiset::<TaskEntry<J>>::empty());
        }
    }
}

/// Over any run, every task that was taken into the queue is accounted for
/// exactly once: it is still queued, or it was handed out to run, or it
/// lapsed, or it was discarded when the loop ended.
pub proof fn law_run_accounts_for_every_task<J>(config: Config, turns: Seq<Turn<J>>)
    ensures
        accepted_in(turns) == pending_of(turns).add(dispatched_in(config, turns)).add(
            lapsed_in(config, turns),
        ).add(discarded_in(turns)),
    decreases turns.len(),
{
    broadcast use vstd::multiset::group_multiset_axioms;

    if turns.len() == 0 {
        assert(accepted_in(turns) =~= pending_of(turns).add(dispatched_in(config, turns)).add(
            lapsed_in(config, turns),
        ).add(discarded_in(turns)));
    } else {
        let earlier = turns.drop_last();
        let turn = turns.last();
        law_run_accounts_for_every_task(config, earlier);
        law_queue_only_while_running(earlier);
        let queued = queued_on(state_of(earlier), pending_of(earlier), turn.event);
        assert(queued.add(discarded_on(state_of(earlier), pending_of(earlier), turn.event))
            =~= pending_of(earlier).add(accepted_on(state_of(earlier), turn.event)));
        assert(queued =~= waiting(queued, turn.now).add(ready(config, queued, turn.now)).add(
            lapsed(config, queued, turn.now),
        ));
        assert(accepted_in(turns) =~= pending_of(turns).add(dispatched_in(config, turns)).add(
            lapsed_in(config, turns),
        ).add(discarded_in(turns)));
    }
}

/// Nothing lapses in a run without a catch-up limit.
pub proof fn law_nothing_lapses_without_limit<J>(config: Config, turns: Seq<Turn<J>>)
    requires
        config.catch_up_limit is None,
    ensures
        lapsed_in(config, turns) == Multiset::<TaskEntry<J>>::empty(),
    decreases turns.len(),
{
    broadcast use vstd::multiset::group_multiset_axioms;

    if turns.len() > 0 {
        let earlier = turns.drop_last();
        law_nothing_lapses_without_limit(config, earlier);
        let queued = queued_on(state_of(earlier), pending_of(earlier), turns.last().event);
        assert(lapsed(config, queued, turns.last().now) =~= Multiset::<TaskEntry<J>>::empty());
        assert(lapsed_in(config, turns) =~= Multiset::<TaskEntry<J>>::empty());
    } else {
        assert(lapsed_in(config, turns) =~= Multiset::<TaskEntry<J>>::empty());
    }
}

/// Nothing is discarded in a run that has not ended the loop.
pub proof fn law_nothing_discarded_before_the_end<J>(turns: Seq<Turn<J>>)
    requires
        !(state_of(turns) is Terminated),
    ensures
        discarded_in(turns) == Multiset::<TaskEntry<J>>::empty(),
    decreases turns.len(),
{
    broadcast use vstd::multiset::group_multiset_axioms;

    if turns.len() > 0 {
        let earlier = turns.drop_last();
        law_nothing_discarded_before_the_end(earlier);
        assert(discarded_in(turns) =~= Multiset::<TaskEntry<J>>::empty());
    } else {
        assert(discarded_in(turns) =~= Multiset::<TaskEntry<J>>::empty());
    }
}

/// Whatever a run handed out was due at the turn that handed it out: no task
/// runs before its due time.
pub proof fn law_no_task_runs_early<J>(config: Config, turns: Seq<Turn<J>>, entry: TaskEntry<J>)
    requires
        dispatched_in(config, turns).count(entry) > 0,
    ensures
        exists|i: int| 0 <= i < turns.len() && entry.due_time@ <= (#[trigger] turns[i]).now@,
    decreases turns.len(),
{
    broadcast use vstd::multiset::group_multiset_axioms;

    if turns.len() > 0 {
        let earlier = turns.drop_last();
        let queued = queued_on(state_of(earlier), pending_of(earlier), turns.last().event);
        if ready(config, queued, turns.last().now).count(entry) > 0 {
            assert(entry.due_time@ <= turns[turns.len() - 1].now@);
        } else {
            law_no_task_runs_early(config, earlier, entry);
            let i = choose|i: int| 0 <= i < earlier.len() && entry.due_time@ <= (#[trigger] earlier[i]).now@;
            assert(turns[i] == earlier[i]);
        }
    }
}

/// Without a catch-up limit, and as long as the loop has not been ended,
/// every task that was taken into the queue runs: after a turn taken at or
/// after its due time it has been handed out as often as it was accepted,
/// and until then it waits in the queue.
pub proof fn law_every_accepted_task_runs<J>(config: Config, turns: Seq<Turn<J>>, entry: TaskEntry<J>)
    requires
        config.catch_up_limit is None,
        !(state_of(turns) is Terminated),
        turns.len() > 0,
    ensures
        accepted_in(turns) == pending_of(turns).add(dispatched_in(config, turns)),
        entry.due_time@ <= turns.last().now@ ==> dispatched_in(config, turns).count(entry)
            == accepted_in(turns).count(entry),
        entry.due_time@ > turns.last().now@ ==> pending_of(turns).count(entry) + dispatched_in(
            config,
            turns,
        ).count(entry) == accepted_in(turns).count(entry),
{
    broadcast use vstd::multiset::group_multiset_axioms;

    law_run_accounts_for_every_task(config, turns);
    law_nothing_lapses_without_limit(config, turns);
    law_nothing_discarded_before_the_end(turns);
    assert(accepted_in(turns) =~= pending_of(turns).add(dispatched_in(config, turns)));
}

} // verus!
