//! The pending queue: a binary min-heap of task entries keyed by due time.

use crate::scheduler::clock::Timestamp;
use vstd::multiset::Multiset;
use vstd::prelude::*;
use vstd::seq_lib::to_multiset_update;

verus! {

/// A unit of work paired with the instant from which it may run.
pub struct TaskEntry<J> {
    pub due_time: Timestamp,
    pub job: J,
}

/// `entry` is one of `pending` and none of `pending` is due before it.
pub open spec fn is_earliest<J>(pending: Multiset<TaskEntry<J>>, entry: TaskEntry<J>) -> bool {
    &&& pending.count(entry) > 0
    &&& forall|other: TaskEntry<J>| #[trigger]
        pending.count(other) > 0 ==> entry.due_time@ <= other.due_time@
}

/// Every entry of `pending` is due strictly after `now`.
pub open spec fn none_due<J>(pending: Multiset<TaskEntry<J>>, now: Timestamp) -> bool {
    forall|entry: TaskEntry<J>| #[trigger] pending.count(entry) > 0 ==> entry.due_time@ > now@
}

/// The index of the heap slot above slot `i`.
spec fn parent(i: int) -> int {
    (i - 1) / 2
}

/// Every slot but the root is due no earlier than the slot above it, with
/// the possible exception of the edge that leads down into `hole_below`
/// and the edges that lead down out of `hole_above`.
spec fn ordered_except<J>(s: Seq<TaskEntry<J>>, hole_below: int, hole_above: int) -> bool {
    forall|i: int, j: int|
        #![trigger s[i], s[j]]
        0 <= i < j < s.len() && i == parent(j) && j != hole_below && i != hole_above
            ==> s[i].due_time@ <= s[j].due_time@
}

/// The heap order holds on every edge.
spec fn ordered<J>(s: Seq<TaskEntry<J>>) -> bool {
    ordered_except(s, -1, -1)
}

/// The slots below `k` are due no earlier than the slot above `k`.
spec fn bridged<J>(s: Seq<TaskEntry<J>>, k: int) -> bool {
    forall|j: int|
        #![trigger s[j]]
        0 < k < j < s.len() && k == parent(j) ==> s[parent(k)].due_time@ <= s[j].due_time@
}

/// In a heap the root is due no later than any other slot.
proof fn lemma_root_is_earliest<J>(s: Seq<TaskEntry<J>>, i: int)
    requires
        ordered(s),
        0 <= i < s.len(),
    ensures
        s[0].due_time@ <= s[i].due_time@,
    decreases i,
{
    if i > 0 {
        let p = parent(i);
        lemma_root_is_earliest(s, p);
        assert(s[p].due_time@ <= s[i].due_time@);
    }
}

/// Exchanging two slots keeps the entries the same.
proof fn lemma_exchange_keeps_entries<J>(s: Seq<TaskEntry<J>>, i: int, j: int)
    requires
        0 <= i < s.len(),
        0 <= j < s.len(),
    ensures
        s.update(i, s[j]).update(j, s[i]).to_multiset() == s.to_multiset(),
{
    broadcast use vstd::multiset::group_multiset_axioms;

    let mid = s.update(i, s[j]);
    assert(mid.len() == s.len());
    to_multiset_update(s, i, s[j]);
    to_multiset_update(mid, j, s[i]);
    assert(s.to_multiset().count(s[i]) > 0 && s.to_multiset().count(s[j]) > 0) by {
        s.to_multiset_ensures();
        assert(s.contains(s[i]) && s.contains(s[j]));
    }
    assert(mid.update(j, s[i]).to_multiset() =~= s.to_multiset());
}

/// Exchanges the entries in slots `i` and `j`.
fn exchange<J>(items: &mut Vec<TaskEntry<J>>, i: usize, j: usize)
    requires
        i < j < old(items).len(),
    ensures
        final(items)@ == old(items)@.update(i as int, old(items)@[j as int]).update(
            j as int,
            old(items)@[i as int],
        ),
        final(items)@.to_multiset() == old(items)@.to_multiset(),
{
    let (head, tail) = items.as_mut_slice().split_at_mut(j);
    core::mem::swap(&mut head[i], &mut tail[0]);
    proof {
        let before = old(items)@;
        assert(items@ == before.update(i as int, before[j as int]).update(j as int, before[i as int]));
        lemma_exchange_keeps_entries(before, i as int, j as int);
    }
}

/// Moves the entry in slot `start` up until the slot above it is due no later.
fn sift_up<J>(items: &mut Vec<TaskEntry<J>>, start: usize)
    requires
        start < old(items).len(),
        ordered_except(old(items)@, start as int, -1),
        bridged(old(items)@, start as int),
    ensures
        ordered(final(items)@),
        final(items)@.to_multiset() == old(items)@.to_multiset(),
        final(items)@.len() == old(items)@.len(),
{
    let mut k: usize = start;
    while k > 0
        invariant
            k < items@.len(),
            items@.len() == old(items)@.len(),
            items@.to_multiset() == old(items)@.to_multiset(),
            ordered_except(items@, k as int, -1),
            bridged(items@, k as int),
        ensures
            ordered(items@),
            items@.to_multiset() == old(items)@.to_multiset(),
            items@.len() == old(items)@.len(),
        decreases k,
    {
        let p: usize = (k - 1) / 2;
        if items[p].due_time.unix_nanos <= items[k].due_time.unix_nanos {
            break;
        }
        let ghost before = items@;
        exchange(items, p, k);
        proof {
            let after = items@;
            assert(ordered_except(after, p as int, -1)) by {
                assert forall|i: int, j: int|
                    0 <= i < j < after.len() && i == parent(j) && j != p as int implies after[i].due_time@
                    <= after[j].due_time@ by {
                    if j == k as int {
                    } else if i == p as int {
                        assert(before[p as int].due_time@ <= before[j].due_time@);
                    } else if i == k as int {
                        assert(before[parent(k as int)].due_time@ <= before[j].due_time@);
                    } else {
                        assert(before[i].due_time@ <= before[j].due_time@);
                    }
                }
            }
            assert(bridged(after, p as int)) by {
                assert forall|j: int|
                    0 < (p as int) < j < after.len() && p as int == parent(j) implies after[parent(
                        p as int,
                    )].due_time@ <= after[j].due_time@ by {
                    let g = parent(p as int);
                    assert(before[g].due_time@ <= before[p as int].due_time@);
                    if j != k as int {
                        assert(before[p as int].due_time@ <= before[j].due_time@);
                    }
                }
            }
        }
        k = p;
    }
}

/// Moves the entry in slot 0 down until neither slot below it is due earlier.
fn sift_down<J>(items: &mut Vec<TaskEntry<J>>)
    requires
        old(items)@.len() > 0,
        ordered_except(old(items)@, -1, 0),
    ensures
        ordered(final(items)@),
        final(items)@.to_multiset() == old(items)@.to_multiset(),
        final(items)@.len() == old(items)@.len(),
{
    let len: usize = items.len();
    let mut k: usize = 0;
    loop
        invariant
            len == items@.len(),
            k < len,
            items@.len() == old(items)@.len(),
            items@.to_multiset() == old(items)@.to_multiset(),
            ordered_except(items@, -1, k as int),
            bridged(items@, k as int),
        ensures
            ordered(items@),
            items@.to_multiset() == old(items)@.to_multiset(),
            items@.len() == old(items)@.len(),
        decreases len - k,
    {
        if k >= len / 2 {
            break;
        }
        let left: usize = 2 * k + 1;
        let right: usize = left + 1;
        let mut child: usize = left;
        if right < len && items[right].due_time.unix_nanos < items[left].due_time.unix_nanos {
            child = right;
        }
        if items[k].due_time.unix_nanos <= items[child].due_time.unix_nanos {
            break;
        }
        let ghost before = items@;
        exchange(items, k, child);
        proof {
            let after = items@;
            assert(ordered_except(after, -1, child as int)) by {
                assert forall|i: int, j: int|
                    0 <= i < j < after.len() && i == parent(j) && i != child as int implies after[i].due_time@
                    <= after[j].due_time@ by {
                    if i == k as int {
                        if j != child as int {
                            assert(j == left || j == right);
                        }
                    } else if j == k as int {
                        assert(before[parent(k as int)].due_time@ <= before[child as int].due_time@);
                    } else {
                        assert(before[i].due_time@ <= before[j].due_time@);
                    }
                }
            }
            assert(bridged(after, child as int)) by {
                assert forall|j: int|
                    0 < (child as int) < j < after.len() && child as int == parent(j) implies after[parent(
                        child as int,
                    )].due_time@ <= after[j].due_time@ by {
                    assert(before[child as int].due_time@ <= before[j].due_time@);
                }
            }
        }
        k = child;
    }
}

/// Takes the root out of a non-empty heap and restores the heap order.
fn take_root<J>(items: &mut Vec<TaskEntry<J>>) -> (root: TaskEntry<J>)
    requires
        old(items)@.len() > 0,
        ordered(old(items)@),
    ensures
        root == old(items)@[0],
        is_earliest(old(items)@.to_multiset(), root),
        ordered(final(items)@),
        final(items)@.to_multiset() == old(items)@.to_multiset().remove(root),
{
    proof {
        lemma_root_heads_entries(items@);
        lemma_root_replaced(items@);
    }
    let root = items.swap_remove(0);
    if items.len() > 0 {
        sift_down(items);
    }
    root
}

/// The tasks that wait for their due time.
///
/// The entries are kept in a binary heap, so that an entry with the smallest
/// due time is always at hand. Seen from outside, the queue is the multiset
/// of its entries. Which of several entries with the same due time leaves
/// first is left open.
pub struct PendingQueue<J> {
    items: Vec<TaskEntry<J>>,
}

impl<J> View for PendingQueue<J> {
    type V = Multiset<TaskEntry<J>>;

    closed spec fn view(&self) -> Multiset<TaskEntry<J>> {
        self.items@.to_multiset()
    }
}

impl<J> PendingQueue<J> {
    #[verifier::type_invariant]
    spec fn heap_ordered(self) -> bool {
        ordered(self.items@)
    }

    /// A queue without entries.
    pub fn new() -> (queue: Self)
        ensures
            queue@ == Multiset::<TaskEntry<J>>::empty(),
    {
        let items: Vec<TaskEntry<J>> = Vec::new();
        assert(items@.to_multiset() =~= Multiset::<TaskEntry<J>>::empty()) by {
            items@.to_multiset_ensures();
        }
        PendingQueue { items }
    }

    /// The number of entries.
    pub fn len(&self) -> (n: usize)
        ensures
            n == self@.len(),
    {
        proof {
            self.items@.to_multiset_ensures();
        }
        self.items.len()
    }

    /// Whether the queue holds no entry.
    pub fn is_empty(&self) -> (empty: bool)
        ensures
            empty == (self@.len() == 0),
    {
        proof {
            self.items@.to_multiset_ensures();
        }
        self.items.len() == 0
    }

    /// Adds `entry` to the queue.
    pub fn push(&mut self, entry: TaskEntry<J>)
        ensures
            final(self)@ == old(self)@.insert(entry),
    {
        proof {
            use_type_invariant(&*self);
        }
        let mut items: Vec<TaskEntry<J>> = Vec::new();
        core::mem::swap(&mut items, &mut self.items);
        let ghost before = items@;
        items.push(entry);
        proof {
            before.to_multiset_ensures();
            assert(items@ == before.push(entry));
            assert(ordered_except(items@, before.len() as int, -1)) by {
                assert forall|i: int, j: int|
                    0 <= i < j < items@.len() && i == parent(j) && j != before.len() as int implies items@[i].due_time@
                    <= items@[j].due_time@ by {
                    assert(before[i].due_time@ <= before[j].due_time@);
                }
            }
        }
        let last: usize = items.len() - 1;
        sift_up(&mut items, last);
        self.items = items;
    }

    /// An entry with the smallest due time, if the queue holds any.
    pub fn peek(&self) -> (next: Option<&TaskEntry<J>>)
        ensures
            next is None <==> self@.len() == 0,
            next matches Some(entry) ==> is_earliest(self@, *entry),
    {
        proof {
            use_type_invariant(self);
            self.items@.to_multiset_ensures();
        }
        if self.items.len() == 0 {
            None
        } else {
            proof {
                lemma_root_heads_entries(self.items@);
            }
            Some(&self.items[0])
        }
    }

    /// Takes an entry with the smallest due time out of the queue.
    pub fn pop(&mut self) -> (taken: Option<TaskEntry<J>>)
        ensures
            match taken {
                Some(entry) => is_earliest(old(self)@, entry) && final(self)@ == old(self)@.remove(
                    entry,
                ),
                None => old(self)@.len() == 0 && final(self)@ == old(self)@,
            },
    {
        proof {
            use_type_invariant(&*self);
            self.items@.to_multiset_ensures();
        }
        if self.items.len() == 0 {
            return None;
        }
        let mut items: Vec<TaskEntry<J>> = Vec::new();
        core::mem::swap(&mut items, &mut self.items);
        let entry = take_root(&mut items);
        self.items = items;
        Some(entry)
    }

    /// Takes an entry with the smallest due time out of the queue if
    /// `predicate` accepts it, and leaves the queue as it is otherwise.
    pub fn pop_if<F: FnOnce(&TaskEntry<J>) -> bool>(&mut self, predicate: F) -> (taken: Option<
        TaskEntry<J>,
    >)
        requires
            forall|entry: TaskEntry<J>| #[trigger]
                old(self)@.count(entry) > 0 ==> call_requires(predicate, (&entry,)),
        ensures
            match taken {
                Some(entry) => {
                    &&& is_earliest(old(self)@, entry)
                    &&& call_ensures(predicate, (&entry,), true)
                    &&& final(self)@ == old(self)@.remove(entry)
                },
                None => {
                    &&& final(self)@ == old(self)@
                    &&& old(self)@.len() > 0 ==> exists|entry: TaskEntry<J>|
                        is_earliest(old(self)@, entry) && #[trigger] call_ensures(
                            predicate,
                            (&entry,),
                            false,
                        )
                },
            },
    {
        proof {
            use_type_invariant(&*self);
            self.items@.to_multiset_ensures();
        }
        if self.items.len() == 0 {
            return None;
        }
        proof {
            lemma_root_heads_entries(self.items@);
            assert(self@.count(self.items@[0]) > 0);
        }
        if predicate(&self.items[0]) {
            let mut items: Vec<TaskEntry<J>> = Vec::new();
            core::mem::swap(&mut items, &mut self.items);
            let entry = take_root(&mut items);
            self.items = items;
            Some(entry)
        } else {
            None
        }
    }
}

/// The root of a non-empty heap is an earliest entry of the heap's entries.
proof fn lemma_root_heads_entries<J>(s: Seq<TaskEntry<J>>)
    requires
        ordered(s),
        s.len() > 0,
    ensures
        is_earliest(s.to_multiset(), s[0]),
{
    s.to_multiset_ensures();
    assert(s.contains(s[0]));
    assert forall|other: TaskEntry<J>| #[trigger]
        s.to_multiset().count(other) > 0 implies s[0].due_time@ <= other.due_time@ by {
        assert(s.contains(other));
        let i = choose|i: int| 0 <= i < s.len() && s[i] == other;
        lemma_root_is_earliest(s, i);
    }
}

/// Putting the last slot in place of the root and dropping the last slot
/// removes the root from the entries and breaks the order at most directly
/// below the root.
proof fn lemma_root_replaced<J>(s: Seq<TaskEntry<J>>)
    requires
        ordered(s),
        s.len() > 0,
    ensures
        s.update(0, s.last()).drop_last().to_multiset() == s.to_multiset().remove(s[0]),
        ordered_except(s.update(0, s.last()).drop_last(), -1, 0),
{
    broadcast use vstd::multiset::group_multiset_axioms;

    let moved = s.update(0, s.last());
    let rest = moved.drop_last();
    assert(moved.len() == s.len());
    to_multiset_update(s, 0, s.last());
    moved.to_multiset_ensures();
    s.to_multiset_ensures();
    assert(rest == moved.remove(moved.len() - 1));
    assert(s.contains(s[0]) && s.contains(s.last()));
    assert(rest.to_multiset() =~= s.to_multiset().remove(s[0]));
    assert forall|i: int, j: int|
        0 <= i < j < rest.len() && i == parent(j) && i != 0 implies rest[i].due_time@
        <= rest[j].due_time@ by {
        assert(s[i].due_time@ <= s[j].due_time@);
    }
}

} // verus!
