//! Process-wide ids: a counter that hands out nonzero ids in increasing order.
use vstd::prelude::*;

verus! {

/// The state of an id counter: the id it hands out next.
pub struct IdGenerator {
    next: u64,
}

/// The id a counter hands out and the counter after it: the counter value,
/// except that a counter at 0 hands out 1 and moves to 2; the counter moves
/// up by one, wrapping from the largest `u64` to 0.
pub open spec fn next_step(counter: u64) -> (u64, u64) {
    if counter == 0 {
        (1, 2)
    } else if counter == u64::MAX {
        (counter, 0)
    } else {
        (counter, (counter + 1) as u64)
    }
}

/// The counter after it learns the largest id in use: at least one past it
/// (saturating) and at least 1, and never lower than it was.
pub open spec fn seeded(counter: u64, max_seen: u64) -> u64 {
    let floor: u64 = if max_seen == u64::MAX {
        u64::MAX
    } else {
        (max_seen + 1) as u64
    };
    if counter >= floor {
        counter
    } else {
        floor
    }
}

impl IdGenerator {
    /// The id this counter hands out next (before the rule for 0).
    pub closed spec fn counter(self) -> u64 {
        self.next
    }

    /// A counter that starts at 1.
    pub fn new() -> (r: Self)
        ensures
            r.counter() == 1,
    {
        IdGenerator { next: 1 }
    }
}

/// Hand out the next id; it is never 0.
pub fn next(generator: &mut IdGenerator) -> (id: u64)
    ensures
        (id, final(generator).counter()) == next_step(old(generator).counter()),
        id != 0,
{
    let id = generator.next;
    if id == 0 {
        generator.next = 2;
        1
    } else {
        generator.next = id.wrapping_add(1);
        id
    }
}

/// Make sure that the ids handed out from now on are above `max_seen`
/// (for ids loaded from a saved project).
pub fn seed_from_max(generator: &mut IdGenerator, max_seen: u64)
    ensures
        final(generator).counter() == seeded(old(generator).counter(), max_seen),
{
    let floor = max_seen.saturating_add(1);
    let floor = if floor > 1 {
        floor
    } else {
        1
    };
    if generator.next < floor {
        generator.next = floor;
    }
}

/// After the counter learns the largest id in use, the next id handed out is
/// above it (unless that id is the largest `u64`), and ids keep increasing
/// until the counter wraps.
pub proof fn lemma_ids_after_seed_are_fresh(counter: u64, max_seen: u64)
    requires
        max_seen < u64::MAX,
    ensures
        next_step(seeded(counter, max_seen)).0 > max_seen,
        next_step(seeded(counter, max_seen)).0 != 0,
{
}

/// Two ids handed out one after the other increase, unless the first is the
/// largest `u64`.
pub proof fn lemma_successive_ids_increase(counter: u64)
    requires
        next_step(counter).0 < u64::MAX,
    ensures
        next_step(next_step(counter).1).0 > next_step(counter).0,
{
}

/// A call on a counter: hand out an id, or learn the largest id in use.
pub enum CounterCall {
    Next,
    Seed(u64),
}

/// The ids a run of calls hands out, in order, and the counter after it.
pub open spec fn run_calls(counter: u64, calls: Seq<CounterCall>) -> (Seq<u64>, u64)
    decreases calls.len(),
{
    if calls.len() == 0 {
        (Seq::empty(), counter)
    } else {
        let (ids, c) = run_calls(counter, calls.drop_last());
        match calls.last() {
            CounterCall::Next => (ids.push(next_step(c).0), next_step(c).1),
            CounterCall::Seed(m) => (ids, seeded(c, m)),
        }
    }
}

/// A counter that learns the largest id in use never goes down.
pub proof fn lemma_seeding_never_lowers(counter: u64, max_seen: u64)
    ensures
        seeded(counter, max_seen) >= counter,
        seeded(counter, max_seen) >= 1,
{
}

/// Along a run of calls the ids are nonzero and increase, and the last one
/// is below the counter unless it is the largest `u64`.
proof fn lemma_run_in_order(counter: u64, calls: Seq<CounterCall>)
    requires
        forall|i: int|
            0 <= i < run_calls(counter, calls).0.len() - 1 ==> #[trigger] run_calls(
                counter,
                calls,
            ).0[i] < u64::MAX,
    ensures
        ({
            let (ids, c) = run_calls(counter, calls);
            &&& forall|i: int| 0 <= i < ids.len() ==> #[trigger] ids[i] != 0
            &&& forall|i: int, j: int| 0 <= i < j < ids.len() ==> #[trigger] ids[i] < #[trigger] ids[j]
            &&& ids.len() > 0 && ids.last() < u64::MAX ==> ids.last() < c
        }),
    decreases calls.len(),
{
    if calls.len() > 0 {
        let (ids, c) = run_calls(counter, calls.drop_last());
        let all = run_calls(counter, calls).0;
        assert(all == ids || all == ids.push(next_step(c).0));
        assert forall|i: int| 0 <= i < ids.len() - 1 implies #[trigger] ids[i] < u64::MAX by {
            assert(all[i] == ids[i]);
        }
        lemma_run_in_order(counter, calls.drop_last());
        if calls.last() is Next && ids.len() > 0 {
            assert(ids[ids.len() - 1] == all[ids.len() - 1]);
        }
    }
}

/// Ids handed out by one counter keep increasing whatever is learned in
/// between, and are never 0, as long as the counter has not wrapped: as
/// long as no id but the last is the largest `u64`.
pub proof fn lemma_ids_increase(counter: u64, calls: Seq<CounterCall>)
    requires
        forall|i: int|
            0 <= i < run_calls(counter, calls).0.len() - 1 ==> #[trigger] run_calls(
                counter,
                calls,
            ).0[i] < u64::MAX,
    ensures
        forall|i: int|
            0 <= i < run_calls(counter, calls).0.len() ==> #[trigger] run_calls(counter, calls).0[i]
                != 0,
        forall|i: int, j: int|
            0 <= i < j < run_calls(counter, calls).0.len() ==> #[trigger] run_calls(
                counter,
                calls,
            ).0[i] < #[trigger] run_calls(counter, calls).0[j],
{
    lemma_run_in_order(counter, calls);
}

/// Ids after the missing ones (0) are filled in from a counter, in order,
/// and the counter after it.
pub open spec fn filled_ids(ids: Seq<u64>, counter: u64) -> (Seq<u64>, u64)
    decreases ids.len(),
{
    if ids.len() == 0 {
        (ids, counter)
    } else {
        let (init, c) = filled_ids(ids.drop_last(), counter);
        if ids.last() == 0 {
            (init.push(next_step(c).0), next_step(c).1)
        } else {
            (init.push(ids.last()), c)
        }
    }
}

/// Filling in ids keeps the length and the ids that were there, and leaves
/// no id missing.
pub proof fn lemma_filled_ids_complete(ids: Seq<u64>, counter: u64)
    ensures
        filled_ids(ids, counter).0.len() == ids.len(),
        forall|i: int|
            0 <= i < ids.len() ==> #[trigger] filled_ids(ids, counter).0[i] != 0 && (ids[i] != 0
                ==> filled_ids(ids, counter).0[i] == ids[i]),
    decreases ids.len(),
{
    if ids.len() > 0 {
        lemma_filled_ids_complete(ids.drop_last(), counter);
        let (init, c) = filled_ids(ids.drop_last(), counter);
        assert forall|i: int| 0 <= i < ids.len() implies #[trigger] filled_ids(ids, counter).0[i]
            != 0 && (ids[i] != 0 ==> filled_ids(ids, counter).0[i] == ids[i]) by {
            if i < ids.len() - 1 {
                assert(filled_ids(ids, counter).0[i] == init[i]);
                assert(ids[i] == ids.drop_last()[i]);
            }
        }
    }
}

/// Give a fresh id to each item whose id is missing (0), in order, as
/// pasted or added notes get theirs; other ids stay.
pub fn assign_missing_ids(generator: &mut IdGenerator, ids: &mut Vec<u64>)
    ensures
        (final(ids)@, final(generator).counter()) == filled_ids(old(ids)@, old(generator).counter()),
{
    let ghost pre = ids@;
    let ghost c0 = generator.counter();
    let mut i: usize = 0;
    while i < ids.len()
        invariant
            i <= ids@.len(),
            ids@.len() == pre.len(),
            ids@.take(i as int) == filled_ids(pre.take(i as int), c0).0,
            generator.counter() == filled_ids(pre.take(i as int), c0).1,
            forall|j: int| i <= j < pre.len() ==> #[trigger] ids@[j] == pre[j],
        decreases ids@.len() - i,
    {
        proof {
            assert(pre.take(i + 1).drop_last() =~= pre.take(i as int));
            assert(pre.take(i + 1).last() == pre[i as int]);
        }
        if ids[i] == 0 {
            let id = next(generator);
            ids.set(i, id);
        }
        proof {
            assert(ids@.take(i + 1) =~= ids@.take(i as int).push(ids@[i as int]));
        }
        i = i + 1;
    }
    assert(ids@.take(ids@.len() as int) =~= ids@);
    assert(pre.take(pre.len() as int) =~= pre);
}

} // verus!
