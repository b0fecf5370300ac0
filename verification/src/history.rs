//! What the cells of a counter hold after a history of registrations and
//! writes without tags, and what a snapshot then reports.
use vstd::prelude::*;
use vstd::arithmetic::mul::{lemma_mul_basics, lemma_mul_is_distributive_add_other_way};
use crate::aggregate::{
    law_register_keeps_totals,
    law_write_adds,
    lemma_reported_congruent,
    lemma_reported_small,
    lemma_total_update,
    reported,
    slot_total,
    written_at,
    zeroed,
};
use crate::factory::set_at;

verus! {

/// One step in the life of a counter.
pub enum Event {
    /// A thread registers and gets the next cell.
    Register,
    /// The thread of cell `thread` adds `amount`, without tags.
    Add { thread: int, amount: u64 },
}

/// The blocks, each of `width` slots, after `events` happened to a counter
/// that started with no registered thread.
pub open spec fn replay(events: Seq<Event>, width: nat) -> Seq<Seq<u64>>
    decreases events.len(),
{
    if events.len() == 0 {
        Seq::empty()
    } else {
        let before = replay(events.drop_last(), width);
        match events.last() {
            Event::Register => before.push(zeroed(width)),
            Event::Add { thread, amount } => written_at(before, thread, Some(0usize), amount),
        }
    }
}

/// Every write is made by a thread that has registered before.
pub open spec fn in_order(events: Seq<Event>, width: nat) -> bool
    decreases events.len(),
{
    events.len() == 0 || (in_order(events.drop_last(), width) && match events.last() {
        Event::Register => true,
        Event::Add { thread, amount } => 0 <= thread < replay(events.drop_last(), width).len(),
    })
}

/// The sum of all amounts that were added.
pub open spec fn amounts(events: Seq<Event>) -> int
    decreases events.len(),
{
    if events.len() == 0 {
        0
    } else {
        amounts(events.drop_last()) + match events.last() {
            Event::Register => 0,
            Event::Add { thread, amount } => amount as int,
        }
    }
}

/// The sum of the amounts that one thread added.
pub open spec fn sent_by(events: Seq<Event>, thread: int) -> int
    decreases events.len(),
{
    if events.len() == 0 {
        0
    } else {
        sent_by(events.drop_last(), thread) + match events.last() {
            Event::Add { thread: writer, amount } if writer == thread => amount as int,
            _ => 0,
        }
    }
}

/// The sum of what each of the first `threads` threads added.
pub open spec fn sent_by_all(events: Seq<Event>, threads: nat) -> int
    decreases threads,
{
    if threads == 0 {
        0
    } else {
        sent_by_all(events, (threads - 1) as nat) + sent_by(events, threads - 1)
    }
}

/// Every block of a replayed history has `width` slots.
pub proof fn lemma_replay_width(events: Seq<Event>, width: nat)
    requires
        in_order(events, width),
        0 < width,
    ensures
        forall|i: int|
            0 <= i < replay(events, width).len() ==> (#[trigger] replay(events, width)[i]).len()
                == width,
    decreases events.len(),
{
    if events.len() > 0 {
        lemma_replay_width(events.drop_last(), width);
    }
}

/// After any history of registrations and writes without tags, what a
/// snapshot reports for the counter is the sum of all amounts added by all
/// threads, modulo 2^64; it is that sum itself where the sum fits in 64
/// bits.
pub proof fn law_counter_total(events: Seq<Event>, width: nat)
    requires
        in_order(events, width),
        0 < width,
    ensures
        reported(slot_total(replay(events, width), 0)) == reported(amounts(events)),
        amounts(events) <= u64::MAX ==> reported(slot_total(replay(events, width), 0)) == amounts(
            events,
        ),
    decreases events.len(),
{
    lemma_amounts_not_negative(events);
    if events.len() > 0 {
        let earlier = events.drop_last();
        let before = replay(earlier, width);
        law_counter_total(earlier, width);
        lemma_replay_width(earlier, width);
        match events.last() {
            Event::Register => {
                law_register_keeps_totals(before, width, 0);
            },
            Event::Add { thread, amount } => {
                law_write_adds(before, thread, 0, amount);
                lemma_reported_congruent(slot_total(before, 0), amounts(earlier), amount as int);
            },
        }
    }
    if amounts(events) <= u64::MAX {
        lemma_reported_small(amounts(events));
    }
}

/// A sum of amounts is not negative.
pub proof fn lemma_amounts_not_negative(events: Seq<Event>)
    ensures
        0 <= amounts(events),
    decreases events.len(),
{
    if events.len() > 0 {
        lemma_amounts_not_negative(events.drop_last());
    }
}

/// The last event adds its amount to the share of its thread and to no
/// other.
proof fn lemma_sent_by_all_step(events: Seq<Event>, threads: nat)
    requires
        events.len() > 0,
    ensures
        sent_by_all(events, threads) == sent_by_all(events.drop_last(), threads) + match events.last() {
            Event::Add { thread, amount } if 0 <= thread < threads => amount as int,
            _ => 0,
        },
    decreases threads,
{
    if threads > 0 {
        lemma_sent_by_all_step(events, (threads - 1) as nat);
    }
}

/// No thread has added anything before the first event.
proof fn lemma_sent_by_all_empty(events: Seq<Event>, threads: nat)
    requires
        events.len() == 0,
    ensures
        sent_by_all(events, threads) == 0,
    decreases threads,
{
    if threads > 0 {
        lemma_sent_by_all_empty(events, (threads - 1) as nat);
    }
}

/// The amounts of a history are the shares of its threads taken together.
pub proof fn lemma_amounts_by_thread(events: Seq<Event>, width: nat, threads: nat)
    requires
        in_order(events, width),
        replay(events, width).len() <= threads,
    ensures
        amounts(events) == sent_by_all(events, threads),
    decreases events.len(),
{
    if events.len() == 0 {
        lemma_sent_by_all_empty(events, threads);
    } else {
        lemma_amounts_by_thread(events.drop_last(), width, threads);
        lemma_sent_by_all_step(events, threads);
    }
}

/// Threads that each added `each` have added `threads * each` together.
proof fn lemma_equal_shares(events: Seq<Event>, threads: nat, each: int)
    requires
        forall|thread: int| 0 <= thread < threads ==> sent_by(events, thread) == each,
    ensures
        sent_by_all(events, threads) == threads * each,
    decreases threads,
{
    if threads > 0 {
        lemma_equal_shares(events, (threads - 1) as nat, each);
        lemma_mul_is_distributive_add_other_way(each, threads - 1, 1);
        assert((threads - 1 + 1) * each == (threads - 1) * each + 1 * each);
    } else {
        lemma_mul_basics(each);
    }
}

/// Where each of `threads` registered threads has added `each` in all, one
/// increment at a time or otherwise and in whatever order the threads took
/// turns, a snapshot reports `threads * each`, modulo 2^64.
pub proof fn law_equal_shares(events: Seq<Event>, width: nat, threads: nat, each: int)
    requires
        in_order(events, width),
        0 < width,
        replay(events, width).len() == threads,
        forall|thread: int| 0 <= thread < threads ==> sent_by(events, thread) == each,
    ensures
        amounts(events) == threads * each,
        reported(slot_total(replay(events, width), 0)) == reported(threads * each),
        threads * each <= u64::MAX ==> reported(slot_total(replay(events, width), 0)) == threads
            * each,
{
    lemma_amounts_by_thread(events, width, threads);
    lemma_equal_shares(events, threads, each);
    law_counter_total(events, width);
}

/// After a gauge is set, the total of all gauges is the value that was set
/// plus the gauges of the other threads, whatever the gauge held before:
/// the same as if it had held `earlier`. Where all other gauges are zero,
/// the snapshot reports the value that was set.
pub proof fn law_gauge_set_forgets(blocks: Seq<Seq<u64>>, cell: int, earlier: u64, value: u64)
    requires
        0 <= cell < blocks.len(),
    ensures
        set_at(blocks, cell, value) == set_at(set_at(blocks, cell, earlier), cell, value),
        set_at(set_at(blocks, cell, value), cell, value) == set_at(blocks, cell, value),
        slot_total(set_at(blocks, cell, value), 0) == slot_total(set_at(blocks, cell, 0), 0)
            + value,
        (forall|i: int| 0 <= i < blocks.len() && i != cell ==> (#[trigger] blocks[i])[0] == 0)
            ==> reported(slot_total(set_at(blocks, cell, value), 0)) == value,
{
    assert(set_at(blocks, cell, value) =~= set_at(set_at(blocks, cell, earlier), cell, value));
    assert(set_at(set_at(blocks, cell, value), cell, value) =~= set_at(blocks, cell, value));
    lemma_total_update(blocks, cell, seq![value], 0);
    lemma_total_update(blocks, cell, seq![0u64], 0);
    if forall|i: int| 0 <= i < blocks.len() && i != cell ==> (#[trigger] blocks[i])[0] == 0 {
        lemma_total_of_zeros(set_at(blocks, cell, 0));
        lemma_reported_small(value as int);
    }
}

/// Blocks whose first slot is zero throughout have the total zero.
proof fn lemma_total_of_zeros(blocks: Seq<Seq<u64>>)
    requires
        forall|i: int| 0 <= i < blocks.len() ==> (#[trigger] blocks[i])[0] == 0,
    ensures
        slot_total(blocks, 0) == 0,
    decreases blocks.len(),
{
    if blocks.len() > 0 {
        lemma_total_of_zeros(blocks.drop_last());
    }
}

} // verus!
