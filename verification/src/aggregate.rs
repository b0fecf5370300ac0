//! Summing the value blocks of all registered threads.
//!
//! A metric keeps one block of slots per registered thread. What is
//! reported for a slot is the sum of that slot over all blocks, taken in
//! 64 bits: sums and additions wrap around at 2^64.
use vstd::prelude::*;
use vstd::arithmetic::div_mod::{lemma_add_mod_noop, lemma_mod_sub_multiples_vanish, lemma_small_mod};
use crate::prometheus::{prometheus_metric_family_build, record_of, MetricRecord, RecordView};
use crate::tag_map::{lists_each_once, tag_map_entries, TagSeq};
use crate::types::{MetricType, Tags};

verus! {

/// A block of 64-bit slots that belongs to one registered thread.
pub trait ValueBlock {
    /// The values of the slots, slot 0 first.
    spec fn slots(&self) -> Seq<u64>;

    /// Reads one slot.
    fn slot(&self, idx: usize) -> (value: u64)
        requires
            idx < self.slots().len(),
        ensures
            value == self.slots()[idx as int],
    ;
}

/// The slots of each of `cells`, in the order of registration.
pub open spec fn blocks_of<C: ValueBlock>(cells: Seq<C>) -> Seq<Seq<u64>> {
    Seq::new(cells.len(), |i: int| cells[i].slots())
}

/// The block of a newly registered thread: `width` slots, all zero.
pub open spec fn zeroed(width: nat) -> Seq<u64> {
    Seq::new(width, |i: int| 0u64)
}

/// A block after `inc` was added to `slot`; unchanged where the write was
/// dropped because its tags got no slot.
pub open spec fn written(block: Seq<u64>, slot: Option<usize>, inc: u64) -> Seq<u64> {
    match slot {
        Some(idx) => block.update(idx as int, block[idx as int].wrapping_add(inc)),
        None => block,
    }
}

/// The blocks after the thread of block `cell` made the write `written`.
pub open spec fn written_at(blocks: Seq<Seq<u64>>, cell: int, slot: Option<usize>, inc: u64) -> Seq<
    Seq<u64>,
> {
    blocks.update(cell, written(blocks[cell], slot, inc))
}

/// The sum of one slot over all blocks, as a number without bound.
pub open spec fn slot_total(blocks: Seq<Seq<u64>>, slot: int) -> int
    decreases blocks.len(),
{
    if blocks.len() == 0 {
        0
    } else {
        slot_total(blocks.drop_last(), slot) + blocks.last()[slot]
    }
}

/// What is reported for a total: the total modulo 2^64.
pub open spec fn reported(total: int) -> u64 {
    (total % 0x1_0000_0000_0000_0000) as u64
}

/// A total that fits in 64 bits is reported as it is.
pub proof fn lemma_reported_small(total: int)
    requires
        0 <= total <= u64::MAX,
    ensures
        reported(total) == total,
{
}

/// Adding to a reported total with wrap-around reports the larger total.
pub proof fn lemma_reported_add(total: int, inc: u64)
    ensures
        reported(total).wrapping_add(inc) == reported(total + inc),
{
    let m = 0x1_0000_0000_0000_0000int;
    let low = total % m;
    lemma_add_mod_noop(total, inc as int, m);
    lemma_small_mod(inc as nat, m as nat);
    assert((total + inc) % m == (low + inc) % m);
    if low + inc >= m {
        lemma_mod_sub_multiples_vanish(low + inc, m);
        lemma_small_mod((low + inc - m) as nat, m as nat);
    } else {
        lemma_small_mod((low + inc) as nat, m as nat);
    }
}

/// Totals that agree modulo 2^64 still agree after the same amount is
/// added to both.
pub proof fn lemma_reported_congruent(a: int, b: int, inc: int)
    requires
        reported(a) == reported(b),
    ensures
        reported(a + inc) == reported(b + inc),
{
    let m = 0x1_0000_0000_0000_0000int;
    lemma_add_mod_noop(a, inc, m);
    lemma_add_mod_noop(b, inc, m);
}

/// A new block adds its slot to the total.
pub proof fn lemma_total_push(blocks: Seq<Seq<u64>>, block: Seq<u64>, slot: int)
    ensures
        slot_total(blocks.push(block), slot) == slot_total(blocks, slot) + block[slot],
{
    assert(blocks.push(block).drop_last() =~= blocks);
}

/// Replacing one block changes the total by the difference in its slot.
pub proof fn lemma_total_update(blocks: Seq<Seq<u64>>, cell: int, block: Seq<u64>, slot: int)
    requires
        0 <= cell < blocks.len(),
    ensures
        slot_total(blocks.update(cell, block), slot) + blocks[cell][slot] == slot_total(blocks, slot)
            + block[slot],
    decreases blocks.len(),
{
    let after = blocks.update(cell, block);
    if cell == blocks.len() - 1 {
        assert(after.drop_last() =~= blocks.drop_last());
    } else {
        assert(after.drop_last() =~= blocks.drop_last().update(cell, block));
        lemma_total_update(blocks.drop_last(), cell, block, slot);
    }
}

/// A registration leaves every total as it was: the new block is zero.
pub proof fn law_register_keeps_totals(blocks: Seq<Seq<u64>>, width: nat, slot: int)
    requires
        0 <= slot < width,
    ensures
        slot_total(blocks.push(zeroed(width)), slot) == slot_total(blocks, slot),
{
    lemma_total_push(blocks, zeroed(width), slot);
}

/// A write of `inc` to a slot raises what is reported for that slot by
/// `inc`, modulo 2^64.
pub proof fn law_write_adds(blocks: Seq<Seq<u64>>, cell: int, slot: usize, inc: u64)
    requires
        0 <= cell < blocks.len(),
        slot < blocks[cell].len(),
    ensures
        reported(slot_total(written_at(blocks, cell, Some(slot), inc), slot as int)) == reported(
            slot_total(blocks, slot as int) + inc,
        ),
{
    let block = written(blocks[cell], Some(slot), inc);
    let before = blocks[cell][slot as int];
    lemma_total_update(blocks, cell, block, slot as int);
    let rest = slot_total(blocks, slot as int) - before;
    assert(slot_total(written_at(blocks, cell, Some(slot), inc), slot as int) == rest
        + before.wrapping_add(inc));
    lemma_reported_small(before as int);
    lemma_reported_add(before as int, inc);
    lemma_reported_small(before.wrapping_add(inc) as int);
    lemma_reported_congruent(before.wrapping_add(inc) as int, before + inc, rest);
}

/// A write to one slot leaves the totals of all other slots as they were,
/// and a write that was dropped leaves everything as it was.
pub proof fn law_write_keeps_other_slots(
    blocks: Seq<Seq<u64>>,
    cell: int,
    slot: usize,
    inc: u64,
    other: int,
)
    requires
        0 <= cell < blocks.len(),
        slot < blocks[cell].len(),
        0 <= other < blocks[cell].len(),
        other != slot,
    ensures
        slot_total(written_at(blocks, cell, Some(slot), inc), other) == slot_total(blocks, other),
        written_at(blocks, cell, None, inc) == blocks,
{
    lemma_total_update(blocks, cell, written(blocks[cell], Some(slot), inc), other);
    assert(written_at(blocks, cell, None, inc) =~= blocks);
}

/// Sums one slot over the blocks of all registered threads, with
/// wrap-around.
pub fn sum_slot<C: ValueBlock>(cells: &Vec<C>, slot: usize) -> (sum: u64)
    requires
        forall|i: int| 0 <= i < cells.len() ==> slot < (#[trigger] cells[i]).slots().len(),
    ensures
        sum == reported(slot_total(blocks_of(cells@), slot as int)),
{
    let ghost blocks = blocks_of(cells@);
    let mut sum: u64 = 0;
    let mut i: usize = 0;
    while i < cells.len()
        invariant
            i <= cells.len(),
            blocks == blocks_of(cells@),
            sum == reported(slot_total(blocks.take(i as int), slot as int)),
            forall|i: int| 0 <= i < cells.len() ==> slot < (#[trigger] cells[i]).slots().len(),
        decreases cells.len() - i,
    {
        let value = cells[i].slot(slot);
        proof {
            let seen = blocks.take(i as int);
            assert(blocks.take(i + 1) =~= seen.push(blocks[i as int]));
            lemma_total_push(seen, blocks[i as int], slot as int);
            lemma_reported_add(slot_total(seen, slot as int), value);
        }
        sum = sum.wrapping_add(value);
        i += 1;
    }
    assert(blocks.take(cells.len() as int) =~= blocks);
    sum
}

/// The record of the value without tags: the total of slot 0.
pub fn untagged_record<C: ValueBlock>(ty: MetricType, name: &str, cells: &Vec<C>) -> (record:
    MetricRecord)
    requires
        forall|i: int| 0 <= i < cells.len() ==> 0 < (#[trigger] cells[i]).slots().len(),
    ensures
        record@ == record_of(ty, name@, reported(slot_total(blocks_of(cells@), 0)), None),
{
    let value_sum = sum_slot(cells, 0);
    prometheus_metric_family_build(ty, name, value_sum, None)
}

/// The record of one tag combination: the total of the slot of its id,
/// labelled with the combination.
pub open spec fn tagged_record(
    name: Seq<char>,
    blocks: Seq<Seq<u64>>,
    ids: Map<TagSeq, usize>,
    tags: TagSeq,
) -> RecordView {
    record_of(
        MetricType::CounterWithTags,
        name,
        reported(slot_total(blocks, ids[tags] as int)),
        Some(tags),
    )
}

/// `records` holds the record of every combination that has an id, each
/// once, in some order.
pub open spec fn lists_tagged_records(
    records: Seq<MetricRecord>,
    name: Seq<char>,
    blocks: Seq<Seq<u64>>,
    ids: Map<TagSeq, usize>,
) -> bool {
    &&& records.len() == ids.dom().len()
    &&& forall|i: int|
        0 <= i < records.len() ==> ids.contains_key((#[trigger] records[i])@.labels)
            && records[i]@ == tagged_record(name, blocks, ids, records[i]@.labels)
    &&& forall|i: int, j: int|
        0 <= i < j < records.len() ==> (#[trigger] records[i])@.labels != (
        #[trigger] records[j])@.labels
    &&& forall|tags: TagSeq| #[trigger]
        ids.contains_key(tags) ==> exists|i: int|
            0 <= i < records.len() && (#[trigger] records[i])@.labels == tags
}

/// One record for each tag combination that the table has given an id:
/// the total of its slot over all blocks. The order is that in which the
/// table's map is walked, and means nothing.
pub fn tagged_records<C: ValueBlock>(name: &str, cells: &Vec<C>, table: &Tags) -> (records: Vec<
    MetricRecord,
>)
    requires
        table@.wf(),
        forall|i: int|
            0 <= i < cells.len() ==> table@.next_id <= (#[trigger] cells[i]).slots().len(),
    ensures
        lists_tagged_records(records@, name@, blocks_of(cells@), table@.ids),
{
    let entries = tag_map_entries(table.tags());
    let ghost ids = table@.ids;
    let ghost blocks = blocks_of(cells@);
    let mut records: Vec<MetricRecord> = Vec::new();
    let mut i: usize = 0;
    while i < entries.len()
        invariant
            i <= entries.len(),
            records.len() == i,
            ids == table@.ids,
            blocks == blocks_of(cells@),
            table@.wf(),
            lists_each_once(entries@, ids),
            forall|i: int|
                0 <= i < cells.len() ==> table@.next_id <= (#[trigger] cells[i]).slots().len(),
            forall|j: int|
                0 <= j < i ==> (#[trigger] records[j])@ == tagged_record(
                    name@,
                    blocks,
                    ids,
                    entries[j].0.deep_view(),
                ),
        decreases entries.len() - i,
    {
        let id = entries[i].1;
        let tags = entries[i].0.as_slice();
        assert(tags.deep_view() =~= entries[i as int].0.deep_view());
        assert(ids.contains_key(entries[i as int].0.deep_view()));
        let value_sum_tag = sum_slot(cells, id);
        let record = prometheus_metric_family_build(
            MetricType::CounterWithTags,
            name,
            value_sum_tag,
            Some(tags),
        );
        records.push(record);
        i += 1;
    }
    proof {
        assert forall|j: int| 0 <= j < records.len() implies (#[trigger] records[j])@.labels
            == entries[j].0.deep_view() by {}
        assert forall|tags: TagSeq| #[trigger] ids.contains_key(tags) implies exists|j: int|
            0 <= j < records.len() && (#[trigger] records[j])@.labels == tags by {
            let j = choose|j: int|
                0 <= j < entries.len() && (#[trigger] entries[j]).0.deep_view() == tags;
            assert(records[j]@.labels == tags);
        }
    }
    records
}

} // verus!
