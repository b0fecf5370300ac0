//! The factories: one per metric, each the owner of the value cells of all
//! registered threads.
//!
//! A thread registers once and gets a writer handle that is bound to a new
//! cell. Cells are only ever appended, so the position of a cell, which is
//! what its handle remembers, stays good for the life of the factory. A
//! snapshot sums every slot over all cells.
use vstd::prelude::*;
use crate::aggregate::{
    blocks_of,
    lists_tagged_records,
    reported,
    slot_total,
    tagged_records,
    untagged_record,
    written_at,
    zeroed,
    ValueBlock,
};
use crate::counter::{counter_write, Counter, CounterPin};
use crate::counter_with_tags::{tagged_write, CounterWithTags, CounterWithTagsPin};
use crate::gauge::{Gauge, GaugePin};
use crate::prometheus::{record_of, tags_of, MetricRecord};
use crate::tag_map::TagSeq;
use crate::types::{MetricType, TagTable, Tags};

verus! {

/// The factory of a counter whose samples may come with or without tags.
pub struct CounterFactory<const MAX_TAGS: usize> {
    name: String,
    per_thread_metrics: Vec<CounterPin<MAX_TAGS>>,
    tags: Tags,
}

impl<const MAX_TAGS: usize> CounterFactory<MAX_TAGS> {
    /// The name of the metric.
    pub closed spec fn name(&self) -> Seq<char> {
        self.name@
    }

    /// The slots of every registered cell, in the order of registration.
    pub closed spec fn blocks(&self) -> Seq<Seq<u64>> {
        blocks_of(self.per_thread_metrics@)
    }

    /// The tag table of the metric.
    pub closed spec fn table(&self) -> TagTable {
        self.tags@
    }

    /// A cell has at least one slot, and the table gives out no id that
    /// is not a slot.
    pub open spec fn wf(&self) -> bool {
        &&& 0 < MAX_TAGS
        &&& self.table().wf()
        &&& self.table().max_id == MAX_TAGS
    }

    /// Every registered cell has `MAX_TAGS` slots.
    pub proof fn lemma_blocks_width(&self)
        ensures
            forall|i: int|
                0 <= i < self.blocks().len() ==> (#[trigger] self.blocks()[i]).len() == MAX_TAGS,
    {
        assert forall|i: int| 0 <= i < self.blocks().len() implies (#[trigger] self.blocks()[i]).len()
            == MAX_TAGS by {
            self.per_thread_metrics[i].lemma_width();
        }
    }

    /// A factory with no registered thread and an empty tag table.
    pub fn new(name: &str) -> (factory: Self)
        requires
            0 < MAX_TAGS,
        ensures
            factory.wf(),
            factory.name() == name@,
            factory.blocks() == Seq::<Seq<u64>>::empty(),
            factory.table() == TagTable::empty(MAX_TAGS),
    {
        let factory = Self {
            name: name.to_owned(),
            per_thread_metrics: Vec::new(),
            tags: Tags::new(MAX_TAGS),
        };
        assert(factory.blocks() =~= Seq::<Seq<u64>>::empty());
        factory
    }

    /// Registers a thread: appends a cell of zeros and returns the handle
    /// that is bound to it.
    pub fn register(&mut self) -> (handle: Counter<MAX_TAGS>)
        requires
            old(self).wf(),
        ensures
            final(self).wf(),
            final(self).blocks() == old(self).blocks().push(zeroed(MAX_TAGS as nat)),
            final(self).name() == old(self).name(),
            final(self).table() == old(self).table(),
            handle.spec_cell() == old(self).blocks().len(),
            handle.cache() == (Map::<TagSeq, usize>::empty()),
            handle.wf(),
    {
        let position = self.per_thread_metrics.len();
        self.per_thread_metrics.push(CounterPin::default());
        assert(self.blocks() =~= old(self).blocks().push(zeroed(MAX_TAGS as nat)));
        Counter::new(position)
    }

    /// The cells of all registered threads, to be read for a snapshot.
    pub fn threads(&self) -> (cells: &Vec<CounterPin<MAX_TAGS>>)
        ensures
            blocks_of(cells@) == self.blocks(),
    {
        &self.per_thread_metrics
    }

    /// The tag table of the metric.
    pub fn tags(&self) -> (table: &Tags)
        ensures
            table@ == self.table(),
    {
        &self.tags
    }

    /// The id of `tags` in the metric's table, new if need be and if the
    /// table is not full.
    pub fn tags_get(&mut self, tags: &[(String, String)]) -> (id: Option<usize>)
        requires
            old(self).wf(),
        ensures
            final(self).wf(),
            final(self).table() == old(self).table().allocate(tags.deep_view()).0,
            id == old(self).table().allocate(tags.deep_view()).1,
            final(self).blocks() == old(self).blocks(),
            final(self).name() == old(self).name(),
    {
        self.tags.get_or_insert(tags)
    }

    /// The write of the thread that holds `handle`: adds `inc` to the slot
    /// of `tags` in the handle's cell, or to slot 0 without tags, and
    /// writes nothing where the tags get no slot.
    pub fn add(&mut self, handle: &mut Counter<MAX_TAGS>, inc: u64, tags: Option<&[(String, String)]>)
        requires
            old(self).wf(),
            old(handle).wf(),
            old(handle).spec_cell() < old(self).blocks().len(),
        ensures
            final(self).wf(),
            final(handle).wf(),
            final(self).blocks() == written_at(
                old(self).blocks(),
                old(handle).spec_cell() as int,
                counter_write(old(handle).cache(), old(self).table(), tags_of(tags)).slot,
                inc,
            ),
            final(handle).cache() == counter_write(
                old(handle).cache(),
                old(self).table(),
                tags_of(tags),
            ).cache,
            final(self).table() == counter_write(
                old(handle).cache(),
                old(self).table(),
                tags_of(tags),
            ).table,
            final(self).name() == old(self).name(),
            final(handle).spec_cell() == old(handle).spec_cell(),
    {
        let position = handle.cell();
        handle.add(&mut self.per_thread_metrics[position], &mut self.tags, inc, tags);
        proof {
            let slot = counter_write(old(handle).cache(), old(self).table(), tags_of(tags)).slot;
            assert(self.blocks() =~= written_at(old(self).blocks(), position as int, slot, inc));
        }
    }

    /// The snapshot of the metric: first the record of the value without
    /// tags, then one record for each tag combination that has an id, in
    /// no particular order.
    pub fn metrics(&self) -> (records: Vec<MetricRecord>)
        requires
            self.wf(),
        ensures
            records.len() == 1 + self.table().ids.dom().len(),
            records[0]@ == record_of(
                MetricType::Counter,
                self.name(),
                reported(slot_total(self.blocks(), 0)),
                None,
            ),
            lists_tagged_records(
                records@.subrange(1, records.len() as int),
                self.name(),
                self.blocks(),
                self.table().ids,
            ),
    {
        proof {
            self.lemma_blocks_width();
            assert forall|i: int| 0 <= i < self.per_thread_metrics.len() implies (
            #[trigger] self.per_thread_metrics[i]).slots().len() == MAX_TAGS by {
                assert(self.blocks()[i].len() == MAX_TAGS);
            }
        }
        let mut records: Vec<MetricRecord> = Vec::new();
        records.push(untagged_record(MetricType::Counter, self.name.as_str(), &self.per_thread_metrics));
        // then other tags

        let mut tagged = tagged_records(self.name.as_str(), &self.per_thread_metrics, &self.tags);
        let ghost listed = tagged@;
        records.append(&mut tagged);
        assert(records@.subrange(1, records.len() as int) =~= listed);
        records
    }
}

/// The factory of a counter whose every sample names its tags.
pub struct CounterWithTagsFactory<const MAX_TAGS: usize> {
    name: String,
    per_thread_metrics: Vec<CounterWithTagsPin<MAX_TAGS>>,
    tags: Tags,
}

impl<const MAX_TAGS: usize> CounterWithTagsFactory<MAX_TAGS> {
    /// The name of the metric.
    pub closed spec fn name(&self) -> Seq<char> {
        self.name@
    }

    /// The slots of every registered cell, in the order of registration.
    pub closed spec fn blocks(&self) -> Seq<Seq<u64>> {
        blocks_of(self.per_thread_metrics@)
    }

    /// The tag table of the metric.
    pub closed spec fn table(&self) -> TagTable {
        self.tags@
    }

    /// A cell has at least one slot, and the table gives out no id that
    /// is not a slot.
    pub open spec fn wf(&self) -> bool {
        &&& 0 < MAX_TAGS
        &&& self.table().wf()
        &&& self.table().max_id == MAX_TAGS
    }

    /// Every registered cell has `MAX_TAGS` slots.
    pub proof fn lemma_blocks_width(&self)
        ensures
            forall|i: int|
                0 <= i < self.blocks().len() ==> (#[trigger] self.blocks()[i]).len() == MAX_TAGS,
    {
        assert forall|i: int| 0 <= i < self.blocks().len() implies (#[trigger] self.blocks()[i]).len()
            == MAX_TAGS by {
            self.per_thread_metrics[i].lemma_width();
        }
    }

    /// A factory with no registered thread and an empty tag table.
    pub fn new(name: &str) -> (factory: Self)
        requires
            0 < MAX_TAGS,
        ensures
            factory.wf(),
            factory.name() == name@,
            factory.blocks() == Seq::<Seq<u64>>::empty(),
            factory.table() == TagTable::empty(MAX_TAGS),
    {
        let factory = Self {
            name: name.to_owned(),
            per_thread_metrics: Vec::new(),
            tags: Tags::new(MAX_TAGS),
        };
        assert(factory.blocks() =~= Seq::<Seq<u64>>::empty());
        factory
    }

    /// Registers a thread: appends a cell of zeros and returns the handle
    /// that is bound to it.
    pub fn register(&mut self) -> (handle: CounterWithTags<MAX_TAGS>)
        requires
            old(self).wf(),
        ensures
            final(self).wf(),
            final(self).blocks() == old(self).blocks().push(zeroed(MAX_TAGS as nat)),
            final(self).name() == old(self).name(),
            final(self).table() == old(self).table(),
            handle.spec_cell() == old(self).blocks().len(),
            handle.cache() == (Map::<TagSeq, usize>::empty()),
            handle.wf(),
    {
        let position = self.per_thread_metrics.len();
        self.per_thread_metrics.push(CounterWithTagsPin::default());
        assert(self.blocks() =~= old(self).blocks().push(zeroed(MAX_TAGS as nat)));
        CounterWithTags::new(position)
    }

    /// The cells of all registered threads, to be read for a snapshot.
    pub fn threads(&self) -> (cells: &Vec<CounterWithTagsPin<MAX_TAGS>>)
        ensures
            blocks_of(cells@) == self.blocks(),
    {
        &self.per_thread_metrics
    }

    /// The tag table of the metric.
    pub fn tags(&self) -> (table: &Tags)
        ensures
            table@ == self.table(),
    {
        &self.tags
    }

    /// The id of `tags` in the metric's table, new if need be and if the
    /// table is not full.
    pub fn tags_get(&mut self, tags: &[(String, String)]) -> (id: Option<usize>)
        requires
            old(self).wf(),
        ensures
            final(self).wf(),
            final(self).table() == old(self).table().allocate(tags.deep_view()).0,
            id == old(self).table().allocate(tags.deep_view()).1,
            final(self).blocks() == old(self).blocks(),
            final(self).name() == old(self).name(),
    {
        self.tags.get_or_insert(tags)
    }

    /// The write of the thread that holds `handle`: adds `inc` to the slot
    /// of `tags` in the handle's cell, and writes nothing where the tags
    /// get no slot.
    pub fn add(&mut self, handle: &mut CounterWithTags<MAX_TAGS>, inc: u64, tags: &[(String, String)])
        requires
            old(self).wf(),
            old(handle).wf(),
            old(handle).spec_cell() < old(self).blocks().len(),
        ensures
            final(self).wf(),
            final(handle).wf(),
            final(self).blocks() == written_at(
                old(self).blocks(),
                old(handle).spec_cell() as int,
                tagged_write(old(handle).cache(), old(self).table(), tags.deep_view()).slot,
                inc,
            ),
            final(handle).cache() == tagged_write(
                old(handle).cache(),
                old(self).table(),
                tags.deep_view(),
            ).cache,
            final(self).table() == tagged_write(
                old(handle).cache(),
                old(self).table(),
                tags.deep_view(),
            ).table,
            final(self).name() == old(self).name(),
            final(handle).spec_cell() == old(handle).spec_cell(),
    {
        let position = handle.cell();
        handle.add(&mut self.per_thread_metrics[position], &mut self.tags, inc, tags);
        proof {
            let slot = tagged_write(old(handle).cache(), old(self).table(), tags.deep_view()).slot;
            assert(self.blocks() =~= written_at(old(self).blocks(), position as int, slot, inc));
        }
    }

    /// The snapshot of the metric: first the record of the value without
    /// tags, then one record for each tag combination that has an id, in
    /// no particular order.
    pub fn metrics(&self) -> (records: Vec<MetricRecord>)
        requires
            self.wf(),
        ensures
            records.len() == 1 + self.table().ids.dom().len(),
            records[0]@ == record_of(
                MetricType::CounterWithTags,
                self.name(),
                reported(slot_total(self.blocks(), 0)),
                None,
            ),
            lists_tagged_records(
                records@.subrange(1, records.len() as int),
                self.name(),
                self.blocks(),
                self.table().ids,
            ),
    {
        proof {
            self.lemma_blocks_width();
            assert forall|i: int| 0 <= i < self.per_thread_metrics.len() implies (
            #[trigger] self.per_thread_metrics[i]).slots().len() == MAX_TAGS by {
                assert(self.blocks()[i].len() == MAX_TAGS);
            }
        }
        let mut records: Vec<MetricRecord> = Vec::new();
        records.push(untagged_record(
            MetricType::CounterWithTags,
            self.name.as_str(), &self.per_thread_metrics));
        // then other tags

        let mut tagged = tagged_records(self.name.as_str(), &self.per_thread_metrics, &self.tags);
        let ghost listed = tagged@;
        records.append(&mut tagged);
        assert(records@.subrange(1, records.len() as int) =~= listed);
        records
    }
}

/// The blocks after the gauge of block `cell` was set to `value`.
pub open spec fn set_at(blocks: Seq<Seq<u64>>, cell: int, value: u64) -> Seq<Seq<u64>> {
    blocks.update(cell, seq![value])
}

/// The factory of a gauge.
pub struct GaugeFactory {
    name: String,
    per_thread_metrics: Vec<GaugePin>,
}

impl GaugeFactory {
    /// The name of the metric.
    pub closed spec fn name(&self) -> Seq<char> {
        self.name@
    }

    /// The value of every registered cell as a block of one slot, in the
    /// order of registration.
    pub closed spec fn blocks(&self) -> Seq<Seq<u64>> {
        blocks_of(self.per_thread_metrics@)
    }

    /// A factory with no registered thread.
    pub fn new(name: &str) -> (factory: Self)
        ensures
            factory.name() == name@,
            factory.blocks() == Seq::<Seq<u64>>::empty(),
    {
        let factory = Self { name: name.to_owned(), per_thread_metrics: Vec::new() };
        assert(factory.blocks() =~= Seq::<Seq<u64>>::empty());
        factory
    }

    /// Registers a thread: appends a cell that holds zero and returns the
    /// handle that is bound to it.
    pub fn register(&mut self) -> (handle: Gauge)
        ensures
            final(self).blocks() == old(self).blocks().push(zeroed(1)),
            final(self).name() == old(self).name(),
            handle.spec_cell() == old(self).blocks().len(),
    {
        let position = self.per_thread_metrics.len();
        self.per_thread_metrics.push(GaugePin::default());
        assert(seq![0u64] =~= zeroed(1));
        assert(self.blocks() =~= old(self).blocks().push(zeroed(1)));
        Gauge::new(position)
    }

    /// The cells of all registered threads, to be read for a snapshot.
    pub fn threads(&self) -> (cells: &Vec<GaugePin>)
        ensures
            blocks_of(cells@) == self.blocks(),
    {
        &self.per_thread_metrics
    }

    /// The write of the thread that holds `handle`: its gauge becomes
    /// `value`, whatever it was.
    pub fn set(&mut self, handle: &mut Gauge, value: u64)
        requires
            old(handle).spec_cell() < old(self).blocks().len(),
        ensures
            final(self).blocks() == set_at(old(self).blocks(), old(handle).spec_cell() as int, value),
            final(self).name() == old(self).name(),
            final(handle).spec_cell() == old(handle).spec_cell(),
    {
        let position = handle.cell();
        handle.set(&mut self.per_thread_metrics[position], value);
        assert(self.blocks() =~= set_at(old(self).blocks(), position as int, value));
    }

    /// The snapshot of the metric: one record, the sum of the gauges of
    /// all registered threads.
    pub fn metrics(&self) -> (records: Vec<MetricRecord>)
        ensures
            records.len() == 1,
            records[0]@ == record_of(
                MetricType::Gauge,
                self.name(),
                reported(slot_total(self.blocks(), 0)),
                None,
            ),
    {
        let mut records: Vec<MetricRecord> = Vec::new();
        records.push(untagged_record(MetricType::Gauge, self.name.as_str(), &self.per_thread_metrics));
        records
    }
}

} // verus!
