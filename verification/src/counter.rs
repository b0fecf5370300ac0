//! The counter: its value cell and its writer handle.
//!
//! A cell is a block of `MAX_TAGS` slots on the heap, one block per
//! registered thread. Slot 0 counts what comes without tags, and each tag
//! combination that has an id counts in the slot of that id. The handle is
//! what a thread writes through: it knows which cell is its own and keeps a
//! cache of the ids it has been told.
use vstd::prelude::*;
use crate::aggregate::{written, zeroed, ValueBlock};
use crate::prometheus::tags_of;
use crate::tag_map::{tag_ids, tag_map_get, tag_map_insert, tag_map_new, TagMap, TagSeq};
use crate::types::{cache_fits, lemma_resolve_fits, resolve, Resolution, TagTable, Tags};

verus! {

/// The slots of one thread's counter.
pub struct CounterCell<const MAX_TAGS: usize> {
    values: [u64; MAX_TAGS],
}

impl<const MAX_TAGS: usize> View for CounterCell<MAX_TAGS> {
    type V = Seq<u64>;

    closed spec fn view(&self) -> Seq<u64> {
        self.values@
    }
}

impl<const MAX_TAGS: usize> Default for CounterCell<MAX_TAGS> {
    /// A cell with every slot at zero.
    fn default() -> (cell: Self)
        ensures
            cell@ == zeroed(MAX_TAGS as nat),
    {
        let cell = CounterCell { values: [0;MAX_TAGS] };
        assert(cell@ =~= zeroed(MAX_TAGS as nat));
        cell
    }
}

impl<const MAX_TAGS: usize> CounterCell<MAX_TAGS> {
    /// Reads one slot.
    pub fn get(&self, idx: usize) -> (value: u64)
        requires
            idx < MAX_TAGS,
        ensures
            value == self@[idx as int],
    {
        self.values[idx]
    }

    /// The slots, for the one writer of this cell.
    pub fn as_mut_ptr(&mut self) -> (slots: &mut [u64; MAX_TAGS])
        ensures
            slots@ == old(self)@,
            final(self)@ == final(slots)@,
    {
        &mut self.values
    }
}

/// One thread's counter cell, in a heap allocation of its own: the cell
/// stays where it is when the collection that holds it grows.
pub struct CounterPin<const MAX_TAGS: usize> {
    values: Box<CounterCell<MAX_TAGS>>,
}

impl<const MAX_TAGS: usize> View for CounterPin<MAX_TAGS> {
    type V = Seq<u64>;

    closed spec fn view(&self) -> Seq<u64> {
        self.values@
    }
}

impl<const MAX_TAGS: usize> CounterPin<MAX_TAGS> {
    /// The cell has `MAX_TAGS` slots.
    pub proof fn lemma_width(&self)
        ensures
            self@.len() == MAX_TAGS,
    {
    }

    /// Reads one slot.
    pub fn get(&self, idx: usize) -> (value: u64)
        requires
            idx < MAX_TAGS,
        ensures
            value == self@[idx as int],
    {
        self.values.get(idx)
    }

    /// The slots, for the one writer of this cell.
    pub fn as_mut_ptr(&mut self) -> (slots: &mut [u64; MAX_TAGS])
        ensures
            slots@ == old(self)@,
            final(self)@ == final(slots)@,
    {
        self.values.as_mut_ptr()
    }
}

impl<const MAX_TAGS: usize> Default for CounterPin<MAX_TAGS> {
    /// A cell with every slot at zero.
    fn default() -> (cell: Self)
        ensures
            cell@ == zeroed(MAX_TAGS as nat),
    {
        Self { values: Box::new(CounterCell::default()) }
    }
}

impl<const MAX_TAGS: usize> ValueBlock for CounterPin<MAX_TAGS> {
    open spec fn slots(&self) -> Seq<u64> {
        self@
    }

    fn slot(&self, idx: usize) -> (value: u64) {
        proof {
            self.lemma_width();
        }
        self.get(idx)
    }
}

/// What an `add` with these tags comes to: without tags it goes to slot 0
/// and asks nothing, with tags it asks for their slot.
pub open spec fn counter_write(
    cache: Map<TagSeq, usize>,
    table: TagTable,
    tags: Option<TagSeq>,
) -> Resolution {
    match tags {
        Some(tags) => resolve(cache, table, tags),
        None => Resolution { slot: Some(0), cache, table },
    }
}

/// The writer handle of one thread's counter.
///
/// It is not `Clone`: a cell has one writer.
pub struct Counter<const MAX_TAGS: usize> {
    // which of the registered cells this handle writes to
    cell: usize,
    // local cache for mapping tags to id
    tags: TagMap,
}

impl<const MAX_TAGS: usize> Counter<MAX_TAGS> {
    /// The position of the handle's cell among the registered cells.
    pub closed spec fn spec_cell(&self) -> usize {
        self.cell
    }

    /// The ids that the handle has been told so far.
    pub closed spec fn cache(&self) -> Map<TagSeq, usize> {
        tag_ids(self.tags)
    }

    /// Every id in the cache is a slot of the cell.
    pub open spec fn wf(&self) -> bool {
        cache_fits(self.cache(), MAX_TAGS)
    }

    /// A handle for the cell registered at position `cell`, with an empty
    /// cache.
    pub fn new(cell: usize) -> (handle: Self)
        ensures
            handle.spec_cell() == cell,
            handle.cache() == (Map::<TagSeq, usize>::empty()),
            handle.wf(),
    {
        Counter { cell, tags: tag_map_new() }
    }

    /// The position of the handle's cell among the registered cells.
    #[verifier::when_used_as_spec(spec_cell)]
    pub fn cell(&self) -> (cell: usize)
        ensures
            cell == self.spec_cell(),
    {
        self.cell
    }

    /// The slot of `tags`: from the local cache, or else from the shared
    /// table, which is looked up first and asked for a new id only then.
    pub fn tags_get(&mut self, table: &mut Tags, tags: &[(String, String)]) -> (slot: Option<usize>)
        ensures
            slot == resolve(old(self).cache(), old(table)@, tags.deep_view()).slot,
            final(self).cache() == resolve(old(self).cache(), old(table)@, tags.deep_view()).cache,
            final(table)@ == resolve(old(self).cache(), old(table)@, tags.deep_view()).table,
            final(self).spec_cell() == old(self).spec_cell(),
    {
        // try local cache first
        if let Some(id) = tag_map_get(&self.tags, tags) {
            return Some(id);
        }
        if let Some(id) = table.get_or_insert(tags) {
            tag_map_insert(&mut self.tags, tags, id);
            return Some(id);
        }
        None
    }

    /// Adds `inc` to the slot of `tags` in the handle's cell, with
    /// wrap-around; without tags, to slot 0. Where the tags have no id and
    /// the table is full, nothing is written.
    pub fn add(
        &mut self,
        cell: &mut CounterPin<MAX_TAGS>,
        table: &mut Tags,
        inc: u64,
        tags: Option<&[(String, String)]>,
    )
        requires
            0 < MAX_TAGS,
            old(self).wf(),
            old(table)@.wf(),
            old(table)@.max_id <= MAX_TAGS,
        ensures
            final(cell)@ == written(
                old(cell)@,
                counter_write(old(self).cache(), old(table)@, tags_of(tags)).slot,
                inc,
            ),
            final(self).cache() == counter_write(old(self).cache(), old(table)@, tags_of(tags)).cache,
            final(table)@ == counter_write(old(self).cache(), old(table)@, tags_of(tags)).table,
            final(self).spec_cell() == old(self).spec_cell(),
            final(self).wf(),
            final(table)@.wf(),
            final(table)@.max_id == old(table)@.max_id,
    {
        let idx = if let Some(tags) = tags {
            proof {
                lemma_resolve_fits(self.cache(), table@, tags.deep_view(), MAX_TAGS);
            }
            if let Some(idx) = self.tags_get(table, tags) {
                idx
            } else {
                return ;
            }
        } else {
            0
        };
        let slots = cell.as_mut_ptr();
        slots[idx] = slots[idx].wrapping_add(inc);
    }
}

} // verus!
