//! The metric kinds and the tag table.
//!
//! A tag table gives every tag combination it has seen a slot id of its
//! own. Id 0 belongs to the empty combination, the ids from 1 on are handed
//! out in the order of first request, and no id at or above the table's
//! `max_id` is ever handed out: once the table is full, a combination it
//! has not seen gets no id.
use vstd::prelude::*;
use crate::tag_map::{tag_ids, tag_map_get, tag_map_insert, tag_map_new, TagMap, TagSeq};

verus! {

/// How a metric is declared.
pub enum MetricType {
    Counter,
    Gauge,
    CounterWithTags,
}

/// What a tag table holds, as contracts see it.
pub struct TagTable {
    /// The id of every non-empty combination seen so far.
    pub ids: Map<TagSeq, usize>,
    /// The id that the next new combination gets.
    pub next_id: usize,
    /// The bound below which all ids stay.
    pub max_id: usize,
}

impl TagTable {
    /// The table before any request.
    pub open spec fn empty(max_id: usize) -> TagTable {
        TagTable { ids: Map::empty(), next_id: 1, max_id }
    }

    /// The ids from 1 up to `next_id` are in use, each by one combination,
    /// and `next_id` has not passed `max_id`.
    pub open spec fn wf(self) -> bool {
        &&& self.ids.dom().finite()
        &&& self.ids.dom().len() + 1 == self.next_id
        &&& self.next_id <= self.max_id || self.next_id == 1
        &&& !self.ids.contains_key(Seq::empty())
        &&& forall|tags: TagSeq| #[trigger]
            self.ids.contains_key(tags) ==> 1 <= self.ids[tags] < self.next_id
        &&& forall|a: TagSeq, b: TagSeq|
            #![trigger self.ids[a], self.ids[b]]
            self.ids.contains_key(a) && self.ids.contains_key(b) && self.ids[a] == self.ids[b]
                ==> a == b
    }

    /// No id is left for a new combination.
    pub open spec fn full(self) -> bool {
        self.next_id >= self.max_id
    }

    /// The id of `tags`, if it has one: 0 for the empty combination.
    pub open spec fn lookup(self, tags: TagSeq) -> Option<usize> {
        if tags.len() == 0 {
            Some(0)
        } else if self.ids.contains_key(tags) {
            Some(self.ids[tags])
        } else {
            None
        }
    }

    /// The table after a request for the id of `tags`, and the answer: the
    /// id that `tags` has already, else `next_id` if the table is not full,
    /// else none.
    pub open spec fn allocate(self, tags: TagSeq) -> (TagTable, Option<usize>) {
        if self.lookup(tags) is Some {
            (self, self.lookup(tags))
        } else if self.full() {
            (self, None)
        } else {
            (
                TagTable {
                    ids: self.ids.insert(tags, self.next_id),
                    next_id: (self.next_id + 1) as usize,
                    max_id: self.max_id,
                },
                Some(self.next_id),
            )
        }
    }

    /// The table after one request for each combination of `requests`, in
    /// order.
    pub open spec fn allocate_all(self, requests: Seq<TagSeq>) -> TagTable
        decreases requests.len(),
    {
        if requests.len() == 0 {
            self
        } else {
            self.allocate_all(requests.drop_last()).allocate(requests.last()).0
        }
    }
}

/// A request leaves a well-formed table well-formed.
pub proof fn lemma_allocate_wf(table: TagTable, tags: TagSeq)
    requires
        table.wf(),
    ensures
        table.allocate(tags).0.wf(),
{
    let after = table.allocate(tags).0;
    if table.lookup(tags) is None && !table.full() {
        assert(after.ids.dom() =~= table.ids.dom().insert(tags));
        assert forall|a: TagSeq, b: TagSeq|
            after.ids.contains_key(a) && after.ids.contains_key(b) && after.ids[a]
                == after.ids[b] implies a == b by {
            if a != tags && b != tags {
                assert(table.ids.contains_key(a) && table.ids.contains_key(b));
                assert(table.ids[a] == table.ids[b]);
            }
        }
    }
}

/// Any number of requests leave a well-formed table well-formed.
pub proof fn lemma_allocate_all_wf(table: TagTable, requests: Seq<TagSeq>)
    requires
        table.wf(),
    ensures
        table.allocate_all(requests).wf(),
    decreases requests.len(),
{
    if requests.len() > 0 {
        lemma_allocate_all_wf(table, requests.drop_last());
        lemma_allocate_wf(table.allocate_all(requests.drop_last()), requests.last());
    }
}

/// An id, once given, is the answer to every later lookup and request for
/// the same combination, and such a request changes nothing.
pub proof fn law_allocate_is_stable(table: TagTable, tags: TagSeq)
    requires
        table.wf(),
    ensures
        ({
            let (after, id) = table.allocate(tags);
            id is Some ==> after.lookup(tags) == id && after.allocate(tags) == (after, id)
        }),
{
}

/// Requests for other combinations never change the id that a combination
/// has.
pub proof fn law_ids_are_kept(table: TagTable, tags: TagSeq, requests: Seq<TagSeq>)
    requires
        table.wf(),
        table.lookup(tags) is Some,
    ensures
        table.allocate_all(requests).lookup(tags) == table.lookup(tags),
    decreases requests.len(),
{
    if requests.len() > 0 {
        law_ids_are_kept(table, tags, requests.drop_last());
    }
}

/// Two different combinations never have the same id.
pub proof fn law_ids_are_distinct(table: TagTable, a: TagSeq, b: TagSeq)
    requires
        table.wf(),
        a != b,
        table.lookup(a) is Some,
        table.lookup(b) is Some,
    ensures
        table.lookup(a) != table.lookup(b),
{
    assert(a.len() == 0 ==> a =~= Seq::empty());
    assert(b.len() == 0 ==> b =~= Seq::empty());
}

/// Two different combinations that are given ids, however many requests
/// lie between the two, are given different ids.
pub proof fn law_allocate_gives_distinct_ids(
    table: TagTable,
    a: TagSeq,
    between: Seq<TagSeq>,
    b: TagSeq,
)
    requires
        table.wf(),
        a != b,
    ensures
        ({
            let (first, id_a) = table.allocate(a);
            let (_, id_b) = first.allocate_all(between).allocate(b);
            id_a is Some && id_b is Some ==> id_a != id_b
        }),
{
    let (first, id_a) = table.allocate(a);
    let later = first.allocate_all(between);
    let (last, id_b) = later.allocate(b);
    if id_a is Some && id_b is Some {
        lemma_allocate_wf(table, a);
        law_allocate_is_stable(table, a);
        law_ids_are_kept(first, a, between);
        lemma_allocate_all_wf(first, between);
        lemma_allocate_wf(later, b);
        law_allocate_is_stable(later, b);
        assert(last.lookup(b) == id_b);
        assert(last.lookup(a) == id_a);
        law_ids_are_distinct(last, a, b);
    }
}

/// A table with `max_id` k holds at most k - 1 non-empty combinations.
pub proof fn law_capacity(table: TagTable)
    requires
        table.wf(),
    ensures
        table.ids.dom().len() == table.next_id - 1,
        table.max_id >= 1 ==> table.ids.dom().len() <= table.max_id - 1,
        table.max_id == 0 ==> table.ids.dom().len() == 0,
{
}

/// Whatever is requested of a new table, and in whatever order, at most
/// `max_id - 1` non-empty combinations get an id.
pub proof fn law_capacity_after_requests(max_id: usize, requests: Seq<TagSeq>)
    ensures
        ({
            let table = TagTable::empty(max_id).allocate_all(requests);
            &&& table.wf()
            &&& table.max_id == max_id
            &&& max_id >= 1 ==> table.ids.dom().len() <= max_id - 1
            &&& max_id == 0 ==> table.ids.dom().len() == 0
        }),
{
    lemma_allocate_all_wf(TagTable::empty(max_id), requests);
    lemma_max_id_is_kept(TagTable::empty(max_id), requests);
}

/// Requests never change `max_id`.
pub proof fn lemma_max_id_is_kept(table: TagTable, requests: Seq<TagSeq>)
    ensures
        table.allocate_all(requests).max_id == table.max_id,
    decreases requests.len(),
{
    if requests.len() > 0 {
        lemma_max_id_is_kept(table, requests.drop_last());
    }
}

/// A full table gives a combination it has not seen no id, and the request
/// changes nothing: the ids given before stay as they are.
pub proof fn law_full_table_rejects(table: TagTable, tags: TagSeq)
    requires
        table.wf(),
        table.max_id >= 1,
        table.ids.dom().len() == table.max_id - 1,
        table.lookup(tags) is None,
    ensures
        table.allocate(tags) == (table, None::<usize>),
{
}

/// What a writer's question for the slot of a tag combination comes to.
pub struct Resolution {
    /// The slot to write to; none where the write is dropped.
    pub slot: Option<usize>,
    /// The writer's own cache after the question.
    pub cache: Map<TagSeq, usize>,
    /// The shared table after the question.
    pub table: TagTable,
}

/// A writer with the local cache `cache` asks for the slot of `tags`. What
/// the cache holds is answered from the cache and the shared table is left
/// alone. Anything else is requested of the table, and an id that the table
/// gives is remembered in the cache.
pub open spec fn resolve(cache: Map<TagSeq, usize>, table: TagTable, tags: TagSeq) -> Resolution {
    if cache.contains_key(tags) {
        Resolution { slot: Some(cache[tags]), cache, table }
    } else {
        let (after, id) = table.allocate(tags);
        match id {
            Some(id) => Resolution { slot: Some(id), cache: cache.insert(tags, id), table: after },
            None => Resolution { slot: None, cache, table: after },
        }
    }
}

/// Every id in the cache is the index of a slot of a block of `width`
/// slots.
pub open spec fn cache_fits(cache: Map<TagSeq, usize>, width: usize) -> bool {
    forall|tags: TagSeq| #[trigger] cache.contains_key(tags) ==> cache[tags] < width
}

/// Every id in the cache is the id that the table has for the same
/// combination.
pub open spec fn cache_agrees(cache: Map<TagSeq, usize>, table: TagTable) -> bool {
    forall|tags: TagSeq| #[trigger]
        cache.contains_key(tags) ==> table.lookup(tags) == Some(cache[tags])
}

/// With a table that keeps its ids below `width`, a question never leads
/// to a slot outside a block of `width` slots, now or later.
pub proof fn lemma_resolve_fits(
    cache: Map<TagSeq, usize>,
    table: TagTable,
    tags: TagSeq,
    width: usize,
)
    requires
        cache_fits(cache, width),
        table.wf(),
        table.max_id <= width,
        0 < width,
    ensures
        cache_fits(resolve(cache, table, tags).cache, width),
        resolve(cache, table, tags).table.wf(),
        resolve(cache, table, tags).table.max_id == table.max_id,
        resolve(cache, table, tags).slot is Some ==> resolve(cache, table, tags).slot->0 < width,
{
    lemma_allocate_wf(table, tags);
}

/// A cache that agrees with the table makes no difference to the answer:
/// the writer is told what the table alone would have said, the table ends
/// as if it had been asked, and the cache still agrees with it.
pub proof fn law_cache_is_transparent(cache: Map<TagSeq, usize>, table: TagTable, tags: TagSeq)
    requires
        table.wf(),
        cache_agrees(cache, table),
    ensures
        resolve(cache, table, tags).slot == table.allocate(tags).1,
        resolve(cache, table, tags).table == table.allocate(tags).0,
        cache_agrees(resolve(cache, table, tags).cache, resolve(cache, table, tags).table),
{
    let after = resolve(cache, table, tags);
    assert forall|other: TagSeq| #[trigger] after.cache.contains_key(other) implies after.table.lookup(
        other,
    ) == Some(after.cache[other]) by {
        if other != tags {
            assert(cache.contains_key(other));
        }
    }
}

/// A writer that asks a full table for the slot of a combination that
/// neither it nor the table has seen is told that there is none, and
/// nothing changes: not the table, not the writer's cache.
pub proof fn law_full_table_drops(cache: Map<TagSeq, usize>, table: TagTable, tags: TagSeq)
    requires
        table.full(),
        table.lookup(tags) is None,
        !cache.contains_key(tags),
    ensures
        resolve(cache, table, tags) == (Resolution { slot: None, cache, table }),
{
}

/// The shared table of one metric: tag combinations and their slot ids.
#[derive(Debug)]
pub struct Tags {
    tags: TagMap,
    next_id: usize,
    max_id: usize,
}

impl View for Tags {
    type V = TagTable;

    closed spec fn view(&self) -> TagTable {
        TagTable { ids: tag_ids(self.tags), next_id: self.next_id, max_id: self.max_id }
    }
}

impl Tags {
    /// A table that has seen no combination and keeps every id below
    /// `max_id`.
    pub fn new(max_id: usize) -> (table: Self)
        ensures
            table@ == TagTable::empty(max_id),
            table@.wf(),
    {
        // id 0 is for the value without tags
        Self { tags: tag_map_new(), next_id: 1, max_id }
    }

    /// The id of `tags`, if it has one. Never gives out a new id.
    pub fn get(&self, tags: &[(String, String)]) -> (id: Option<usize>)
        ensures
            id == self@.lookup(tags.deep_view()),
    {
        if tags.len() == 0 {
            return Some(0);
        }
        tag_map_get(&self.tags, tags)
    }

    /// The id of `tags`: the one it has, or else a new one, if the table is
    /// not full.
    ///
    /// The table is looked up again first, because between a failed `get`
    /// and this call another writer may have asked for the same
    /// combination.
    pub fn insert(&mut self, tags: &[(String, String)]) -> (id: Option<usize>)
        ensures
            final(self)@ == old(self)@.allocate(tags.deep_view()).0,
            id == old(self)@.allocate(tags.deep_view()).1,
            old(self)@.wf() ==> final(self)@.wf(),
    {
        proof {
            if self@.wf() {
                lemma_allocate_wf(self@, tags.deep_view());
            }
        }
        if tags.len() == 0 {
            return Some(0);
        }
        if let Some(id) = tag_map_get(&self.tags, tags) {
            return Some(id);
        }
        // stop here if the table is full

        if self.next_id >= self.max_id {
            return None;
        }
        let id = self.next_id;
        tag_map_insert(&mut self.tags, tags, id);
        self.next_id += 1;
        Some(id)
    }

    /// The id of `tags`, new if need be: a lookup, and a request only
    /// where the lookup finds nothing. This is what a writer does with a
    /// combination that is not in its own cache.
    pub fn get_or_insert(&mut self, tags: &[(String, String)]) -> (id: Option<usize>)
        ensures
            final(self)@ == old(self)@.allocate(tags.deep_view()).0,
            id == old(self)@.allocate(tags.deep_view()).1,
            old(self)@.wf() ==> final(self)@.wf(),
    {
        if let Some(id) = self.get(tags) {
            return Some(id);
        }
        self.insert(tags)
    }

    /// The map from the non-empty combinations seen so far to their ids.
    pub fn tags(&self) -> (map: &TagMap)
        ensures
            tag_ids(*map) == self@.ids,
    {
        &self.tags
    }
}

} // verus!
