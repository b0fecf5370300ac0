//! The hash map from tag combinations to slot ids.
//!
//! The map is `ahash`'s `HashMap`, that is std's hash map with `ahash`'s
//! hasher. Verus does not look inside it. What it holds is named by
//! [`tag_ids`], and the few operations the library needs are small functions
//! whose contracts are taken on trust: each says over [`tag_ids`] what the
//! operation is documented to do.
use vstd::prelude::*;

verus! {

/// A tag combination as contracts see it: the ordered list of (key, value)
/// pairs, each string by its characters.
pub type TagSeq = Seq<(Seq<char>, Seq<char>)>;

/// A map from tag combinations to slot ids.
pub type TagMap = ahash::HashMap<Vec<(String, String)>, usize>;

/// A tag combination with the id it is mapped to.
pub type TagEntry = (Vec<(String, String)>, usize);

/// The seeds of `ahash`'s hasher. Nothing in the library reads them.
#[verifier::external_type_specification]
#[verifier::external_body]
pub struct ExRandomState(ahash::RandomState);

/// The mapping that a `TagMap` holds: two keys are the same key when they
/// list the same pairs of strings in the same order.
pub uninterp spec fn tag_ids(m: TagMap) -> Map<TagSeq, usize>;

/// `entries` lists every pair of `ids` exactly once, in some order.
pub open spec fn lists_each_once(entries: Seq<TagEntry>, ids: Map<TagSeq, usize>) -> bool {
    &&& entries.len() == ids.dom().len()
    &&& forall|i: int|
        0 <= i < entries.len() ==> ids.contains_pair(
            (#[trigger] entries[i]).0.deep_view(),
            entries[i].1,
        )
    &&& forall|i: int, j: int|
        0 <= i < j < entries.len() ==> (#[trigger] entries[i]).0.deep_view() != (
        #[trigger] entries[j]).0.deep_view()
    &&& forall|tags: TagSeq| #[trigger]
        ids.contains_key(tags) ==> exists|i: int|
            0 <= i < entries.len() && (#[trigger] entries[i]).0.deep_view() == tags
}

/// `ahash::HashMapExt::new`: a map that holds nothing. Trusted.
#[verifier::external_body]
pub(crate) fn tag_map_new() -> (m: TagMap)
    ensures
        tag_ids(m) == (Map::<TagSeq, usize>::empty()),
{
    ahash::HashMapExt::new()
}

/// `HashMap::get`: the id stored under `tags`, if there is one. Trusted.
#[verifier::external_body]
pub(crate) fn tag_map_get(m: &TagMap, tags: &[(String, String)]) -> (id: Option<usize>)
    ensures
        id == (if tag_ids(*m).contains_key(tags.deep_view()) {
            Some(tag_ids(*m)[tags.deep_view()])
        } else {
            None
        }),
{
    m.get(tags).copied()
}

/// `HashMap::insert`: afterwards `tags` is mapped to `id`, and every other
/// key is mapped as before. Trusted.
#[verifier::external_body]
pub(crate) fn tag_map_insert(m: &mut TagMap, tags: &[(String, String)], id: usize)
    ensures
        tag_ids(*final(m)) == tag_ids(*old(m)).insert(tags.deep_view(), id),
{
    m.insert(tags.to_vec(), id);
}

/// `HashMap::iter`: a copy of every (key, id) pair, each once, in the order
/// the map happens to walk them. Trusted.
#[verifier::external_body]
pub(crate) fn tag_map_entries(m: &TagMap) -> (entries: Vec<TagEntry>)
    ensures
        lists_each_once(entries@, tag_ids(*m)),
{
    m.iter().map(|(tags, id)| (tags.clone(), *id)).collect()
}

} // verus!
