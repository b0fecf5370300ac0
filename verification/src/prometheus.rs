//! The records that a snapshot is made of.
//!
//! One record is one exported sample: the metric's name, whether it is a
//! counter or a gauge, the value, and the labels of the sample. Turning a
//! record into the wire format is the exporter's business.
use vstd::prelude::*;
use crate::tag_map::TagSeq;
use crate::types::MetricType;

verus! {

/// One exported sample.
#[derive(Debug, Clone)]
pub struct MetricRecord {
    pub name: String,
    pub kind: crate::MetricType,
    pub value: u64,
    /// The (key, value) pairs of the sample, in order; empty for the value
    /// without tags.
    pub labels: Vec<(String, String)>,
}

/// A record as contracts see it.
pub struct RecordView {
    pub name: Seq<char>,
    pub kind: crate::MetricType,
    pub value: u64,
    pub labels: TagSeq,
}

impl View for MetricRecord {
    type V = RecordView;

    open spec fn view(&self) -> RecordView {
        RecordView {
            name: self.name@,
            kind: self.kind,
            value: self.value,
            labels: self.labels.deep_view(),
        }
    }
}

/// The tags of a call that may come without tags.
pub open spec fn tags_of(tags: Option<&[(String, String)]>) -> Option<TagSeq> {
    match tags {
        Some(tags) => Some(tags.deep_view()),
        None => None,
    }
}

/// The record for a value of a metric declared as `ty`: a gauge stays a
/// gauge, both kinds of counter are counters, and only a counter with tags
/// carries the tags it is given as labels.
pub open spec fn record_of(ty: MetricType, name: Seq<char>, value: u64, tags: Option<TagSeq>)
    -> RecordView {
    RecordView {
        name,
        kind: match ty {
            MetricType::Gauge => crate::MetricType::Gauge,
            _ => crate::MetricType::Counter,
        },
        value,
        labels: match (ty, tags) {
            (MetricType::CounterWithTags, Some(tags)) => tags,
            _ => Seq::empty(),
        },
    }
}

/// An owned copy of a tag combination.
pub fn copy_tags(tags: &[(String, String)]) -> (copy: Vec<(String, String)>)
    ensures
        copy.deep_view() == tags.deep_view(),
{
    let mut copy: Vec<(String, String)> = Vec::new();
    let mut i: usize = 0;
    while i < tags.len()
        invariant
            i <= tags.len(),
            copy.len() == i,
            forall|j: int| 0 <= j < i ==> (#[trigger] copy[j]).deep_view() == tags[j].deep_view(),
        decreases tags.len() - i,
    {
        copy.push((tags[i].0.clone(), tags[i].1.clone()));
        i += 1;
    }
    assert(copy.deep_view() =~= tags.deep_view());
    copy
}

/// Builds the record for one value of a metric.
pub fn prometheus_metric_family_build(
    ty: MetricType,
    name: &str,
    value: u64,
    tags: Option<&[(String, String)]>,
) -> (record: MetricRecord)
    ensures
        record@ == record_of(ty, name@, value, tags_of(tags)),
{
    let kind = match ty {
        MetricType::Gauge => crate::MetricType::Gauge,
        _ => crate::MetricType::Counter,
    };
    let labels = match (ty, tags) {
        (MetricType::CounterWithTags, Some(tags)) => copy_tags(tags),
        _ => Vec::new(),
    };
    let record = MetricRecord { name: name.to_owned(), kind, value, labels };
    assert(record@.labels =~= record_of(ty, name@, value, tags_of(tags)).labels);
    record
}

} // verus!
