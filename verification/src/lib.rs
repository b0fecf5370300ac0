//! Per-thread counters and gauges, summed on demand into exported records.
//!
//! Every registered thread writes to a value cell of its own, so the write
//! path needs no coordination between writers. A factory owns the cells of
//! one metric together with the table that maps tag combinations to slots,
//! and sums the cells slot by slot when a snapshot is asked for.
//!
//! The library is sequential: it states what each operation does to the
//! cells and the tag table. Sharing a factory between threads, and serving
//! the records over HTTP, is left to the program around it.
use vstd::prelude::*;

pub mod aggregate;
pub mod counter;
pub mod counter_with_tags;
pub mod exporter;
pub mod factory;
pub mod gauge;
pub mod history;
pub mod naming;
pub mod prometheus;
pub mod tag_map;
pub mod types;

verus! {

/// A metric kind together with the borrowed name of the metric.
#[derive(Debug, Clone)]
pub enum InternalMetricType<'a> {
    Counter(&'a str),
    Gauge(&'a str),
}

/// A metric kind together with the owned name of the metric.
#[derive(Debug, Clone)]
pub enum InternalMetricTypeString {
    Counter(String),
    Gauge(String),
}

/// The kind of value that an exported record carries.
#[derive(Debug, Clone)]
pub enum MetricType {
    Counter,
    Gauge,
}

impl<'a> InternalMetricType<'a> {
    /// The kind, without the name.
    pub open spec fn kind(&self) -> MetricType {
        match self {
            InternalMetricType::Counter(_) => MetricType::Counter,
            InternalMetricType::Gauge(_) => MetricType::Gauge,
        }
    }

    /// The characters of the name.
    pub open spec fn name(&self) -> Seq<char> {
        match self {
            InternalMetricType::Counter(s) => s@,
            InternalMetricType::Gauge(s) => s@,
        }
    }
}

impl InternalMetricTypeString {
    /// The kind, without the name.
    pub open spec fn kind(&self) -> MetricType {
        match self {
            InternalMetricTypeString::Counter(_) => MetricType::Counter,
            InternalMetricTypeString::Gauge(_) => MetricType::Gauge,
        }
    }

    /// The characters of the name.
    pub open spec fn name(&self) -> Seq<char> {
        match self {
            InternalMetricTypeString::Counter(s) => s@,
            InternalMetricTypeString::Gauge(s) => s@,
        }
    }
}

impl<'a> From<&InternalMetricType<'a>> for InternalMetricTypeString {
    /// Copies the name into an owned string and keeps the kind.
    fn from(value: &InternalMetricType<'a>) -> (owned: Self)
        ensures
            owned.kind() == value.kind(),
            owned.name() == value.name(),
    {
        match value {
            InternalMetricType::Counter(s) => InternalMetricTypeString::Counter((*s).to_owned()),
            InternalMetricType::Gauge(s) => InternalMetricTypeString::Gauge((*s).to_owned()),
        }
    }
}

/// An owned string is known by its characters only, so the conversion is
/// described by the `ensures` of `from` and not by a value of `from_spec`.
impl<'a> vstd::std_specs::convert::FromSpecImpl<&InternalMetricType<'a>> for InternalMetricTypeString {
    open spec fn obeys_from_spec() -> bool {
        false
    }

    open spec fn from_spec(v: &InternalMetricType<'a>) -> Self {
        arbitrary()
    }
}

} // verus!
