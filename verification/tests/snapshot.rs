use metrics_lockfree::aggregate::{sum_slot, tagged_records, untagged_record};
use metrics_lockfree::counter::CounterPin;
use metrics_lockfree::factory::{CounterFactory, CounterWithTagsFactory};
use metrics_lockfree::prometheus::{copy_tags, prometheus_metric_family_build, MetricRecord};
use metrics_lockfree::types::Tags;
use metrics_lockfree::{InternalMetricType, InternalMetricTypeString, MetricType};

fn route(path: &str) -> Vec<(String, String)> {
    vec![("route".to_string(), path.to_string())]
}

fn value_of(records: &[MetricRecord], labels: &[(String, String)]) -> Option<u64> {
    let mut found = None;
    for record in records {
        if record.labels == labels {
            assert!(found.is_none());
            found = Some(record.value);
        }
    }
    found
}

#[test]
fn requests_total_of_two_threads() {
    let mut factory = CounterFactory::<1>::new("requests_total");
    let mut a = factory.register();
    let mut b = factory.register();
    for _ in 0..5 {
        factory.add(&mut a, 1, None);
    }
    for _ in 0..3 {
        factory.add(&mut b, 1, None);
    }
    let records = factory.metrics();
    assert_eq!(records.len(), 1);
    assert_eq!(records[0].name, "requests_total");
    assert!(matches!(records[0].kind, MetricType::Counter));
    assert_eq!(records[0].value, 8);
    assert!(records[0].labels.is_empty());
}

#[test]
fn requests_by_route_with_room_for_two_combinations() {
    let mut factory = CounterFactory::<3>::new("requests_by_route");
    let mut a = factory.register();
    factory.add(&mut a, 1, Some(&route("/x")));
    factory.add(&mut a, 1, Some(&route("/y")));
    factory.add(&mut a, 1, Some(&route("/z")));
    assert_eq!(factory.tags().get(&route("/x")), Some(1));
    assert_eq!(factory.tags().get(&route("/y")), Some(2));
    assert_eq!(factory.tags().get(&route("/z")), None);
    assert_eq!(factory.threads()[0].get(0), 0);
    assert_eq!(factory.threads()[0].get(1), 1);
    assert_eq!(factory.threads()[0].get(2), 1);
    let records = factory.metrics();
    assert_eq!(records.len(), 3);
    assert!(records[0].labels.is_empty());
    assert_eq!(records[0].value, 0);
    assert_eq!(value_of(&records[1..], &route("/x")), Some(1));
    assert_eq!(value_of(&records[1..], &route("/y")), Some(1));
    assert_eq!(value_of(&records[1..], &route("/z")), None);
    for record in &records {
        assert_eq!(record.name, "requests_by_route");
        assert!(matches!(record.kind, MetricType::Counter));
    }
}

#[test]
fn tagged_factory_with_room_for_two_combinations() {
    let mut factory = CounterWithTagsFactory::<3>::new("requests_by_route");
    let mut a = factory.register();
    factory.add(&mut a, 1, &route("/x"));
    factory.add(&mut a, 1, &route("/y"));
    factory.add(&mut a, 1, &route("/z"));
    let records = factory.metrics();
    assert_eq!(records.len(), 3);
    assert!(records[0].labels.is_empty());
    assert_eq!(records[0].value, 0);
    assert_eq!(value_of(&records[1..], &route("/x")), Some(1));
    assert_eq!(value_of(&records[1..], &route("/y")), Some(1));
    assert_eq!(value_of(&records[1..], &route("/z")), None);
}

#[test]
fn every_thread_adds_to_the_same_total() {
    let threads = 7;
    let increments = 1000;
    let mut factory = CounterFactory::<1>::new("events");
    let mut handles = Vec::new();
    for _ in 0..threads {
        handles.push(factory.register());
    }
    // the threads take turns, one increment each
    for _ in 0..increments {
        for handle in handles.iter_mut() {
            factory.add(handle, 1, None);
        }
    }
    assert_eq!(factory.metrics()[0].value, threads * increments);
    for cell in factory.threads() {
        assert_eq!(cell.get(0), increments);
    }
}

#[test]
fn total_is_the_sum_of_all_amounts() {
    let mut factory = CounterFactory::<2>::new("bytes");
    let mut a = factory.register();
    let mut b = factory.register();
    let mut c = factory.register();
    let amounts = [3u64, 0, 17, 1 << 40, 5, 999];
    let mut expected = 0u64;
    for (turn, amount) in amounts.iter().enumerate() {
        match turn % 3 {
            0 => factory.add(&mut a, *amount, None),
            1 => factory.add(&mut b, *amount, None),
            _ => factory.add(&mut c, *amount, None),
        }
        expected += *amount;
    }
    assert_eq!(factory.metrics()[0].value, expected);
}

#[test]
fn registration_between_writes_keeps_the_total() {
    let mut factory = CounterFactory::<1>::new("events");
    let mut a = factory.register();
    factory.add(&mut a, 4, None);
    let mut b = factory.register();
    assert_eq!(a.cell(), 0);
    assert_eq!(b.cell(), 1);
    assert_eq!(factory.metrics()[0].value, 4);
    factory.add(&mut b, 6, None);
    factory.add(&mut a, 1, None);
    assert_eq!(factory.metrics()[0].value, 11);
}

#[test]
fn total_wraps_around() {
    let mut factory = CounterFactory::<1>::new("events");
    let mut a = factory.register();
    let mut b = factory.register();
    factory.add(&mut a, u64::MAX, None);
    factory.add(&mut b, 3, None);
    assert_eq!(factory.metrics()[0].value, 2);
}

#[test]
fn tagged_totals_are_summed_over_threads() {
    let mut factory = CounterWithTagsFactory::<4>::new("requests_by_route");
    let mut a = factory.register();
    let mut b = factory.register();
    factory.add(&mut a, 1, &route("/x"));
    factory.add(&mut b, 2, &route("/y"));
    factory.add(&mut b, 4, &route("/x"));
    factory.add(&mut a, 8, &[]);
    factory.add(&mut b, 16, &[]);
    let records = factory.metrics();
    assert_eq!(records.len(), 3);
    assert_eq!(records[0].value, 24);
    assert_eq!(value_of(&records[1..], &route("/x")), Some(5));
    assert_eq!(value_of(&records[1..], &route("/y")), Some(2));
    assert_eq!(factory.threads().len(), 2);
    assert_eq!(factory.tags().tags().len(), 2);
}

#[test]
fn factory_without_threads_reports_zero() {
    let factory = CounterFactory::<2>::new("events");
    let records = factory.metrics();
    assert_eq!(records.len(), 1);
    assert_eq!(records[0].value, 0);
}

#[test]
fn sum_slot_adds_one_slot_of_every_cell() {
    let mut cells = vec![CounterPin::<2>::default(), CounterPin::<2>::default()];
    cells[0].as_mut_ptr()[0] = 1;
    cells[0].as_mut_ptr()[1] = 10;
    cells[1].as_mut_ptr()[0] = 2;
    cells[1].as_mut_ptr()[1] = 20;
    assert_eq!(sum_slot(&cells, 0), 3);
    assert_eq!(sum_slot(&cells, 1), 30);
    let none: Vec<CounterPin<2>> = Vec::new();
    assert_eq!(sum_slot(&none, 1), 0);
}

#[test]
fn records_are_built_from_cells_and_table() {
    let mut cells = vec![CounterPin::<3>::default(), CounterPin::<3>::default()];
    cells[0].as_mut_ptr()[0] = 1;
    cells[1].as_mut_ptr()[0] = 2;
    cells[0].as_mut_ptr()[2] = 5;
    cells[1].as_mut_ptr()[2] = 6;
    let mut table = Tags::new(3);
    table.insert(&route("/x"));
    table.insert(&route("/y"));
    let untagged = untagged_record(metrics_lockfree::types::MetricType::Counter, "m", &cells);
    assert_eq!(untagged.value, 3);
    assert!(untagged.labels.is_empty());
    let tagged = tagged_records("m", &cells, &table);
    assert_eq!(tagged.len(), 2);
    assert_eq!(value_of(&tagged, &route("/x")), Some(0));
    assert_eq!(value_of(&tagged, &route("/y")), Some(11));
}

#[test]
fn counter_record_has_no_labels() {
    let tags = route("/x");
    let record = prometheus_metric_family_build(
        metrics_lockfree::types::MetricType::Counter,
        "requests",
        12,
        Some(&tags),
    );
    assert_eq!(record.name, "requests");
    assert!(matches!(record.kind, MetricType::Counter));
    assert_eq!(record.value, 12);
    assert!(record.labels.is_empty());
}

#[test]
fn gauge_record_has_no_labels() {
    let tags = route("/x");
    let record = prometheus_metric_family_build(
        metrics_lockfree::types::MetricType::Gauge,
        "depth",
        u64::MAX,
        Some(&tags),
    );
    assert_eq!(record.name, "depth");
    assert!(matches!(record.kind, MetricType::Gauge));
    assert_eq!(record.value, u64::MAX);
    assert!(record.labels.is_empty());
}

#[test]
fn tagged_record_carries_its_tags_in_order() {
    let tags = vec![
        ("route".to_string(), "/x".to_string()),
        ("code".to_string(), "200".to_string()),
    ];
    let record = prometheus_metric_family_build(
        metrics_lockfree::types::MetricType::CounterWithTags,
        "requests",
        1,
        Some(&tags),
    );
    assert!(matches!(record.kind, MetricType::Counter));
    assert_eq!(record.labels, tags);
    let bare = prometheus_metric_family_build(
        metrics_lockfree::types::MetricType::CounterWithTags,
        "requests",
        1,
        None,
    );
    assert!(bare.labels.is_empty());
    assert_eq!(bare.value, 1);
}

#[test]
fn copy_tags_copies_every_pair() {
    let tags = vec![
        ("a".to_string(), "1".to_string()),
        ("b".to_string(), "2".to_string()),
    ];
    assert_eq!(copy_tags(&tags), tags);
    assert!(copy_tags(&[]).is_empty());
}

#[test]
fn owned_metric_type_keeps_kind_and_name() {
    let counter = InternalMetricTypeString::from(&InternalMetricType::Counter("hits"));
    assert!(matches!(counter, InternalMetricTypeString::Counter(ref name) if name == "hits"));
    let gauge = InternalMetricTypeString::from(&InternalMetricType::Gauge("depth"));
    assert!(matches!(gauge, InternalMetricTypeString::Gauge(ref name) if name == "depth"));
}

#[test]
fn factory_gives_ids_before_any_write() {
    let mut factory = CounterFactory::<3>::new("requests_by_route");
    assert_eq!(factory.tags_get(&route("/x")), Some(1));
    assert_eq!(factory.tags_get(&[]), Some(0));
    let mut a = factory.register();
    factory.add(&mut a, 2, Some(&route("/y")));
    factory.add(&mut a, 3, Some(&route("/x")));
    assert_eq!(factory.tags_get(&route("/y")), Some(2));
    assert_eq!(factory.tags_get(&route("/z")), None);
    let records = factory.metrics();
    assert_eq!(records.len(), 3);
    assert_eq!(value_of(&records[1..], &route("/x")), Some(3));
    assert_eq!(value_of(&records[1..], &route("/y")), Some(2));
    let mut tagged = CounterWithTagsFactory::<2>::new("t");
    assert_eq!(tagged.tags_get(&route("/x")), Some(1));
    assert_eq!(tagged.tags_get(&route("/y")), None);
}
