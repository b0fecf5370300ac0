use metrics_lockfree::types::Tags;

fn tags(pairs: &[(&str, &str)]) -> Vec<(String, String)> {
    pairs.iter().map(|(k, v)| (k.to_string(), v.to_string())).collect()
}

#[test]
fn new_table_knows_only_the_empty_combination() {
    let table = Tags::new(4);
    assert_eq!(table.get(&[]), Some(0));
    assert_eq!(table.get(&tags(&[("route", "/x")])), None);
    assert!(table.tags().is_empty());
}

#[test]
fn get_never_allocates() {
    let table = Tags::new(4);
    let x = tags(&[("route", "/x")]);
    assert_eq!(table.get(&x), None);
    assert_eq!(table.get(&x), None);
    assert_eq!(table.tags().len(), 0);
}

#[test]
fn ids_are_given_in_order_of_first_request() {
    let mut table = Tags::new(4);
    assert_eq!(table.insert(&tags(&[("route", "/x")])), Some(1));
    assert_eq!(table.insert(&tags(&[("route", "/y")])), Some(2));
    assert_eq!(table.insert(&tags(&[("route", "/z")])), Some(3));
    assert_eq!(table.tags().len(), 3);
}

#[test]
fn insert_is_idempotent_and_lookup_is_stable() {
    let mut table = Tags::new(8);
    let x = tags(&[("route", "/x"), ("code", "200")]);
    let y = tags(&[("route", "/y")]);
    let id_x = table.insert(&x);
    assert_eq!(id_x, Some(1));
    assert_eq!(table.insert(&x), id_x);
    assert_eq!(table.get(&x), id_x);
    let id_y = table.insert(&y);
    assert_eq!(id_y, Some(2));
    assert_eq!(table.insert(&x), id_x);
    assert_eq!(table.get(&x), id_x);
    assert_eq!(table.get(&y), id_y);
    assert_eq!(table.tags().len(), 2);
}

#[test]
fn different_combinations_get_different_ids() {
    let mut table = Tags::new(16);
    let a = table.insert(&tags(&[("k", "a")])).unwrap();
    let b = table.insert(&tags(&[("k", "b")])).unwrap();
    let ab = table.insert(&tags(&[("k", "a"), ("k", "b")])).unwrap();
    let ba = table.insert(&tags(&[("k", "b"), ("k", "a")])).unwrap();
    assert_ne!(a, b);
    assert_ne!(a, ab);
    assert_ne!(b, ab);
    assert_ne!(ab, ba);
    assert_ne!(a, 0);
    assert_ne!(b, 0);
}

#[test]
fn order_of_pairs_matters() {
    let mut table = Tags::new(16);
    let ab = tags(&[("a", "1"), ("b", "2")]);
    let ba = tags(&[("b", "2"), ("a", "1")]);
    assert_eq!(table.insert(&ab), Some(1));
    assert_eq!(table.get(&ba), None);
    assert_eq!(table.insert(&ba), Some(2));
}

#[test]
fn table_with_max_id_k_gives_k_minus_one_ids() {
    let mut table = Tags::new(3);
    assert_eq!(table.insert(&tags(&[("route", "/x")])), Some(1));
    assert_eq!(table.insert(&tags(&[("route", "/y")])), Some(2));
    assert_eq!(table.insert(&tags(&[("route", "/z")])), None);
    assert_eq!(table.tags().len(), 2);
}

#[test]
fn full_table_keeps_the_ids_it_gave() {
    let mut table = Tags::new(3);
    let x = tags(&[("route", "/x")]);
    let y = tags(&[("route", "/y")]);
    let z = tags(&[("route", "/z")]);
    table.insert(&x);
    table.insert(&y);
    assert_eq!(table.insert(&z), None);
    assert_eq!(table.get(&z), None);
    assert_eq!(table.get(&x), Some(1));
    assert_eq!(table.get(&y), Some(2));
    assert_eq!(table.insert(&x), Some(1));
    assert_eq!(table.insert(&y), Some(2));
    assert_eq!(table.insert(&z), None);
}

#[test]
fn table_with_max_id_one_gives_no_id() {
    let mut table = Tags::new(1);
    assert_eq!(table.insert(&tags(&[("route", "/x")])), None);
    assert_eq!(table.get(&[]), Some(0));
    assert!(table.tags().is_empty());
}

#[test]
fn table_with_max_id_zero_gives_no_id() {
    let mut table = Tags::new(0);
    assert_eq!(table.insert(&tags(&[("route", "/x")])), None);
    assert_eq!(table.get(&[]), Some(0));
    assert!(table.tags().is_empty());
}

#[test]
fn empty_combination_has_id_zero_and_uses_no_capacity() {
    let mut table = Tags::new(2);
    assert_eq!(table.insert(&[]), Some(0));
    assert_eq!(table.insert(&[]), Some(0));
    assert!(table.tags().is_empty());
    assert_eq!(table.insert(&tags(&[("route", "/x")])), Some(1));
    assert_eq!(table.get(&[]), Some(0));
}

#[test]
fn tags_map_holds_what_was_inserted() {
    let mut table = Tags::new(5);
    let x = tags(&[("route", "/x")]);
    let y = tags(&[("route", "/y")]);
    table.insert(&x);
    table.insert(&y);
    let map = table.tags();
    assert_eq!(map.get(&x).copied(), Some(1));
    assert_eq!(map.get(&y).copied(), Some(2));
    assert_eq!(map.len(), 2);
}

#[test]
fn get_or_insert_looks_up_before_it_allocates() {
    let mut table = Tags::new(3);
    let x = tags(&[("route", "/x")]);
    let y = tags(&[("route", "/y")]);
    let z = tags(&[("route", "/z")]);
    assert_eq!(table.get_or_insert(&x), Some(1));
    assert_eq!(table.get_or_insert(&x), Some(1));
    assert_eq!(table.get_or_insert(&[]), Some(0));
    assert_eq!(table.get_or_insert(&y), Some(2));
    assert_eq!(table.get_or_insert(&z), None);
    assert_eq!(table.get_or_insert(&y), Some(2));
    assert_eq!(table.tags().len(), 2);
}
