use metrics_lockfree::naming::{
    generate_tags_global_fn, join, parse_usize, snakify, split_numbers, FieldType, MacroFieldType,
};

#[test]
fn snakify_treats_numbers_as_words() {
    assert_eq!(snakify("Hello2You"), "hello_2_you");
    assert_eq!(snakify("MyMetrics"), "my_metrics");
    assert_eq!(snakify("abc123Def456"), "abc_123_def_456");
    assert_eq!(snakify("99Bottles"), "99bottles");
    assert_eq!(snakify(""), "");
}

#[test]
fn split_numbers_puts_an_underscore_before_each_number() {
    assert_eq!(split_numbers("hello2_you"), "hello_2_you");
    assert_eq!(split_numbers("a1b22c333"), "a_1b_22c_333");
    assert_eq!(split_numbers("123"), "123");
    assert_eq!(split_numbers("x_1"), "x__1");
    assert_eq!(split_numbers("plain"), "plain");
    assert_eq!(split_numbers(""), "");
    // only the ten decimal digits count
    assert_eq!(split_numbers("a\u{0663}b"), "a\u{0663}b");
}

#[test]
fn tags_fn_name_is_made_of_struct_and_field() {
    assert_eq!(generate_tags_global_fn("MyMetrics", "ct"), "my_metrics_ct_tags_get");
    assert_eq!(generate_tags_global_fn("Http2Stats", "hits"), "http_2_stats_hits_tags_get");
}

#[test]
fn parse_usize_reads_decimal_numbers() {
    assert_eq!(parse_usize("0"), Some(0));
    assert_eq!(parse_usize("32"), Some(32));
    assert_eq!(parse_usize("+5"), Some(5));
    assert_eq!(parse_usize("007"), Some(7));
    assert_eq!(parse_usize(&usize::MAX.to_string()), Some(usize::MAX));
}

#[test]
fn parse_usize_refuses_what_is_no_number() {
    assert_eq!(parse_usize(""), None);
    assert_eq!(parse_usize("+"), None);
    assert_eq!(parse_usize("-1"), None);
    assert_eq!(parse_usize("++1"), None);
    assert_eq!(parse_usize("1+"), None);
    assert_eq!(parse_usize("3x"), None);
    assert_eq!(parse_usize("32usize"), None);
    assert_eq!(parse_usize(" 1"), None);
    assert_eq!(parse_usize("\u{0663}"), None);
    assert_eq!(parse_usize("99999999999999999999999999999999999999999"), None);
    let too_large = format!("{}0", usize::MAX);
    assert_eq!(parse_usize(&too_large), None);
}

#[test]
fn parse_usize_agrees_with_std() {
    for text in ["", "+", "0", "+0", "-0", "12", "+12", "1 2", "18446744073709551615",
        "18446744073709551616", "000000000000000000000000001", "a", "1a", "+a"]
    {
        assert_eq!(parse_usize(text), text.parse::<usize>().ok());
    }
}

#[test]
fn join_puts_the_parts_together() {
    let parts = vec!["Counter".to_string(), "<".to_string(), "x".to_string(), ">".to_string()];
    assert_eq!(join(&parts), "Counter<x>");
    assert_eq!(join(&Vec::new()), "");
}

#[test]
fn fields_are_classified_by_their_type() {
    let counter = MacroFieldType::classify(&FieldType::Ident("Counter".to_string()));
    assert!(matches!(counter, MacroFieldType::Counter));
    let gauge = MacroFieldType::classify(&FieldType::Ident("Gauge".to_string()));
    assert!(matches!(gauge, MacroFieldType::Gauge));
    let other = MacroFieldType::classify(&FieldType::Ident("Histogram".to_string()));
    assert!(matches!(other, MacroFieldType::Unknown(ref s) if s == "Histogram"));
}

#[test]
fn counter_with_slots_is_a_counter_with_tags() {
    let path = |tokens: &[&str]| FieldType::Path(tokens.iter().map(|t| t.to_string()).collect());
    let tagged = MacroFieldType::classify(&path(&["Counter", "<", "32", ">"]));
    assert!(matches!(tagged, MacroFieldType::CounterWithTags(32)));
    let not_a_number = MacroFieldType::classify(&path(&["Counter", "<", "N", ">"]));
    assert!(matches!(not_a_number, MacroFieldType::Unknown(ref s) if s == "Counter<N>"));
    let longer = MacroFieldType::classify(&path(&["metrics", "::", "Counter"]));
    assert!(matches!(longer, MacroFieldType::Unknown(ref s) if s == "metrics::Counter"));
    let brackets = MacroFieldType::classify(&path(&["Counter", "(", "32", ")"]));
    assert!(matches!(brackets, MacroFieldType::Unknown(ref s) if s == "Counter(32)"));
}

#[test]
fn other_types_are_unknown() {
    let kind = MacroFieldType::classify(&FieldType::Other("& str".to_string()));
    assert!(matches!(kind, MacroFieldType::Unknown(ref s) if s == "& str"));
}
