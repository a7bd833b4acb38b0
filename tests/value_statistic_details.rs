use value_statistics::known_statistics::KNOWN_STATISTICS;
use value_statistics::text::same_text;
use value_statistics::units::Unit;
use value_statistics::value_statistic_details::StatisticKind;
use value_statistics::{ValueStatisticDetails, ValueStatistics};

fn assert_details(d: &ValueStatisticDetails, unit: &str, unit_suffix: &str, stat_type: &str) {
    assert_eq!(d.unit, unit);
    assert_eq!(d.unit_suffix, unit_suffix);
    assert_eq!(d.stat_type, stat_type);
}

#[test]
fn lookup_value_statistic_existing_name() {
    let value_statistics = ValueStatistics::create();
    let lookup = value_statistics.lookup("all_operations_inflight");
    assert_eq!(lookup.unit, "operations");
    assert_eq!(lookup.unit_suffix, "ops");
    assert_eq!(lookup.stat_type, "gauge");
}

#[test]
fn lookup_value_statistic_non_existing_name() {
    let value_statistics = ValueStatistics::create();
    let lookup = value_statistics.lookup("does not exist");
    assert_eq!(lookup.unit, "?");
    assert_eq!(lookup.unit_suffix, "?");
    assert_eq!(lookup.stat_type, "?");
}

#[test]
fn lookup_block_cache_hit() {
    let value_statistics = ValueStatistics::create();
    assert_details(value_statistics.lookup("rocksdb_block_cache_hit"), "blocks", "blocks", "counter");
}

#[test]
fn lookup_hybrid_clock_skew() {
    let value_statistics = ValueStatistics::create();
    assert_details(value_statistics.lookup("hybrid_clock_skew"), "microseconds", "us", "gauge");
}

#[test]
fn lookup_context_switches() {
    let value_statistics = ValueStatistics::create();
    assert_details(value_statistics.lookup("voluntary_context_switches"), "context switches", "csws", "counter");
}

#[test]
fn lookup_reserved_name() {
    let value_statistics = ValueStatistics::create();
    assert_details(value_statistics.lookup("?"), "?", "?", "?");
    assert!(value_statistics.find("?").is_some());
}

#[test]
fn lookup_empty_and_garbage_names() {
    let value_statistics = ValueStatistics::create();
    assert_details(value_statistics.lookup(""), "?", "?", "?");
    assert_details(value_statistics.lookup("all_operations_inflight "), "?", "?", "?");
    assert_details(value_statistics.lookup("ALL_OPERATIONS_INFLIGHT"), "?", "?", "?");
    assert_details(value_statistics.lookup("\u{e9}t\u{e9} \u{1f600}"), "?", "?", "?");
}

#[test]
fn lookup_twice_gives_the_same() {
    let value_statistics = ValueStatistics::create();
    for name in ["all_operations_inflight", "does not exist", "?", "cpu_utime"] {
        let first = value_statistics.lookup(name).clone();
        let second = value_statistics.lookup(name);
        assert_eq!(first.unit, second.unit);
        assert_eq!(first.unit_suffix, second.unit_suffix);
        assert_eq!(first.stat_type, second.stat_type);
    }
}

#[test]
fn lookup_duplicate_row() {
    let value_statistics = ValueStatistics::create();
    assert_details(value_statistics.lookup("num_entries_with_type_6_loaded"), "entries", "entries", "counter");
}

#[test]
fn every_known_statistic_is_found_with_its_row() {
    let value_statistics = ValueStatistics::create();
    for (i, (name, unit, kind)) in KNOWN_STATISTICS.iter().enumerate() {
        let overridden = KNOWN_STATISTICS[i + 1..].iter().any(|row| row.0 == *name);
        if overridden {
            continue;
        }
        let found = value_statistics.find(name).expect("known statistic");
        assert_details(found, unit.name(), &ValueStatistics::suffix_lookup_value(unit.name()), kind.name());
        assert_details(value_statistics.lookup(name), unit.name(), unit.suffix(), kind.name());
    }
}

#[test]
fn every_known_unit_has_a_real_suffix() {
    let value_statistics = ValueStatistics::create();
    for (name, unit, _) in KNOWN_STATISTICS.iter() {
        assert_ne!(ValueStatistics::suffix_lookup_value(unit.name()), "?");
        assert_ne!(value_statistics.lookup(name).unit_suffix, "?");
    }
}

#[test]
fn find_unknown_name() {
    let value_statistics = ValueStatistics::create();
    assert!(value_statistics.find("does not exist").is_none());
    assert!(value_statistics.find("").is_none());
    let found = value_statistics.find("cpu_stime").expect("known statistic");
    assert_details(found, "milliseconds", "ms", "counter");
}

#[test]
fn suffix_of_context_switches() {
    assert_eq!(ValueStatistics::suffix_lookup_value("context switches"), "csws");
}

#[test]
fn suffix_of_unregistered_unit() {
    assert_eq!(ValueStatistics::suffix_lookup_value("furlongs"), "?");
    assert_eq!(ValueStatistics::suffix_lookup_value(""), "?");
    assert_eq!(ValueStatistics::suffix_lookup_value("Bytes"), "?");
}

#[test]
fn suffix_of_catch_all_unit() {
    assert_eq!(ValueStatistics::suffix_lookup_value("?"), "?");
}

#[test]
fn suffix_table_entries() {
    let cases = [
        ("blocks", "blocks"),
        ("bytes", "bytes"),
        ("connections", "conn"),
        ("current consensus term", "terms"),
        ("indicator", "y/n"),
        ("microseconds", "us"),
        ("milliseconds", "ms"),
        ("nanoseconds", "ns"),
        ("operations", "ops"),
        ("queries", "qry"),
        ("rejections", "reject"),
        ("requests", "reqs"),
        ("transactions", "txns"),
        ("writes", "writes"),
    ];
    for (unit, suffix) in cases {
        assert_eq!(ValueStatistics::suffix_lookup_value(unit), suffix);
    }
}

#[test]
fn unit_names_resolve_to_their_unit() {
    assert_eq!(Unit::from_name("context switches"), Some(Unit::ContextSwitches));
    assert_eq!(Unit::from_name("?"), Some(Unit::Unknown));
    assert_eq!(Unit::from_name("furlongs"), None);
    assert_eq!(Unit::ContextSwitches.name(), "context switches");
    assert_eq!(Unit::ContextSwitches.suffix(), "csws");
    assert_eq!(Unit::Unknown.suffix(), "?");
}

#[test]
fn statistic_kind_names() {
    assert_eq!(StatisticKind::Counter.name(), "counter");
    assert_eq!(StatisticKind::Gauge.name(), "gauge");
    assert_eq!(StatisticKind::Unknown.name(), "?");
}

#[test]
fn same_text_compares_characters() {
    assert!(same_text("bytes", "bytes"));
    assert!(same_text("", ""));
    assert!(!same_text("bytes", "byte"));
    assert!(!same_text("bytes", "bytez"));
    assert!(!same_text("", "?"));
    assert!(same_text("\u{e9}t\u{e9}", "\u{e9}t\u{e9}"));
    assert!(!same_text("\u{e9}", "e"));
}
