use check_http::error::ConfigError;
use check_http::level::{Level, Mode};
use check_http::measure::{Elapsed, Real};
use check_http::metric::{render_optional, Metric, Uom};

#[test]
fn unit_tags_are_parsed() {
    for tag in ["s", "ms", "us", "%", "B", "KB", "MB", "TB", "c", ""] {
        assert_eq!(Uom::parse(tag).unwrap().as_str(), tag);
    }
}

#[test]
fn unit_tags_with_forbidden_characters_are_refused() {
    for tag in ["1", "m2", "s;", ";", "'s'", "\"", "k B", " ", "0", "9", "m\ts", "s\n", "\rs"] {
        assert_eq!(Uom::parse(tag).err(), Some(ConfigError::InvalidUnit));
    }
}

#[test]
fn unit_tags_may_hold_other_characters() {
    assert_eq!(Uom::parse("°C").unwrap().as_str(), "°C");
    assert_eq!(Uom::parse("req/s").unwrap().as_str(), "req/s");
}

#[test]
fn metric_needs_a_label() {
    let made = Metric::new(String::new(), 1u64, "s", None, None, None);
    assert_eq!(made.err(), Some(ConfigError::EmptyLabel));
    let made = Metric::new(String::new(), 1u64, "5", None, None, None);
    assert_eq!(made.err(), Some(ConfigError::EmptyLabel));
}

#[test]
fn metric_needs_a_unit_tag() {
    let made = Metric::new(String::from("size"), 1u64, "2B", None, None, None);
    assert_eq!(made.err(), Some(ConfigError::InvalidUnit));
}

#[test]
fn metric_keeps_what_it_was_given() {
    let levels = Level::new(Mode::Upper, Some(10u64), Some(20u64));
    let metric = Metric::new(String::from("size"), 5u64, "B", Some(levels), Some(0), Some(100))
        .ok()
        .unwrap();
    assert_eq!(metric.label, "size");
    assert_eq!(metric.value, 5);
    assert_eq!(metric.uom.as_str(), "B");
    assert_eq!(metric.min, Some(0));
    assert_eq!(metric.max, Some(100));
    let levels = metric.levels.unwrap();
    assert_eq!(levels.mode, Mode::Upper);
    assert_eq!(levels.warn, Some(10));
    assert_eq!(levels.crit, Some(20));
}

#[test]
fn metric_is_written_as_performance_data() {
    let levels = Level::new(Mode::Upper, Some(10u64), Some(20u64));
    let metric = Metric::new(String::from("size"), 5u64, "B", Some(levels), Some(0), Some(100))
        .ok()
        .unwrap();
    assert_eq!(metric.render(), "size=5B;10;20;0;100");
}

#[test]
fn absent_parts_of_performance_data_are_empty() {
    let bare = Metric::new(String::from("count"), 5u64, "", None, None, None).ok().unwrap();
    assert_eq!(bare.render(), "count=5;;;;");
    let warn_only = Level::new(Mode::Upper, Some(10u64), None);
    let metric = Metric::new(String::from("count"), 5u64, "c", Some(warn_only), None, Some(9))
        .ok()
        .unwrap();
    assert_eq!(metric.render(), "count=5c;10;;;9");
    let crit_only = Level::new(Mode::Lower, None, Some(3u64));
    let metric = Metric::new(String::from("count"), 5u64, "c", Some(crit_only), Some(1), None)
        .ok()
        .unwrap();
    assert_eq!(metric.render(), "count=5c;;3;1;");
}

#[test]
fn response_time_metric_is_written_in_seconds() {
    let levels = Level::new(
        Mode::Upper,
        Some(Elapsed::from_millis(1000)),
        Some(Elapsed::from_millis(3000)),
    );
    let metric = Metric::new(
        String::from("overall_response_time"),
        Elapsed::from_millis(2500),
        "s",
        Some(levels),
        None,
        None,
    )
    .ok()
    .unwrap();
    assert_eq!(metric.render(), "overall_response_time=2.5s;1;3;;");
}

#[test]
fn metric_map_converts_every_value() {
    let levels = Level::new(
        Mode::Upper,
        Some(Elapsed::from_millis(1000)),
        Some(Elapsed::from_millis(3000)),
    );
    let metric = Metric::new(
        String::from("time"),
        Elapsed::from_millis(2500),
        "s",
        Some(levels),
        Some(Elapsed::from_millis(0)),
        Some(Elapsed::from_millis(9000)),
    )
    .ok()
    .unwrap();
    let mapped = metric.map(&Real::from_elapsed);
    assert_eq!(mapped.label, "time");
    assert_eq!(mapped.uom.as_str(), "s");
    assert_eq!(mapped.value, Real { billionths: 2_500_000_000 });
    assert_eq!(mapped.min, Some(Real { billionths: 0 }));
    assert_eq!(mapped.max, Some(Real { billionths: 9_000_000_000 }));
    let levels = mapped.levels.unwrap();
    assert_eq!(levels.mode, Mode::Upper);
    assert_eq!(levels.warn, Some(Real { billionths: 1_000_000_000 }));
    assert_eq!(levels.crit, Some(Real { billionths: 3_000_000_000 }));
}

#[test]
fn optional_values_are_written_or_left_out() {
    assert_eq!(render_optional(&Some(12u64)), "12");
    assert_eq!(render_optional::<u64>(&None), "");
}
