use cursedboard::duration_serde::{
    split_duration_string, unit_millis, unit_of, DurationUnit,
};
use std::time::Duration;

fn format_duration(duration: &Duration) -> String {
    cursedboard::duration_serde::format_duration(duration.as_secs(), duration.subsec_millis())
}

#[test]
fn test_format_duration() {
    assert_eq!(format_duration(&Duration::from_secs(10)), "10s");
    assert_eq!(format_duration(&Duration::from_millis(500)), "500ms");
    assert_eq!(format_duration(&Duration::from_secs(120)), "2m");
    assert_eq!(format_duration(&Duration::from_secs(3600)), "1h");
}

#[test]
fn format_duration_edges() {
    assert_eq!(format_duration(&Duration::from_millis(0)), "0ms");
    assert_eq!(format_duration(&Duration::from_millis(999)), "999ms");
    assert_eq!(format_duration(&Duration::from_millis(1500)), "1.5s");
    assert_eq!(format_duration(&Duration::from_millis(1050)), "1.0s");
    assert_eq!(format_duration(&Duration::from_secs(59)), "59s");
    assert_eq!(format_duration(&Duration::from_secs(60)), "1m");
    assert_eq!(format_duration(&Duration::from_secs(3599)), "59m");
    assert_eq!(format_duration(&Duration::from_secs(7300)), "2h");
    assert_eq!(format_duration(&Duration::from_millis(61_500)), "1m");
}

#[test]
fn format_duration_of_parts() {
    assert_eq!(cursedboard::duration_serde::format_duration(10, 0), "10s");
    assert_eq!(cursedboard::duration_serde::format_duration(0, 500), "500ms");
    assert_eq!(cursedboard::duration_serde::format_duration(2, 340), "2.3s");
    assert_eq!(cursedboard::duration_serde::format_duration(0, 0), "0ms");
    assert_eq!(
        cursedboard::duration_serde::format_duration(u64::MAX, 0),
        format!("{}h", u64::MAX / 3600)
    );
}

#[test]
fn split_duration_text() {
    assert_eq!(split_duration_string("10s"), Ok(("10", "s")));
    assert_eq!(split_duration_string("500ms"), Ok(("500", "ms")));
    assert_eq!(split_duration_string("1.5s"), Ok(("1.5", "s")));
    assert_eq!(split_duration_string("0.5h"), Ok(("0.5", "h")));
    assert_eq!(split_duration_string("42"), Ok(("42", "")));
    assert_eq!(split_duration_string("7 days"), Ok(("7 ", "days")));
    assert_eq!(split_duration_string("ms"), Err("No numeric value found".to_string()));
    assert_eq!(split_duration_string(""), Err("No numeric value found".to_string()));
    assert_eq!(split_duration_string("½é"), Ok(("½", "é")));
}

#[test]
fn units() {
    assert_eq!(unit_of("ms"), Some(DurationUnit::Millis));
    assert_eq!(unit_of("s"), Some(DurationUnit::Seconds));
    assert_eq!(unit_of(""), Some(DurationUnit::Seconds));
    assert_eq!(unit_of("m"), Some(DurationUnit::Minutes));
    assert_eq!(unit_of("h"), Some(DurationUnit::Hours));
    assert_eq!(unit_of("d"), None);
    assert_eq!(unit_of("S"), None);
    assert_eq!(unit_millis(DurationUnit::Millis), 1);
    assert_eq!(unit_millis(DurationUnit::Seconds), 1000);
    assert_eq!(unit_millis(DurationUnit::Minutes), 60_000);
    assert_eq!(unit_millis(DurationUnit::Hours), 3_600_000);
}
