use std::time::SystemTime;

use egui_inspect::logging::{GuiLogData, LogLevel, DEFAULT_MAX_ENTRIES};

fn texts(d: &GuiLogData) -> Vec<(String, u32)> {
    d.items().iter().map(|e| (e.text().clone(), e.count())).collect()
}

#[test]
fn repeats_are_counted() {
    let mut d = GuiLogData::default();
    assert_eq!(d.max_logs_shown(), DEFAULT_MAX_ENTRIES);
    d.push("a".to_string(), LogLevel::Info);
    d.push("a".to_string(), LogLevel::Warn);
    d.push("b".to_string(), LogLevel::Error);
    d.push("a".to_string(), LogLevel::Info);
    assert_eq!(
        texts(&d),
        vec![("a".to_string(), 2), ("b".to_string(), 1), ("a".to_string(), 1)]
    );
    assert_eq!(d.items()[0].level(), LogLevel::Info);
    assert_eq!(d.items()[1].level(), LogLevel::Error);
}

#[test]
fn oldest_line_goes_past_the_limit() {
    let mut d = GuiLogData::new();
    d.set_max_entries(2);
    let t = SystemTime::now();
    d.push_at(t, "1".to_string(), LogLevel::Info);
    d.push_at(t, "2".to_string(), LogLevel::Info);
    d.push_at(t, "3".to_string(), LogLevel::Info);
    assert_eq!(texts(&d), vec![("2".to_string(), 1), ("3".to_string(), 1)]);
    assert_eq!(d.items()[0].time(), t);
    d.push_at(t, "3".to_string(), LogLevel::Info);
    assert_eq!(texts(&d), vec![("2".to_string(), 1), ("3".to_string(), 2)]);
}

#[test]
fn zero_limit_keeps_nothing() {
    let mut d = GuiLogData::new();
    d.set_max_entries(0);
    d.push("a".to_string(), LogLevel::Info);
    assert!(d.items().is_empty());
}

#[test]
fn lowering_the_limit_drops_one_line_per_message() {
    let mut d = GuiLogData::new();
    for t in ["1", "2", "3"] {
        d.push(t.to_string(), LogLevel::Debug);
    }
    d.set_max_entries(1);
    assert_eq!(d.items().len(), 3);
    d.push("4".to_string(), LogLevel::Trace);
    assert_eq!(texts(&d), vec![("2".to_string(), 1), ("3".to_string(), 1), ("4".to_string(), 1)]);
}
