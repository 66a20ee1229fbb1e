use gt_trav::logs::text::{MILLIS_PATTERN, MINUTES_PATTERN};
use gt_trav::logs::event_log::{event_entry, handle_event_entry, EventLogStorage};
use gt_trav::logs::logs::LogStorage as _;
use gt_trav::logs::logs_struct::EventLog;
use gt_trav::logs::text::{decode_message, hex_bytes};
use gt_trav::logs::{new_log_entry, LogEntry, LogLevel, LogStorage, LogSystem};
use std::time::Duration;

fn entry(message: &str) -> LogEntry {
    LogEntry::compose("t".to_string(), LogLevel::Info, message.to_string())
}

fn messages(entries: &[LogEntry]) -> Vec<String> {
    entries.iter().map(|e| e.message.clone()).collect()
}

#[test]
fn level_labels() {
    assert_eq!(LogLevel::Debug.as_str(), "DEBUG");
    assert_eq!(LogLevel::Info.as_str(), "INFO");
    assert_eq!(LogLevel::Warning.as_str(), "WARN");
    assert_eq!(LogLevel::Error.as_str(), "ERROR");
}

#[test]
fn compose_sets_fields() {
    let e = LogEntry::compose("2024-01-01".to_string(), LogLevel::Warning, "disk".to_string());
    assert_eq!(e.timestamp, "2024-01-01");
    assert_eq!(e.level, "WARN");
    assert_eq!(e.message, "disk");
}

#[test]
fn storage_drops_oldest_beyond_limit() {
    let mut storage = LogStorage::new();
    for m in ["a", "b", "c", "d"] {
        storage.add_entry(entry(m), 3);
    }
    assert_eq!(messages(&storage.entries), vec!["b", "c", "d"]);
}

#[test]
fn overfull_storage_is_trimmed_to_the_newest() {
    let mut storage = LogStorage { entries: ["a", "b", "c", "d", "e"].iter().map(|m| entry(m)).collect() };
    storage.add_entry(entry("f"), 2);
    assert_eq!(messages(&storage.entries), vec!["e", "f"]);
}

#[test]
fn storage_keeps_all_within_limit() {
    let mut storage = LogStorage::new();
    storage.add_entry(entry("a"), 3);
    storage.add_entry(entry("b"), 3);
    assert_eq!(messages(&storage.entries), vec!["a", "b"]);
}

#[test]
fn storage_with_no_room_stays_empty() {
    let mut storage = LogStorage::new();
    storage.add_entry(entry("a"), 0);
    assert!(storage.entries.is_empty());
}

#[test]
fn system_receive_shows_what_is_kept() {
    let mut system = LogSystem::new(2, 100, Duration::from_millis(100));
    assert_eq!(system.max_logs, 2);
    assert_eq!(system.batch_size, 100);
    assert_eq!(system.update_interval, Duration::from_millis(100));
    let shown = system.receive(entry("x"));
    assert_eq!(messages(&shown), vec!["x"]);
    system.receive(entry("y"));
    let shown = system.receive(entry("z"));
    assert_eq!(messages(&shown), vec!["y", "z"]);
    assert_eq!(messages(&system.get_logs()), vec!["y", "z"]);
}

#[test]
fn system_clear_forgets_everything() {
    let mut system = LogSystem::new(5, 10, Duration::from_secs(1));
    system.receive(entry("x"));
    system.clear_logs();
    assert!(system.get_logs().is_empty());
    assert_eq!(system.max_logs, 5);
}

#[test]
fn log_keeps_the_message_text() {
    let system = LogSystem::new(5, 10, Duration::from_secs(1));
    let e = system.log("代理启动成功".to_string(), LogLevel::Info, "2024-05-01 12:30:45.123".to_string());
    assert_eq!(e.message, "代理启动成功");
    assert_eq!(e.level, "INFO");
    assert_eq!(e.timestamp, "2024-05-01 12:30:45.123");
}

#[test]
fn batch_log_keeps_order() {
    let system = LogSystem::new(5, 10, Duration::from_secs(1));
    let out = system.batch_log(vec![
        ("one".to_string(), LogLevel::Debug, "t1".to_string()),
        ("two".to_string(), LogLevel::Error, "t2".to_string()),
    ]);
    assert_eq!(out[0].timestamp, "t1");
    assert_eq!(out[1].timestamp, "t2");
    assert_eq!(out.len(), 2);
    assert_eq!(out[0].message, "one");
    assert_eq!(out[0].level, "DEBUG");
    assert_eq!(out[1].message, "two");
    assert_eq!(out[1].level, "ERROR");
}

#[test]
fn new_entry_is_stamped_to_the_millisecond() {
    let stamp = chrono::Local::now().format(MILLIS_PATTERN).to_string();
    let e = new_log_entry("hello".to_string(), LogLevel::Info, stamp.clone());
    assert_eq!(e.message, "hello");
    assert_eq!(e.level, "INFO");
    assert_eq!(e.timestamp, stamp);
    let t: Vec<char> = e.timestamp.chars().collect();
    assert_eq!(t.len(), 23);
    assert_eq!(t[4], '-');
    assert_eq!(t[10], ' ');
    assert_eq!(t[19], '.');
}

#[test]
fn decode_utf8_message() {
    assert_eq!(decode_message("héllo".as_bytes()), "héllo");
    assert_eq!(decode_message(b""), "");
}

#[test]
fn decode_gbk_message() {
    // "中文" in GBK.
    assert_eq!(decode_message(&[0xD6, 0xD0, 0xCE, 0xC4]), "中文");
}

#[test]
fn decode_gbk_euro_sign() {
    assert_eq!(decode_message(&[0x80]), "€");
}

#[test]
fn decode_falls_back_to_hex() {
    assert_eq!(decode_message(&[0xFF]), "FF");
    assert_eq!(decode_message(&[0x0A, 0xFF]), "0A FF");
}

#[test]
fn hex_listing_exact() {
    assert_eq!(hex_bytes(&[]), "");
    assert_eq!(hex_bytes(&[0x00]), "00");
    assert_eq!(hex_bytes(&[0x0A, 0xFF, 0x3c]), "0A FF 3C");
}

fn event(message: &str) -> EventLog {
    EventLog { level: "INFO".to_string(), message: message.to_string(), timestamp: "t".to_string() }
}

#[test]
fn event_storage_window_and_clear() {
    let mut storage = EventLogStorage::new();
    storage.add_entry(event("a"), 2);
    storage.add_entry(event("b"), 2);
    storage.add_entry(event("c"), 2);
    let kept: Vec<String> = storage.get_entries().iter().map(|e| e.message.clone()).collect();
    assert_eq!(kept, vec!["b", "c"]);
    storage.get_entries_mut().push(event("d"));
    assert_eq!(storage.get_entries().len(), 3);
    storage.clear();
    assert!(storage.get_entries().is_empty());
}

#[test]
fn event_handler_shows_what_is_kept() {
    let mut storage = EventLogStorage::new();
    handle_event_entry(&mut storage, event("a"), 1);
    let shown = handle_event_entry(&mut storage, event("b"), 1);
    assert_eq!(shown.len(), 1);
    assert_eq!(shown[0].message, "b");
}

#[test]
fn event_entry_is_stamped_to_the_minute() {
    let stamp = chrono::Local::now().format(MINUTES_PATTERN).to_string();
    let e = event_entry("ERROR".to_string(), "boom".to_string(), stamp.clone());
    assert_eq!(e.level, "ERROR");
    assert_eq!(e.message, "boom");
    assert_eq!(e.timestamp, stamp);
    assert_eq!(e.timestamp.chars().count(), 16);
}

use gt_trav::logs::event_log::EventLogSystem;

#[test]
fn event_system_limits_and_clear() {
    let mut system = EventLogSystem::new(2, 100, Duration::from_millis(100));
    assert_eq!(system.get_max_logs(), 2);
    assert_eq!(system.get_batch_size(), 100);
    assert_eq!(system.get_update_interval(), Duration::from_millis(100));
    system.receive(event("a"));
    system.receive(event("b"));
    let shown = system.receive(event("c"));
    let kept: Vec<String> = shown.iter().map(|e| e.message.clone()).collect();
    assert_eq!(kept, vec!["b", "c"]);
    system.clear_logs();
    assert!(system.receive(event("d")).len() == 1);
}

use gt_trav::logs::text::accept_decoding;

#[test]
fn decoding_with_errors_is_refused() {
    assert_eq!(accept_decoding(("abc".to_string(), false)), Some("abc".to_string()));
    assert_eq!(accept_decoding(("a\u{FFFD}".to_string(), true)), None);
}
