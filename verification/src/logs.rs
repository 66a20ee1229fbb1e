pub mod event_log;
pub mod logs;
pub mod logs_struct;
pub mod text;

use vstd::prelude::*;
use crate::logs::logs::{window_push, lemma_window_bounded, push_bounded};
use crate::logs::text::decode_message;
use vstd::utf8::{encode_utf8_valid_utf8, encode_utf8_decode_utf8};
use std::time::Duration;

verus! {

/// Severity of a log message.
#[derive(Clone, Copy, Debug, PartialEq, Eq, Structural)]
pub enum LogLevel {
    Debug,
    Info,
    Warning,
    Error,
}

impl LogLevel {
    /// The label that is shown for this level.
    pub open spec fn label(self) -> Seq<char> {
        match self {
            LogLevel::Debug => "DEBUG"@,
            LogLevel::Info => "INFO"@,
            LogLevel::Warning => "WARN"@,
            LogLevel::Error => "ERROR"@,
        }
    }

    pub fn as_str(&self) -> (s: &'static str)
        ensures
            s@ == self.label(),
    {
        match self {
            LogLevel::Debug => "DEBUG",
            LogLevel::Info => "INFO",
            LogLevel::Warning => "WARN",
            LogLevel::Error => "ERROR",
        }
    }
}

/// One line of the general log, as the log view shows it.
#[derive(Debug, Default)]
pub struct LogEntry {
    pub timestamp: String,
    pub level: String,
    pub message: String,
}

impl Clone for LogEntry {
    fn clone(&self) -> (r: Self)
        ensures
            r == *self,
    {
        LogEntry {
            timestamp: self.timestamp.clone(),
            level: self.level.clone(),
            message: self.message.clone(),
        }
    }
}

impl LogEntry {
    /// The entry made of a timestamp, a level and a message.
    pub fn compose(timestamp: String, level: LogLevel, message: String) -> (e: LogEntry)
        ensures
            e.timestamp == timestamp,
            e.level@ == level.label(),
            e.message == message,
    {
        LogEntry { timestamp, level: level.as_str().to_string(), message }
    }
}

/// A new entry for `message` at `level`, stamped with `timestamp`: the
/// local time written with `MILLIS_PATTERN`, which the caller reads from
/// the clock.
pub fn new_log_entry(message: String, level: LogLevel, timestamp: String) -> (e: LogEntry)
    ensures
        e.timestamp == timestamp,
        e.level@ == level.label(),
        e.message == message,
{
    LogEntry::compose(timestamp, level, message)
}

/// A copy of a list of entries, entry for entry.
pub fn copy_entries(entries: &Vec<LogEntry>) -> (r: Vec<LogEntry>)
    ensures
        r@ == entries@,
{
    let r = entries.clone();
    assert forall|i: int| 0 <= i < r@.len() implies r@[i] == entries@[i] by {
        assert(cloned::<LogEntry>(entries@[i], r@[i]));
    }
    assert(r@ =~= entries@);
    r
}

/// The entries kept by a log, oldest first.
pub struct LogStorage {
    pub entries: Vec<LogEntry>,
}

impl View for LogStorage {
    type V = Seq<LogEntry>;

    open spec fn view(&self) -> Seq<LogEntry> {
        self.entries@
    }
}

impl LogStorage {
    pub fn new() -> (s: Self)
        ensures
            s@ == Seq::<LogEntry>::empty(),
    {
        LogStorage { entries: Vec::new() }
    }

    /// Appends `entry`; when more than `max_logs` entries are then held, only
    /// the newest `max_logs` are kept.
    pub fn add_entry(&mut self, entry: LogEntry, max_logs: usize)
        ensures
            final(self)@ == window_push(old(self)@, entry, max_logs as nat),
    {
        push_bounded(&mut self.entries, entry, max_logs);
    }
}

/// The state of the general log: its limits and the entries it keeps.
pub struct LogSystem {
    pub max_logs: usize,
    pub batch_size: usize,
    pub update_interval: Duration,
    pub storage: LogStorage,
}

impl LogSystem {
    /// A log with the given limits that holds nothing yet.
    pub fn new(max_logs: usize, batch_size: usize, update_interval: Duration) -> (s: Self)
        ensures
            s.max_logs == max_logs,
            s.batch_size == batch_size,
            s.update_interval == update_interval,
            s.storage@ == Seq::<LogEntry>::empty(),
    {
        LogSystem { max_logs, batch_size, update_interval, storage: LogStorage::new() }
    }

    /// Takes in an entry that reached the log and returns what the view
    /// must now show.
    pub fn receive(&mut self, entry: LogEntry) -> (shown: Vec<LogEntry>)
        ensures
            final(self).storage@ == window_push(old(self).storage@, entry, old(self).max_logs as nat),
            final(self).max_logs == old(self).max_logs,
            final(self).batch_size == old(self).batch_size,
            final(self).update_interval == old(self).update_interval,
            shown@ == final(self).storage@,
            final(self).storage@.len() <= final(self).max_logs,
    {
        proof {
            lemma_window_bounded(old(self).storage@, entry, old(self).max_logs as nat);
        }
        let max_logs = self.max_logs;
        self.storage.add_entry(entry, max_logs);
        copy_entries(&self.storage.entries)
    }

    /// The entries kept, oldest first.
    pub fn get_logs(&self) -> (logs: Vec<LogEntry>)
        ensures
            logs@ == self.storage@,
    {
        copy_entries(&self.storage.entries)
    }

    /// The entry to send for `message` at `level`, stamped with `timestamp`
    /// (the local time written with `MILLIS_PATTERN`): the message is passed
    /// through `decode_message`, which gives a string's own text back.
    pub fn log(&self, message: String, level: LogLevel, timestamp: String) -> (e: LogEntry)
        ensures
            e.timestamp == timestamp,
            e.level@ == level.label(),
            e.message@ == message@,
    {
        let bytes = message.as_str().as_bytes();
        proof {
            broadcast use encode_utf8_valid_utf8, encode_utf8_decode_utf8;
        }
        let decoded = decode_message(bytes);
        LogEntry::compose(timestamp, level, decoded)
    }

    /// The entries to send, in order, for a batch of messages, each with
    /// its level and its timestamp.
    pub fn batch_log(&self, entries: Vec<(String, LogLevel, String)>) -> (out: Vec<LogEntry>)
        ensures
            out@.len() == entries@.len(),
            forall|i: int|
                0 <= i < entries@.len() ==> (#[trigger] out@[i]).message@ == entries@[i].0@
                    && out@[i].level@ == entries@[i].1.label() && out@[i].timestamp
                    == entries@[i].2,
    {
        let mut out: Vec<LogEntry> = Vec::new();
        let n = entries.len();
        let mut i: usize = 0;
        while i < n
            invariant
                n == entries@.len(),
                i <= n,
                out@.len() == i,
                forall|j: int|
                    0 <= j < i ==> (#[trigger] out@[j]).message@ == entries@[j].0@
                        && out@[j].level@ == entries@[j].1.label() && out@[j].timestamp
                        == entries@[j].2,
            decreases n - i,
        {
            let message = entries[i].0.clone();
            let level = entries[i].1;
            let timestamp = entries[i].2.clone();
            let e = self.log(message, level, timestamp);
            out.push(e);
            i = i + 1;
        }
        out
    }

    /// Forgets every entry.
    pub fn clear_logs(&mut self)
        ensures
            final(self).storage@ == Seq::<LogEntry>::empty(),
            final(self).max_logs == old(self).max_logs,
            final(self).batch_size == old(self).batch_size,
            final(self).update_interval == old(self).update_interval,
    {
        self.storage.entries.clear();
    }
}

} // verus!
