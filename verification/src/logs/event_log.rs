use vstd::prelude::*;
use crate::logs::logs::{LogStorage, window_push, lemma_window_bounded};
use std::time::Duration;
use crate::logs::logs_struct::EventLog;

verus! {

/// The store behind the event log.
pub struct EventLogStorage {
    entries: Vec<EventLog>,
}

impl LogStorage for EventLogStorage {
    type Entry = EventLog;

    closed spec fn entries(&self) -> Seq<EventLog> {
        self.entries@
    }

    fn new() -> (s: Self) {
        EventLogStorage { entries: Vec::new() }
    }

    fn get_entries(&self) -> (r: &Vec<EventLog>) {
        &self.entries
    }

    fn get_entries_mut(&mut self) -> (r: &mut Vec<EventLog>) {
        &mut self.entries
    }
}

/// A new event at `level` with `message`, stamped with `timestamp`: the
/// local time written with `MINUTES_PATTERN`, which the caller reads from
/// the clock.
pub fn event_entry(level: String, message: String, timestamp: String) -> (e: EventLog)
    ensures
        e.level == level,
        e.message == message,
        e.timestamp == timestamp,
{
    EventLog { level, message, timestamp }
}

/// Takes in an event that reached the event log and returns what the view
/// must now show.
pub fn handle_event_entry(storage: &mut EventLogStorage, entry: EventLog, max_logs: usize) -> (shown: Vec<EventLog>)
    ensures
        final(storage).entries() == window_push(old(storage).entries(), entry, max_logs as nat),
        shown@ == final(storage).entries(),
{
    storage.add_entry(entry, max_logs);
    let kept = storage.get_entries();
    let shown = kept.clone();
    assert forall|i: int| 0 <= i < shown@.len() implies shown@[i] == kept@[i] by {
        assert(cloned::<EventLog>(kept@[i], shown@[i]));
    }
    assert(shown@ =~= kept@);
    shown
}

/// The state of the event log: its limits and the events it keeps.
pub struct EventLogSystem {
    max_logs: usize,
    batch_size: usize,
    update_interval: Duration,
    storage: EventLogStorage,
}

impl EventLogSystem {
    /// The events kept, oldest first.
    pub closed spec fn events(&self) -> Seq<EventLog> {
        self.storage.entries()
    }

    pub closed spec fn spec_max_logs(&self) -> usize {
        self.max_logs
    }

    pub closed spec fn spec_batch_size(&self) -> usize {
        self.batch_size
    }

    pub closed spec fn spec_update_interval(&self) -> Duration {
        self.update_interval
    }

    /// An event log with the given limits that holds nothing yet.
    pub fn new(max_logs: usize, batch_size: usize, update_interval: Duration) -> (s: Self)
        ensures
            s.spec_max_logs() == max_logs,
            s.spec_batch_size() == batch_size,
            s.spec_update_interval() == update_interval,
            s.events() == Seq::<EventLog>::empty(),
    {
        EventLogSystem { max_logs, batch_size, update_interval, storage: EventLogStorage::new() }
    }

    pub fn get_max_logs(&self) -> (n: usize)
        ensures
            n == self.spec_max_logs(),
    {
        self.max_logs
    }

    pub fn get_batch_size(&self) -> (n: usize)
        ensures
            n == self.spec_batch_size(),
    {
        self.batch_size
    }

    pub fn get_update_interval(&self) -> (d: Duration)
        ensures
            d == self.spec_update_interval(),
    {
        self.update_interval
    }

    /// Takes in an event that reached the log and returns what the view
    /// must now show.
    pub fn receive(&mut self, entry: EventLog) -> (shown: Vec<EventLog>)
        ensures
            final(self).events() == window_push(old(self).events(), entry, old(self).spec_max_logs() as nat),
            shown@ == final(self).events(),
            final(self).spec_max_logs() == old(self).spec_max_logs(),
            final(self).spec_batch_size() == old(self).spec_batch_size(),
            final(self).spec_update_interval() == old(self).spec_update_interval(),
            final(self).events().len() <= final(self).spec_max_logs(),
    {
        proof {
            lemma_window_bounded(old(self).events(), entry, old(self).spec_max_logs() as nat);
        }
        let max_logs = self.max_logs;
        handle_event_entry(&mut self.storage, entry, max_logs)
    }

    /// Forgets every event.
    pub fn clear_logs(&mut self)
        ensures
            final(self).events() == Seq::<EventLog>::empty(),
            final(self).spec_max_logs() == old(self).spec_max_logs(),
            final(self).spec_batch_size() == old(self).spec_batch_size(),
            final(self).spec_update_interval() == old(self).spec_update_interval(),
    {
        self.storage.clear();
    }
}

} // verus!
