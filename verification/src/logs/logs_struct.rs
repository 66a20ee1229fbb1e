use vstd::prelude::*;
use crate::logs::logs::LogEntry;

verus! {

/// One exchange seen by the proxy, as shown in the proxy log.
#[derive(Debug, Default)]
pub struct ProxyLogEntry {
    pub timestamp: String,
    pub id: String,
    pub host: String,
    pub method: String,
    pub url: String,
    pub status_code: String,
    pub length: String,
}

impl Clone for ProxyLogEntry {
    fn clone(&self) -> (r: Self)
        ensures
            r == *self,
    {
        ProxyLogEntry {
            timestamp: self.timestamp.clone(),
            id: self.id.clone(),
            host: self.host.clone(),
            method: self.method.clone(),
            url: self.url.clone(),
            status_code: self.status_code.clone(),
            length: self.length.clone(),
        }
    }
}

impl LogEntry for ProxyLogEntry {

}

/// A general application event.
#[derive(Debug, Default)]
pub struct EventLog {
    pub level: String,
    pub message: String,
    pub timestamp: String,
}

impl Clone for EventLog {
    fn clone(&self) -> (r: Self)
        ensures
            r == *self,
    {
        EventLog {
            level: self.level.clone(),
            message: self.message.clone(),
            timestamp: self.timestamp.clone(),
        }
    }
}

impl LogEntry for EventLog {

}

} // verus!
