//! Verified core of a desktop HTTP(S) debugging proxy: log storage and
//! formatting, tab and window bookkeeping, proxy request parsing and
//! certificate handling.

pub mod backend;
pub mod componts;
pub mod logs;
pub mod strings;
