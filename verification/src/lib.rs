//! Core logic of a log-tail reset tracker: it classifies newly appended log
//! lines into session-start and reset events, follows a growing file through
//! an incremental line cursor, and drives the watch/reopen and debounced
//! config-reload state machines that the surrounding runtime loops execute.
pub mod appconfig;
pub mod obs;
pub mod reset_tracker;
pub mod tail;
pub mod timeparse;
pub mod vrconfig;
pub mod watcher;
