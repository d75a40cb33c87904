//! Verified core of a live query-activity profiler for SQL Server:
//! normalisation of backend rows (classic trace, extended events) into one
//! event record, watermark de-duplication of polled events, the tracking of
//! live requests, and the supervisor's connect / capture state machine.
pub mod text;
pub mod model;
pub mod trace;
pub mod watermark;
pub mod poll;
pub mod supervisor;
pub mod live;
pub mod sql;
pub mod xevents;
