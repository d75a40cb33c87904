//! The records exchanged between the database, the supervisor and the host.
use vstd::prelude::*;

verus! {

/// Where and how to open a database session. Immutable once made.
#[derive(Debug, Clone, PartialEq, Eq)]
pub struct ConnectionConfig {
    pub host: String,
    pub port: u16,
    pub username: String,
    pub password: String,
    pub database: String,
    pub trust_cert: bool,
}

impl ConnectionConfig {
    /// A field-for-field copy.
    pub fn copy_of(&self) -> (r: ConnectionConfig)
        ensures
            r == *self,
    {
        ConnectionConfig {
            host: self.host.clone(),
            port: self.port,
            username: self.username.clone(),
            password: self.password.clone(),
            database: self.database.clone(),
            trust_cert: self.trust_cert,
        }
    }
}

/// One statement-level event, as published to the host.
#[derive(Debug, Clone, PartialEq, Eq)]
pub struct QueryEvent {
    pub id: String,
    pub session_id: i32,
    pub start_time: String,
    pub event_name: String,
    pub database_name: String,
    pub cpu_time: i32,
    pub elapsed_time: i32,
    pub physical_reads: i64,
    pub writes: i64,
    pub logical_reads: i64,
    pub row_count: i64,
    pub sql_text: String,
    pub current_statement: String,
    pub login_name: String,
    pub host_name: String,
    pub program_name: String,
    pub captured_at: String,
    pub event_status: String,
}

impl QueryEvent {
    /// A field-for-field copy.
    pub fn copy_of(&self) -> (r: QueryEvent)
        ensures
            r == *self,
    {
        QueryEvent {
            id: self.id.clone(),
            session_id: self.session_id,
            start_time: self.start_time.clone(),
            event_name: self.event_name.clone(),
            database_name: self.database_name.clone(),
            cpu_time: self.cpu_time,
            elapsed_time: self.elapsed_time,
            physical_reads: self.physical_reads,
            writes: self.writes,
            logical_reads: self.logical_reads,
            row_count: self.row_count,
            sql_text: self.sql_text.clone(),
            current_statement: self.current_statement.clone(),
            login_name: self.login_name.clone(),
            host_name: self.host_name.clone(),
            program_name: self.program_name.clone(),
            captured_at: self.captured_at.clone(),
            event_status: self.event_status.clone(),
        }
    }
}

/// Two events agree on every field but their identity and capture time.
pub open spec fn same_content(a: QueryEvent, b: QueryEvent) -> bool {
    &&& a.session_id == b.session_id
    &&& a.start_time@ == b.start_time@
    &&& a.event_name@ == b.event_name@
    &&& a.database_name@ == b.database_name@
    &&& a.cpu_time == b.cpu_time
    &&& a.elapsed_time == b.elapsed_time
    &&& a.physical_reads == b.physical_reads
    &&& a.writes == b.writes
    &&& a.logical_reads == b.logical_reads
    &&& a.row_count == b.row_count
    &&& a.sql_text@ == b.sql_text@
    &&& a.current_statement@ == b.current_statement@
    &&& a.login_name@ == b.login_name@
    &&& a.host_name@ == b.host_name@
    &&& a.program_name@ == b.program_name@
    &&& a.event_status@ == b.event_status@
}

/// What the host is told about the supervisor's state.
#[derive(Debug, Clone, PartialEq, Eq)]
pub struct ProfilerStatus {
    pub connected: bool,
    pub capturing: bool,
    pub error: Option<String>,
}

/// A normalised row from a poll, with the server's event ordinal
/// (zero or less when the server gave none).
#[derive(Debug, Clone, PartialEq, Eq)]
pub struct PolledEvent {
    pub event: QueryEvent,
    pub event_sequence: i64,
}

/// The server-side trace that a capture owns.
#[derive(Debug, Clone, PartialEq, Eq)]
pub struct ActiveTrace {
    pub trace_id: i32,
    pub trace_file: String,
}

} // verus!
