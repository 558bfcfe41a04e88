//! The shapes served to the dashboard, and how they are computed from the
//! published state. Serialisation and transport belong to the runtime;
//! here each response is built from plain values, with rendered times
//! handed in by the caller.

use vstd::prelude::*;
use crate::backup::{format_bytes, spec_format_bytes};
use crate::state::{
    level_name, source_name, status_name, BackupInfo, LogEntry, StateSnapshot,
};

verus! {

/// The summary served for a status request.
pub struct StatusResponse {
    pub status: String,
    pub pid: Option<u32>,
    pub uptime_secs: u64,
    pub restart_count: u32,
    pub auto_restart_remaining_secs: Option<u64>,
    pub next_backup_secs: Option<u64>,
}

/// One served log line; the timestamp is already rendered.
pub struct LogResponse {
    pub timestamp: String,
    pub level: String,
    pub source: String,
    pub message: String,
}

/// One served backup record; the creation time is already rendered.
pub struct BackupResponse {
    pub filename: String,
    pub size: String,
    pub size_bytes: u64,
    pub created_at: String,
}

/// Acknowledgement of a command request.
pub struct SuccessResponse {
    pub success: bool,
    pub message: Option<String>,
}

/// Parameters of a log listing request.
pub struct LogsQuery {
    pub limit: usize,
}

/// How many log lines a listing returns when the request names no limit.
pub fn default_limit() -> (r: usize)
    ensures
        r == 100,
{
    100
}

/// Build the status summary from a state snapshot.
pub fn status_response_of(snap: &StateSnapshot) -> (r: StatusResponse)
    ensures
        r.status@ == status_name(snap.status),
        r.pid == snap.pid,
        r.uptime_secs == snap.uptime_secs,
        r.restart_count == snap.restart_count,
        r.auto_restart_remaining_secs == snap.auto_restart_remaining_secs,
        r.next_backup_secs == snap.next_backup_secs,
{
    StatusResponse {
        status: snap.status.as_str().to_owned(),
        pid: snap.pid,
        uptime_secs: snap.uptime_secs,
        restart_count: snap.restart_count,
        auto_restart_remaining_secs: snap.auto_restart_remaining_secs,
        next_backup_secs: snap.next_backup_secs,
    }
}

/// Build one served log line from a stored entry and its rendered time.
pub fn log_response_of(entry: &LogEntry, rendered_time: String) -> (r: LogResponse)
    ensures
        r.timestamp@ == rendered_time@,
        r.level@ == level_name(entry.level),
        r.source@ == source_name(entry.source),
        r.message@ == entry.message@,
{
    LogResponse {
        timestamp: rendered_time,
        level: entry.level.as_str().to_owned(),
        source: entry.source.as_str().to_owned(),
        message: entry.message.clone(),
    }
}

/// Build one served backup record from a stored one and its rendered
/// creation time.
pub fn backup_response_of(info: &BackupInfo, rendered_time: String) -> (r: BackupResponse)
    ensures
        r.filename@ == info.filename@,
        r.size@ == spec_format_bytes(info.size_bytes),
        r.size_bytes == info.size_bytes,
        r.created_at@ == rendered_time@,
{
    BackupResponse {
        filename: info.filename.clone(),
        size: format_bytes(info.size_bytes),
        size_bytes: info.size_bytes,
        created_at: rendered_time,
    }
}

} // verus!
