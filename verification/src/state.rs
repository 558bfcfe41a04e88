//! Shared state store: current status of the watched process, counters,
//! timers and a bounded ring of classified log lines.
//!
//! The store itself is a plain record; the surrounding runtime is expected
//! to wrap it in whatever synchronization it uses and to hand wall-clock
//! and monotonic timestamps in as plain seconds.

use vstd::prelude::*;

verus! {

/// Default capacity of the log ring.
pub const DEFAULT_MAX_LOGS: usize = 1000;

/// Lifecycle status of the watched process, as published to observers.
#[derive(Clone, Copy, Debug, PartialEq, Eq, Structural)]
pub enum ServerStatus {
    Starting,
    Running,
    Stopping,
    Stopped,
    Restarting,
    Error,
}

/// The published name of a status value.
pub open spec fn status_name(s: ServerStatus) -> Seq<char> {
    match s {
        ServerStatus::Starting => "starting"@,
        ServerStatus::Running => "running"@,
        ServerStatus::Stopping => "stopping"@,
        ServerStatus::Stopped => "stopped"@,
        ServerStatus::Restarting => "restarting"@,
        ServerStatus::Error => "error"@,
    }
}

impl ServerStatus {
    pub fn as_str(&self) -> (r: &'static str)
        ensures
            r@ == status_name(*self),
    {
        match self {
            ServerStatus::Starting => "starting",
            ServerStatus::Running => "running",
            ServerStatus::Stopping => "stopping",
            ServerStatus::Stopped => "stopped",
            ServerStatus::Restarting => "restarting",
            ServerStatus::Error => "error",
        }
    }
}

/// Severity assigned to one log line by the classifier.
#[derive(Clone, Copy, Debug, PartialEq, Eq, Structural)]
pub enum LogLevel {
    Critical,
    Error,
    Warning,
    Info,
}

/// The published name of a severity.
pub open spec fn level_name(l: LogLevel) -> Seq<char> {
    match l {
        LogLevel::Critical => "critical"@,
        LogLevel::Error => "error"@,
        LogLevel::Warning => "warning"@,
        LogLevel::Info => "info"@,
    }
}

impl LogLevel {
    pub fn as_str(&self) -> (r: &'static str)
        ensures
            r@ == level_name(*self),
    {
        match self {
            LogLevel::Critical => "critical",
            LogLevel::Error => "error",
            LogLevel::Warning => "warning",
            LogLevel::Info => "info",
        }
    }
}

/// Which stream or component produced a log line.
#[derive(Clone, Copy, Debug, PartialEq, Eq, Structural)]
pub enum LogSource {
    Server,
    Watcher,
    Stderr,
}

/// The published name of a source.
pub open spec fn source_name(s: LogSource) -> Seq<char> {
    match s {
        LogSource::Server => "server"@,
        LogSource::Watcher => "watcher"@,
        LogSource::Stderr => "stderr"@,
    }
}

impl LogSource {
    pub fn as_str(&self) -> (r: &'static str)
        ensures
            r@ == source_name(*self),
    {
        match self {
            LogSource::Server => "server",
            LogSource::Watcher => "watcher",
            LogSource::Stderr => "stderr",
        }
    }
}

/// One stored log line. The timestamp is wall-clock seconds handed in by
/// the caller when the line was recorded.
#[derive(Clone, Debug)]
pub struct LogEntry {
    pub timestamp: u64,
    pub level: LogLevel,
    pub source: LogSource,
    pub message: String,
}

/// Field-wise equality of log entries, comparing messages by content.
pub open spec fn same_log_entry(a: LogEntry, b: LogEntry) -> bool {
    &&& a.timestamp == b.timestamp
    &&& a.level == b.level
    &&& a.source == b.source
    &&& a.message@ == b.message@
}

/// One archive known to the backup collaborator. The creation time is
/// wall-clock seconds.
#[derive(Clone, Debug)]
pub struct BackupInfo {
    pub filename: String,
    pub size_bytes: u64,
    pub created_at: u64,
}

/// Field-wise equality of backup records, comparing names by content.
pub open spec fn same_backup_info(a: BackupInfo, b: BackupInfo) -> bool {
    &&& a.filename@ == b.filename@
    &&& a.size_bytes == b.size_bytes
    &&& a.created_at == b.created_at
}

/// An atomic read of the presentation-relevant fields of the store.
#[derive(Clone, Copy, Debug)]
pub struct StateSnapshot {
    pub status: ServerStatus,
    pub pid: Option<u32>,
    pub uptime_secs: u64,
    pub restart_count: u32,
    pub auto_restart_remaining_secs: Option<u64>,
    pub next_backup_secs: Option<u64>,
    pub last_backup_time: Option<u64>,
}

/// The record of everything the watcher publishes: status and process
/// identity, the restart counter, countdowns, and the bounded log ring.
pub struct AppState {
    pub status: ServerStatus,
    pub pid: Option<u32>,
    pub restart_count: u32,
    /// Monotonic seconds at which the current process started.
    pub start_time: Option<u64>,
    pub logs: Vec<LogEntry>,
    pub max_logs: usize,
    pub auto_restart_remaining_secs: Option<u64>,
    pub next_backup_secs: Option<u64>,
    pub last_backup_time: Option<u64>,
    pub backups: Vec<BackupInfo>,
}

/// Appending to a ring of capacity `max`: the entry goes at the tail and,
/// past capacity, the oldest entries leave from the front.
pub open spec fn push_evict(logs: Seq<LogEntry>, e: LogEntry, max: nat) -> Seq<LogEntry> {
    let grown = logs.push(e);
    if grown.len() <= max {
        grown
    } else {
        grown.skip(grown.len() - max)
    }
}

/// `post` is `pre` with exactly one entry recorded in the log ring: an
/// entry carrying the given timestamp, severity, source and message text,
/// appended under the ring's eviction rule, every other field unchanged.
pub open spec fn appended_log(
    pre: AppState,
    post: AppState,
    now: u64,
    level: LogLevel,
    source: LogSource,
    msg: Seq<char>,
) -> bool {
    exists|e: LogEntry|
        {
            &&& e.timestamp == now
            &&& e.level == level
            &&& e.source == source
            &&& e.message@ == msg
            &&& post.logs@ == #[trigger] push_evict(pre.logs@, e, pre.max_logs as nat)
            &&& post == (AppState { logs: post.logs, ..pre })
        }
}

impl AppState {
    /// The log ring never exceeds its configured capacity.
    pub open spec fn wf(self) -> bool {
        self.logs@.len() <= self.max_logs
    }

    pub fn new() -> (s: Self)
        ensures
            s.wf(),
            s.status == ServerStatus::Stopped,
            s.pid is None,
            s.restart_count == 0,
            s.start_time is None,
            s.logs@.len() == 0,
            s.max_logs == DEFAULT_MAX_LOGS,
            s.auto_restart_remaining_secs is None,
            s.next_backup_secs is None,
            s.last_backup_time is None,
            s.backups@.len() == 0,
    {
        AppState {
            status: ServerStatus::Stopped,
            pid: None,
            restart_count: 0,
            start_time: None,
            logs: Vec::new(),
            max_logs: DEFAULT_MAX_LOGS,
            auto_restart_remaining_secs: None,
            next_backup_secs: None,
            last_backup_time: None,
            backups: Vec::new(),
        }
    }

    pub fn status(&self) -> (r: ServerStatus)
        ensures
            r == self.status,
    {
        self.status
    }

    pub fn pid(&self) -> (r: Option<u32>)
        ensures
            r == self.pid,
    {
        self.pid
    }

    pub fn restart_count(&self) -> (r: u32)
        ensures
            r == self.restart_count,
    {
        self.restart_count
    }

    /// Seconds the current process has been up: the distance from its
    /// recorded start to `now`, zero when no process is running or the
    /// clock reads earlier than the recorded start.
    pub fn uptime_secs(&self, now: u64) -> (r: u64)
        ensures
            r == self.spec_uptime(now),
    {
        match self.start_time {
            Some(t) => {
                if now >= t {
                    now - t
                } else {
                    0
                }
            },
            None => 0,
        }
    }

    pub open spec fn spec_uptime(self, now: u64) -> u64 {
        match self.start_time {
            Some(t) => if now >= t {
                (now - t) as u64
            } else {
                0
            },
            None => 0,
        }
    }

    pub fn auto_restart_remaining(&self) -> (r: Option<u64>)
        ensures
            r == self.auto_restart_remaining_secs,
    {
        self.auto_restart_remaining_secs
    }

    pub fn next_backup_secs(&self) -> (r: Option<u64>)
        ensures
            r == self.next_backup_secs,
    {
        self.next_backup_secs
    }

    pub fn last_backup_time(&self) -> (r: Option<u64>)
        ensures
            r == self.last_backup_time,
    {
        self.last_backup_time
    }

    /// A copy of the current backup listing, order preserved.
    pub fn backups(&self) -> (r: Vec<BackupInfo>)
        ensures
            r@.len() == self.backups@.len(),
            forall|i: int|
                0 <= i < r@.len() ==> same_backup_info(r@[i], self.backups@[i]),
    {
        let mut out: Vec<BackupInfo> = Vec::new();
        let mut i: usize = 0;
        while i < self.backups.len()
            invariant
                i <= self.backups@.len(),
                out@.len() == i,
                forall|j: int| 0 <= j < i as int ==> same_backup_info(out@[j], self.backups@[j]),
            decreases self.backups@.len() - i,
        {
            let b = &self.backups[i];
            out.push(
                BackupInfo {
                    filename: b.filename.clone(),
                    size_bytes: b.size_bytes,
                    created_at: b.created_at,
                },
            );
            i = i + 1;
        }
        out
    }

    /// The most recent `limit` log entries, newest first.
    pub fn logs(&self, limit: usize) -> (r: Vec<LogEntry>)
        ensures
            r@.len() == vstd::math::min(limit as int, self.logs@.len() as int),
            forall|i: int|
                0 <= i < r@.len() ==> same_log_entry(
                    r@[i],
                    self.logs@[self.logs@.len() - 1 - i],
                ),
    {
        let mut out: Vec<LogEntry> = Vec::new();
        let n = self.logs.len();
        let mut taken: usize = 0;
        while taken < limit && taken < n
            invariant
                n == self.logs@.len(),
                taken <= limit,
                taken <= n,
                out@.len() == taken,
                forall|j: int|
                    0 <= j < taken as int ==> same_log_entry(out@[j], self.logs@[n - 1 - j]),
            decreases n - taken,
        {
            let e = &self.logs[n - 1 - taken];
            out.push(
                LogEntry {
                    timestamp: e.timestamp,
                    level: e.level,
                    source: e.source,
                    message: e.message.clone(),
                },
            );
            taken = taken + 1;
        }
        out
    }

    pub fn set_status(&mut self, status: ServerStatus)
        ensures
            *final(self) == (AppState { status, ..*old(self) }),
    {
        self.status = status;
    }

    pub fn set_pid(&mut self, pid: Option<u32>)
        ensures
            *final(self) == (AppState { pid, ..*old(self) }),
    {
        self.pid = pid;
    }

    pub fn set_start_time(&mut self, time: Option<u64>)
        ensures
            *final(self) == (AppState { start_time: time, ..*old(self) }),
    {
        self.start_time = time;
    }

    /// The restart counter only ever grows; the caller keeps it below the
    /// representable maximum.
    pub fn increment_restart_count(&mut self)
        requires
            old(self).restart_count < u32::MAX,
        ensures
            *final(self) == (AppState {
                restart_count: (old(self).restart_count + 1) as u32,
                ..*old(self)
            }),
    {
        self.restart_count = self.restart_count + 1;
    }

    pub fn set_auto_restart_remaining(&mut self, secs: Option<u64>)
        ensures
            *final(self) == (AppState { auto_restart_remaining_secs: secs, ..*old(self) }),
    {
        self.auto_restart_remaining_secs = secs;
    }

    pub fn set_next_backup_secs(&mut self, secs: Option<u64>)
        ensures
            *final(self) == (AppState { next_backup_secs: secs, ..*old(self) }),
    {
        self.next_backup_secs = secs;
    }

    pub fn set_last_backup_time(&mut self, time: Option<u64>)
        ensures
            *final(self) == (AppState { last_backup_time: time, ..*old(self) }),
    {
        self.last_backup_time = time;
    }

    pub fn set_backups(&mut self, backups: Vec<BackupInfo>)
        ensures
            *final(self) == (AppState { backups, ..*old(self) }),
    {
        self.backups = backups;
    }

    /// Record one classified line at the tail of the ring, evicting the
    /// oldest entries if the ring would exceed its capacity.
    pub fn add_log(&mut self, now: u64, level: LogLevel, source: LogSource, message: String)
        ensures
            final(self).logs@ == push_evict(
                old(self).logs@,
                (LogEntry { timestamp: now, level, source, message }),
                old(self).max_logs as nat,
            ),
            final(self).logs@.len() <= old(self).max_logs,
            *final(self) == (AppState { logs: final(self).logs, ..*old(self) }),
            appended_log(*old(self), *final(self), now, level, source, message@),
    {
        let entry = LogEntry { timestamp: now, level, source, message };
        let ghost grown = self.logs@.push(entry);
        self.logs.push(entry);
        while self.logs.len() > self.max_logs
            invariant
                grown == old(self).logs@.push(
                    (LogEntry { timestamp: now, level, source, message }),
                ),
                grown.len() >= self.logs@.len(),
                self.logs@ == grown.skip(grown.len() - self.logs@.len()),
                grown.len() > self.max_logs ==> self.logs@.len() >= self.max_logs,
                grown.len() <= self.max_logs ==> self.logs@ == grown,
                *self == (AppState { logs: self.logs, ..*old(self) }),
            decreases self.logs@.len(),
        {
            self.logs.remove(0);
            proof {
                let l = self.logs@.len() as int;
                assert(grown.skip(grown.len() - (l + 1)).remove(0) =~= grown.skip(grown.len() - l));
            }
        }
        proof {
            assert(grown.skip(0) =~= grown);
        }
        proof {
            let e = LogEntry { timestamp: now, level, source, message };
            assert(self.logs@ == push_evict(old(self).logs@, e, old(self).max_logs as nat));
        }
    }

    /// Record an informational line from the watcher itself.
    pub fn add_watcher_log(&mut self, now: u64, message: String)
        ensures
            final(self).logs@ == push_evict(
                old(self).logs@,
                (LogEntry {
                    timestamp: now,
                    level: LogLevel::Info,
                    source: LogSource::Watcher,
                    message,
                }),
                old(self).max_logs as nat,
            ),
            final(self).logs@.len() <= old(self).max_logs,
            *final(self) == (AppState { logs: final(self).logs, ..*old(self) }),
            appended_log(
                *old(self),
                *final(self),
                now,
                LogLevel::Info,
                LogSource::Watcher,
                message@,
            ),
    {
        self.add_log(now, LogLevel::Info, LogSource::Watcher, message);
    }

    /// One coherent read of the presentation fields.
    pub fn snapshot(&self, now: u64) -> (r: StateSnapshot)
        ensures
            r.status == self.status,
            r.pid == self.pid,
            r.uptime_secs == self.spec_uptime(now),
            r.restart_count == self.restart_count,
            r.auto_restart_remaining_secs == self.auto_restart_remaining_secs,
            r.next_backup_secs == self.next_backup_secs,
            r.last_backup_time == self.last_backup_time,
    {
        StateSnapshot {
            status: self.status,
            pid: self.pid,
            uptime_secs: self.uptime_secs(now),
            restart_count: self.restart_count,
            auto_restart_remaining_secs: self.auto_restart_remaining_secs,
            next_backup_secs: self.next_backup_secs,
            last_backup_time: self.last_backup_time,
        }
    }
}

/// The ring keeps at most its capacity, and a full ring evicts exactly the
/// oldest entry when a new one is appended, regardless of severity.
pub proof fn lemma_ring_eviction(logs: Seq<LogEntry>, e: LogEntry, max: nat)
    requires
        logs.len() <= max,
    ensures
        push_evict(logs, e, max).len() <= max,
        logs.len() < max ==> push_evict(logs, e, max) == logs.push(e),
        logs.len() == max && max > 0 ==> push_evict(logs, e, max) == logs.skip(1).push(e),
{
    let grown = logs.push(e);
    if logs.len() < max {
        assert(grown.len() <= max);
    } else if max > 0 {
        assert(grown.skip(1) =~= logs.skip(1).push(e));
    } else {
        assert(grown.skip(grown.len() as int) =~= Seq::<LogEntry>::empty());
    }
}

} // verus!
