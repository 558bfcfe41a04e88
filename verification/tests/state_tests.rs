use server_watcher::state::{AppState, BackupInfo, LogLevel, LogSource, ServerStatus};

#[test]
fn new_state_defaults() {
    let st = AppState::new();
    assert_eq!(st.status(), ServerStatus::Stopped);
    assert_eq!(st.pid(), None);
    assert_eq!(st.restart_count(), 0);
    assert_eq!(st.uptime_secs(100), 0);
    assert_eq!(st.auto_restart_remaining(), None);
    assert_eq!(st.next_backup_secs(), None);
    assert_eq!(st.last_backup_time(), None);
    assert_eq!(st.logs(10).len(), 0);
    assert_eq!(st.backups().len(), 0);
}

#[test]
fn setters_and_snapshot() {
    let mut st = AppState::new();
    st.set_status(ServerStatus::Running);
    st.set_pid(Some(4242));
    st.set_start_time(Some(1000));
    st.increment_restart_count();
    st.increment_restart_count();
    st.set_auto_restart_remaining(Some(360));
    st.set_next_backup_secs(Some(7200));
    st.set_last_backup_time(Some(999));

    let snap = st.snapshot(1015);
    assert_eq!(snap.status, ServerStatus::Running);
    assert_eq!(snap.pid, Some(4242));
    assert_eq!(snap.uptime_secs, 15);
    assert_eq!(snap.restart_count, 2);
    assert_eq!(snap.auto_restart_remaining_secs, Some(360));
    assert_eq!(snap.next_backup_secs, Some(7200));
    assert_eq!(snap.last_backup_time, Some(999));
}

#[test]
fn uptime_clamps_to_zero() {
    let mut st = AppState::new();
    st.set_start_time(Some(2000));
    assert_eq!(st.uptime_secs(1500), 0);
    assert_eq!(st.uptime_secs(2000), 0);
    assert_eq!(st.uptime_secs(2001), 1);
}

#[test]
fn add_log_records_entry() {
    let mut st = AppState::new();
    st.add_log(7, LogLevel::Error, LogSource::Stderr, "bad thing".to_string());
    let logs = st.logs(10);
    assert_eq!(logs.len(), 1);
    assert_eq!(logs[0].timestamp, 7);
    assert_eq!(logs[0].level, LogLevel::Error);
    assert_eq!(logs[0].source, LogSource::Stderr);
    assert_eq!(logs[0].message, "bad thing");
}

#[test]
fn logs_returns_newest_first_and_limited() {
    let mut st = AppState::new();
    for i in 0..5u64 {
        st.add_watcher_log(i, format!("line {}", i));
    }
    let logs = st.logs(3);
    assert_eq!(logs.len(), 3);
    assert_eq!(logs[0].message, "line 4");
    assert_eq!(logs[1].message, "line 3");
    assert_eq!(logs[2].message, "line 2");
}

#[test]
fn ring_never_exceeds_capacity() {
    let mut st = AppState::new();
    st.max_logs = 4;
    for i in 0..20u64 {
        st.add_watcher_log(i, format!("m{}", i));
    }
    assert_eq!(st.logs(100).len(), 4);
}

#[test]
fn full_ring_evicts_exactly_the_oldest() {
    let mut st = AppState::new();
    st.max_logs = 3;
    st.add_log(0, LogLevel::Critical, LogSource::Server, "a".to_string());
    st.add_log(1, LogLevel::Info, LogSource::Server, "b".to_string());
    st.add_log(2, LogLevel::Info, LogSource::Server, "c".to_string());
    // the ring is full; a new entry evicts "a" even though "a" is critical
    st.add_log(3, LogLevel::Info, LogSource::Server, "d".to_string());
    let logs = st.logs(10);
    assert_eq!(logs.len(), 3);
    assert_eq!(logs[0].message, "d");
    assert_eq!(logs[1].message, "c");
    assert_eq!(logs[2].message, "b");
}

#[test]
fn backups_copy_preserves_fields_and_order() {
    let mut st = AppState::new();
    st.set_backups(vec![
        BackupInfo { filename: "backup_b.tar.xz".to_string(), size_bytes: 10, created_at: 5 },
        BackupInfo { filename: "backup_a.tar.xz".to_string(), size_bytes: 20, created_at: 9 },
    ]);
    let out = st.backups();
    assert_eq!(out.len(), 2);
    assert_eq!(out[0].filename, "backup_b.tar.xz");
    assert_eq!(out[0].size_bytes, 10);
    assert_eq!(out[0].created_at, 5);
    assert_eq!(out[1].filename, "backup_a.tar.xz");
}

#[test]
fn status_names() {
    assert_eq!(ServerStatus::Starting.as_str(), "starting");
    assert_eq!(ServerStatus::Running.as_str(), "running");
    assert_eq!(ServerStatus::Stopping.as_str(), "stopping");
    assert_eq!(ServerStatus::Stopped.as_str(), "stopped");
    assert_eq!(ServerStatus::Restarting.as_str(), "restarting");
    assert_eq!(ServerStatus::Error.as_str(), "error");
}

#[test]
fn level_and_source_names() {
    assert_eq!(LogLevel::Critical.as_str(), "critical");
    assert_eq!(LogLevel::Error.as_str(), "error");
    assert_eq!(LogLevel::Warning.as_str(), "warning");
    assert_eq!(LogLevel::Info.as_str(), "info");
    assert_eq!(LogSource::Server.as_str(), "server");
    assert_eq!(LogSource::Watcher.as_str(), "watcher");
    assert_eq!(LogSource::Stderr.as_str(), "stderr");
}

#[test]
fn zero_capacity_ring_stays_empty() {
    let mut st = AppState::new();
    st.max_logs = 0;
    st.add_log(0, LogLevel::Info, LogSource::Server, "dropped".to_string());
    assert_eq!(st.logs(10).len(), 0);
}
