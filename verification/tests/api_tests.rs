use server_watcher::api::{backup_response_of, default_limit, log_response_of, status_response_of};
use server_watcher::config::{BackupConfig, WebConfig};
use server_watcher::config::default_restart_warning_message;
use server_watcher::notify::NotifyType;
use server_watcher::state::{AppState, BackupInfo, LogEntry, LogLevel, LogSource, ServerStatus};

#[test]
fn default_log_limit() {
    assert_eq!(default_limit(), 100);
}

#[test]
fn status_response_mirrors_snapshot() {
    let mut st = AppState::new();
    st.set_status(ServerStatus::Running);
    st.set_pid(Some(77));
    st.set_start_time(Some(40));
    st.increment_restart_count();
    st.set_next_backup_secs(Some(5));
    let snap = st.snapshot(100);
    let r = status_response_of(&snap);
    assert_eq!(r.status, "running");
    assert_eq!(r.pid, Some(77));
    assert_eq!(r.uptime_secs, 60);
    assert_eq!(r.restart_count, 1);
    assert_eq!(r.auto_restart_remaining_secs, None);
    assert_eq!(r.next_backup_secs, Some(5));
}

#[test]
fn log_response_renders_names() {
    let entry = LogEntry {
        timestamp: 123,
        level: LogLevel::Warning,
        source: LogSource::Stderr,
        message: "careful".to_string(),
    };
    let r = log_response_of(&entry, "2024-01-01 00:02:03".to_string());
    assert_eq!(r.timestamp, "2024-01-01 00:02:03");
    assert_eq!(r.level, "warning");
    assert_eq!(r.source, "stderr");
    assert_eq!(r.message, "careful");
}

#[test]
fn backup_response_renders_size() {
    let info = BackupInfo {
        filename: "backup_x.tar.xz".to_string(),
        size_bytes: 1536,
        created_at: 55,
    };
    let r = backup_response_of(&info, "2024-02-02 10:00:00".to_string());
    assert_eq!(r.filename, "backup_x.tar.xz");
    assert_eq!(r.size, "1.50 KB");
    assert_eq!(r.size_bytes, 1536);
    assert_eq!(r.created_at, "2024-02-02 10:00:00");
}

#[test]
fn notify_labels() {
    assert_eq!(NotifyType::Start.label(), "START");
    assert_eq!(NotifyType::Error.label(), "ERROR");
    assert_eq!(NotifyType::Critical.label(), "CRITICAL");
    assert_eq!(NotifyType::Restart.label(), "RESTART");
    assert_eq!(NotifyType::Success.label(), "SUCCESS");
    assert_eq!(NotifyType::Stop.label(), "STOP");
    assert_eq!(NotifyType::Resources.label(), "RESOURCES");
    assert_eq!(NotifyType::Info.label(), "INFO");
    assert_eq!(NotifyType::Backup.label(), "BACKUP");
}

#[test]
fn config_defaults() {
    let b = BackupConfig::default();
    assert!(b.enabled);
    assert_eq!(b.source_folder, "universe");
    assert_eq!(b.backup_folder, "backups");
    assert_eq!(b.interval_hours, 4);
    assert_eq!(b.retention_days, 10);

    let w = WebConfig::default();
    assert!(w.enabled);
    assert_eq!(w.port, 3000);
    assert_eq!(w.host, "0.0.0.0");
    assert_eq!(w.auth_token, None);

    assert_eq!(default_restart_warning_message(), "Server will restart in 1 minute!");
}
