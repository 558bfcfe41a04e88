use server_watcher::config::{ErrorPatterns, RestartConfig};
use server_watcher::classify::{detect_error_level, should_restart};
use server_watcher::state::LogLevel;

fn patterns() -> ErrorPatterns {
    ErrorPatterns {
        critical: vec![
            "FATAL".to_string(),
            "Server crashed".to_string(),
            "OutOfMemoryError".to_string(),
        ],
        errors: vec!["ERROR".to_string(), "Exception".to_string()],
        warnings: vec!["WARN".to_string(), "Warning".to_string()],
    }
}

#[test]
fn classify_critical_line() {
    let level = detect_error_level("2024-01-01 FATAL: everything is on fire", &patterns());
    assert_eq!(level, LogLevel::Critical);
}

#[test]
fn classify_error_line() {
    let level = detect_error_level("ERROR in module", &patterns());
    assert_eq!(level, LogLevel::Error);
}

#[test]
fn classify_warning_line() {
    let level = detect_error_level("[WARN] low disk", &patterns());
    assert_eq!(level, LogLevel::Warning);
}

#[test]
fn classify_plain_line_is_info() {
    let level = detect_error_level("player joined the game", &patterns());
    assert_eq!(level, LogLevel::Info);
}

#[test]
fn classify_priority_critical_over_warning() {
    // the line matches both a critical and a warning pattern
    let line = "WARN then FATAL in one line";
    assert_eq!(detect_error_level(line, &patterns()), LogLevel::Critical);
    let line2 = "FATAL then WARN in one line";
    assert_eq!(detect_error_level(line2, &patterns()), LogLevel::Critical);
}

#[test]
fn classify_priority_error_over_warning() {
    let line = "Warning: Exception thrown";
    assert_eq!(detect_error_level(line, &patterns()), LogLevel::Error);
}

#[test]
fn classify_empty_pattern_lists() {
    let empty = ErrorPatterns { critical: vec![], errors: vec![], warnings: vec![] };
    assert_eq!(detect_error_level("FATAL", &empty), LogLevel::Info);
}

#[test]
fn classify_substring_in_middle() {
    let level = detect_error_level("abcOutOfMemoryErrorxyz", &patterns());
    assert_eq!(level, LogLevel::Critical);
}

#[test]
fn should_restart_per_severity() {
    let policy = RestartConfig { critical: true, errors: false, warnings: true, process_exit: true };
    assert!(should_restart(LogLevel::Critical, &policy));
    assert!(!should_restart(LogLevel::Error, &policy));
    assert!(should_restart(LogLevel::Warning, &policy));
    assert!(!should_restart(LogLevel::Info, &policy));
}

#[test]
fn should_restart_no_inheritance_between_levels() {
    // enabling errors does not imply warnings
    let policy = RestartConfig { critical: false, errors: true, warnings: false, process_exit: false };
    assert!(!should_restart(LogLevel::Critical, &policy));
    assert!(should_restart(LogLevel::Error, &policy));
    assert!(!should_restart(LogLevel::Warning, &policy));
}
