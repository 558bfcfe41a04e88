use server_watcher::config::{ErrorPatterns, RestartConfig};
use server_watcher::state::AppState;
use server_watcher::supervisor::{handle_stdout_line, MonitorFlags};
use server_watcher::timer::{RestartTimer, AUTO_RESTART_PERIOD_SECS, AUTO_RESTART_WARNING_SECS};

#[test]
fn timer_constants() {
    assert_eq!(AUTO_RESTART_PERIOD_SECS, 3600);
    assert_eq!(AUTO_RESTART_WARNING_SECS, 3540);
}

#[test]
fn warning_fires_exactly_once_at_fifty_nine_minutes() {
    let mut st = AppState::new();
    let mut timer = RestartTimer::new();

    // ticks before the warning point do nothing but publish the countdown
    let t = timer.tick(&mut st, 3539, 0);
    assert!(!t.send_warning);
    assert!(!t.triggered);
    assert_eq!(t.remaining, 61);

    // at 3540 s (59 min): exactly one warning, remaining reported as 60
    let t = timer.tick(&mut st, 3540, 0);
    assert!(t.send_warning);
    assert!(!t.triggered);
    assert_eq!(t.remaining, 60);
    assert_eq!(st.auto_restart_remaining(), Some(60));

    // later ticks never ask for the warning again
    let t = timer.tick(&mut st, 3541, 0);
    assert!(!t.send_warning);
    let t = timer.tick(&mut st, 3599, 0);
    assert!(!t.send_warning);
    assert!(!t.triggered);

    // at 3600 s the restart fires
    let t = timer.tick(&mut st, 3600, 0);
    assert!(t.triggered);
    assert!(!t.send_warning);
    assert_eq!(t.remaining, 0);

    let warnings = st
        .logs(100)
        .iter()
        .filter(|l| l.message == "Auto-restart: sending warning")
        .count();
    assert_eq!(warnings, 1);
}

#[test]
fn stdout_reader_exits_once_timer_triggered() {
    let mut st = AppState::new();
    let mut timer = RestartTimer::new();
    let t = timer.tick(&mut st, 3600, 0);
    assert!(t.triggered);

    // the runtime raises the shared flag; the reader stops at its next
    // line boundary
    let mut flags = MonitorFlags::new();
    flags.auto_restart_triggered = true;
    let patterns = ErrorPatterns { critical: vec![], errors: vec![], warnings: vec![] };
    let policy = RestartConfig { critical: false, errors: false, warnings: false, process_exit: true };
    let o = handle_stdout_line(&mut st, &mut flags, "any line", 1, &patterns, &policy);
    assert!(o.stop_reading);
}

#[test]
fn late_first_tick_sends_warning_and_triggers() {
    let mut st = AppState::new();
    let mut timer = RestartTimer::new();
    let t = timer.tick(&mut st, 3700, 0);
    assert!(t.send_warning);
    assert!(t.triggered);
    assert_eq!(t.remaining, 0);
}
