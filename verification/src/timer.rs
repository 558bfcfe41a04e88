//! The scheduled-restart timer: once a watched process has been up for a
//! fixed period it is proactively restarted, with an in-band warning sent
//! shortly before the deadline.
//!
//! The runtime ticks the timer about once per second with the elapsed
//! time since the spawn; the timer decides what the tick means. Writing
//! the warning into the process's input stream and raising the shared
//! trigger flag are side effects the runtime performs as told.

use vstd::prelude::*;
use crate::state::{appended_log, AppState, LogLevel, LogSource};

verus! {

/// Seconds of uptime after which the scheduled restart fires.
pub const AUTO_RESTART_PERIOD_SECS: u64 = 3600;

/// Seconds of uptime at which the warning is sent, one minute before the
/// deadline.
pub const AUTO_RESTART_WARNING_SECS: u64 = 3540;

/// The timer's own memory across ticks: whether the warning went out.
#[derive(Clone, Copy, Debug, PartialEq, Eq, Structural)]
pub struct RestartTimer {
    pub warning_sent: bool,
}

/// What one tick asks of the runtime.
#[derive(Clone, Copy, Debug, PartialEq, Eq, Structural)]
pub struct TimerTick {
    /// Seconds until the scheduled restart, for display.
    pub remaining: u64,
    /// Send the warning line into the process's input stream and notify,
    /// exactly once per run.
    pub send_warning: bool,
    /// The deadline has passed: raise the scheduled-restart flag, notify,
    /// and stop ticking.
    pub triggered: bool,
}

impl RestartTimer {
    pub fn new() -> (t: RestartTimer)
        ensures
            !t.warning_sent,
    {
        RestartTimer { warning_sent: false }
    }

    /// One tick at `elapsed` seconds of uptime: publish the remaining
    /// seconds, send the warning exactly once as soon as the warning point
    /// is reached, and fire the restart at the deadline. `now` stamps the
    /// log lines.
    pub fn tick(&mut self, state: &mut AppState, elapsed: u64, now: u64) -> (t: TimerTick)
        ensures
            t.remaining == if elapsed < AUTO_RESTART_PERIOD_SECS {
                (AUTO_RESTART_PERIOD_SECS - elapsed) as u64
            } else {
                0
            },
            t.send_warning == (elapsed >= AUTO_RESTART_WARNING_SECS && !old(self).warning_sent),
            t.triggered == (elapsed >= AUTO_RESTART_PERIOD_SECS),
            final(self).warning_sent == (old(self).warning_sent || elapsed
                >= AUTO_RESTART_WARNING_SECS),
            !t.send_warning && !t.triggered ==> *final(state) == (AppState {
                auto_restart_remaining_secs: Some(t.remaining),
                ..*old(state)
            }),
            t.send_warning && !t.triggered ==> appended_log(
                (AppState { auto_restart_remaining_secs: Some(t.remaining), ..*old(state) }),
                *final(state),
                now,
                LogLevel::Info,
                LogSource::Watcher,
                "Auto-restart: sending warning"@,
            ),
            !t.send_warning && t.triggered ==> appended_log(
                (AppState { auto_restart_remaining_secs: Some(t.remaining), ..*old(state) }),
                *final(state),
                now,
                LogLevel::Info,
                LogSource::Watcher,
                "Auto-restart: hourly restart"@,
            ),
            t.send_warning && t.triggered ==> (exists|mid: AppState|
                {
                    &&& appended_log(
                        (AppState {
                            auto_restart_remaining_secs: Some(t.remaining),
                            ..*old(state)
                        }),
                        mid,
                        now,
                        LogLevel::Info,
                        LogSource::Watcher,
                        "Auto-restart: sending warning"@,
                    )
                    &&& #[trigger] appended_log(
                        mid,
                        *final(state),
                        now,
                        LogLevel::Info,
                        LogSource::Watcher,
                        "Auto-restart: hourly restart"@,
                    )
                }),
    {
        let remaining = if elapsed < AUTO_RESTART_PERIOD_SECS {
            AUTO_RESTART_PERIOD_SECS - elapsed
        } else {
            0
        };
        state.set_auto_restart_remaining(Some(remaining));
        let send_warning = elapsed >= AUTO_RESTART_WARNING_SECS && !self.warning_sent;
        if send_warning {
            self.warning_sent = true;
            state.add_watcher_log(now, "Auto-restart: sending warning".to_owned());
        }
        let ghost mid = *state;
        let triggered = elapsed >= AUTO_RESTART_PERIOD_SECS;
        if triggered {
            state.add_watcher_log(now, "Auto-restart: hourly restart".to_owned());
        }
        TimerTick { remaining, send_warning, triggered }
    }
}

} // verus!
