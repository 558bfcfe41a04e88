//! The supervisor state machine: the decisions of the process watcher's
//! lifecycle loop and of its monitoring phase, as pure steps over the
//! shared state store.
//!
//! The runtime around the library performs the side effects these steps
//! prescribe (spawning, killing, sleeping, notifying) and feeds back what
//! happened: whether the spawn succeeded, which line arrived on which
//! stream, which command arrived, and whether the shutdown signal is set.

use vstd::prelude::*;
use crate::classify::{detect_error_level, should_restart, spec_classify, spec_should_restart};
use crate::config::{ErrorPatterns, RestartConfig, ServerConfig};
use crate::notify::NotifyType;
use crate::state::{appended_log, AppState, LogLevel, LogSource, ServerStatus};
use crate::text::{dec_str, u64_to_string};
use crate::timer::RestartTimer;

verus! {

/// Commands accepted on the control channel. `SendInput` is part of the
/// declared control surface but currently has no effect.
#[derive(Debug)]
pub enum ProcessCommand {
    Restart,
    Stop,
    SendInput(String),
}

/// The classified cause that ends one monitoring phase. Exactly one is
/// computed per run of the watched process.
#[derive(Clone, Copy, Debug, PartialEq, Eq, Structural)]
pub enum ExitReason {
    Shutdown,
    Restart,
    Stopped,
    ProcessExit,
    Error,
}

/// Flags shared by the monitoring observers, as one coherent snapshot.
#[derive(Clone, Copy, Debug, PartialEq, Eq, Structural)]
pub struct MonitorFlags {
    /// A line classified as restart-triggering was seen.
    pub found_error: bool,
    /// A manual restart was requested.
    pub force_restart: bool,
    /// The scheduled-restart timer reached its deadline.
    pub auto_restart_triggered: bool,
}

impl MonitorFlags {
    pub fn new() -> (f: MonitorFlags)
        ensures
            f == (MonitorFlags { found_error: false, force_restart: false, auto_restart_triggered: false }),
    {
        MonitorFlags { found_error: false, force_restart: false, auto_restart_triggered: false }
    }
}

/// What one classified line asks of the reader that saw it.
#[derive(Clone, Copy, Debug, PartialEq, Eq, Structural)]
pub struct LineOutcome {
    /// The classification of the line.
    pub level: LogLevel,
    /// The notification to emit, if any.
    pub notify: Option<NotifyType>,
    /// Whether the reader should stop consuming its stream.
    pub stop_reading: bool,
}

/// The notification kind for a restart-triggering line: critical lines
/// announce themselves as critical, every other triggering severity as an
/// error.
pub open spec fn trigger_notify(level: LogLevel) -> NotifyType {
    if level == LogLevel::Critical {
        NotifyType::Critical
    } else {
        NotifyType::Error
    }
}

/// Record and classify one line of the watched process's stderr stream.
/// A triggering line raises the error flag and asks for a notification,
/// but never ends monitoring: this stream is deliberately unable to stop
/// the run by itself.
pub fn handle_stderr_line(
    state: &mut AppState,
    flags: &mut MonitorFlags,
    line: &str,
    now: u64,
    patterns: &ErrorPatterns,
    policy: &RestartConfig,
) -> (o: LineOutcome)
    ensures
        o.level == spec_classify(line@, *patterns),
        appended_log(*old(state), *final(state), now, o.level, LogSource::Stderr, line@),
        o.notify == (if spec_should_restart(o.level, *policy) {
            Some(trigger_notify(o.level))
        } else {
            None::<NotifyType>
        }),
        *final(flags) == (MonitorFlags {
            found_error: old(flags).found_error || spec_should_restart(o.level, *policy),
            ..*old(flags)
        }),
        o.stop_reading == false,
{
    let level = detect_error_level(line, patterns);
    state.add_log(now, level, LogSource::Stderr, line.to_owned());
    if should_restart(level, policy) {
        flags.found_error = true;
        let kind = if level == LogLevel::Critical {
            NotifyType::Critical
        } else {
            NotifyType::Error
        };
        LineOutcome { level, notify: Some(kind), stop_reading: false }
    } else {
        LineOutcome { level, notify: None, stop_reading: false }
    }
}

/// Record and classify one line of the watched process's stdout stream.
/// The reader first honours the cooperative-cancellation flags: once a
/// manual or scheduled restart is pending it stops without touching the
/// line. A triggering line raises the error flag, asks for a notification
/// and ends this reader, which ends monitoring.
pub fn handle_stdout_line(
    state: &mut AppState,
    flags: &mut MonitorFlags,
    line: &str,
    now: u64,
    patterns: &ErrorPatterns,
    policy: &RestartConfig,
) -> (o: LineOutcome)
    ensures
        (old(flags).force_restart || old(flags).auto_restart_triggered) ==> {
            &&& *final(state) == *old(state)
            &&& *final(flags) == *old(flags)
            &&& o.stop_reading
            &&& o.notify is None
        },
        !(old(flags).force_restart || old(flags).auto_restart_triggered) ==> {
            &&& o.level == spec_classify(line@, *patterns)
            &&& appended_log(*old(state), *final(state), now, o.level, LogSource::Server, line@)
            &&& o.notify == (if spec_should_restart(o.level, *policy) {
                Some(trigger_notify(o.level))
            } else {
                None::<NotifyType>
            })
            &&& *final(flags) == (MonitorFlags {
                found_error: old(flags).found_error || spec_should_restart(o.level, *policy),
                ..*old(flags)
            })
            &&& o.stop_reading == spec_should_restart(o.level, *policy)
        },
{
    if flags.force_restart || flags.auto_restart_triggered {
        return LineOutcome { level: LogLevel::Info, notify: None, stop_reading: true };
    }
    let level = detect_error_level(line, patterns);
    state.add_log(now, level, LogSource::Server, line.to_owned());
    if should_restart(level, policy) {
        flags.found_error = true;
        let kind = if level == LogLevel::Critical {
            NotifyType::Critical
        } else {
            NotifyType::Error
        };
        LineOutcome { level, notify: Some(kind), stop_reading: true }
    } else {
        LineOutcome { level, notify: None, stop_reading: false }
    }
}

/// What the supervisor's concurrent wait decides once the ready branches
/// have been polled.
#[derive(Clone, Copy, Debug, PartialEq, Eq, Structural)]
pub enum SelectAction {
    /// The shutdown signal is set: abort the observers, reason `Shutdown`.
    BreakShutdown,
    /// An explicit stop command: abort the observers, reason `Stopped`.
    BreakStopped,
    /// A manual restart command: raise the restart flag and cancel the
    /// stdout reader, then keep waiting.
    RequestRestart,
    /// The stdout reader finished.
    BreakStdoutDone,
    /// Nothing decisive: keep waiting.
    KeepWaiting,
}

/// The explicit priority list of the concurrent wait, highest first:
/// shutdown signal, explicit stop, restart command, stdout completion.
/// An input command with no effect (`SendInput`) outranks nothing.
pub open spec fn spec_select(
    shutdown: bool,
    command: Option<ProcessCommand>,
    stdout_done: bool,
) -> SelectAction {
    if shutdown {
        SelectAction::BreakShutdown
    } else if command matches Some(ProcessCommand::Stop) {
        SelectAction::BreakStopped
    } else if command matches Some(ProcessCommand::Restart) {
        SelectAction::RequestRestart
    } else if stdout_done {
        SelectAction::BreakStdoutDone
    } else {
        SelectAction::KeepWaiting
    }
}

/// Decide one resolution of the concurrent wait from the polled state of
/// all branches, so that precedence among simultaneously ready branches is
/// deterministic.
pub fn select_step(shutdown: bool, command: Option<ProcessCommand>, stdout_done: bool) -> (a:
    SelectAction)
    ensures
        a == spec_select(shutdown, command, stdout_done),
{
    if shutdown {
        SelectAction::BreakShutdown
    } else {
        match command {
            Some(ProcessCommand::Stop) => SelectAction::BreakStopped,
            Some(ProcessCommand::Restart) => SelectAction::RequestRestart,
            _ => {
                if stdout_done {
                    SelectAction::BreakStdoutDone
                } else {
                    SelectAction::KeepWaiting
                }
            },
        }
    }
}

/// Record a manual restart request: the restart flag goes up (the stdout
/// reader honours it at its next line boundary) and the request is logged.
pub fn apply_restart_request(state: &mut AppState, flags: &mut MonitorFlags, now: u64)
    ensures
        *final(flags) == (MonitorFlags { force_restart: true, ..*old(flags) }),
        appended_log(
            *old(state),
            *final(state),
            now,
            LogLevel::Info,
            LogSource::Watcher,
            "Manual restart requested"@,
        ),
{
    flags.force_restart = true;
    state.add_watcher_log(now, "Manual restart requested".to_owned());
}

/// How the concurrent wait ended: by the shutdown signal, by an explicit
/// stop command, or because the stdout reader finished.
#[derive(Clone, Copy, Debug, PartialEq, Eq, Structural)]
pub enum MonitorBreak {
    Shutdown,
    Stopped,
    StdoutDone,
}

/// The exit-reason arbitration: shutdown and explicit stop pass through;
/// a finished stdout reader is read through the flag snapshot, preferring
/// a pending restart over an observed error, an observed error over a
/// plain process exit, and a plain process exit only when the policy
/// restarts on it.
pub open spec fn spec_resolve(
    selected: MonitorBreak,
    flags: MonitorFlags,
    policy: RestartConfig,
) -> ExitReason {
    match selected {
        MonitorBreak::Shutdown => ExitReason::Shutdown,
        MonitorBreak::Stopped => ExitReason::Stopped,
        MonitorBreak::StdoutDone => if flags.force_restart || flags.auto_restart_triggered {
            ExitReason::Restart
        } else if flags.found_error {
            ExitReason::Error
        } else if policy.process_exit {
            ExitReason::ProcessExit
        } else {
            ExitReason::Stopped
        },
    }
}

/// Compute the one `ExitReason` of a monitoring phase from how the wait
/// broke and the final flag snapshot.
pub fn resolve_exit_reason(selected: MonitorBreak, flags: &MonitorFlags, policy: &RestartConfig)
    -> (r: ExitReason)
    ensures
        r == spec_resolve(selected, *flags, *policy),
{
    match selected {
        MonitorBreak::Shutdown => ExitReason::Shutdown,
        MonitorBreak::Stopped => ExitReason::Stopped,
        MonitorBreak::StdoutDone => {
            if flags.force_restart || flags.auto_restart_triggered {
                ExitReason::Restart
            } else if flags.found_error {
                ExitReason::Error
            } else if policy.process_exit {
                ExitReason::ProcessExit
            } else {
                ExitReason::Stopped
            }
        },
    }
}

/// A manual restart request delivered mid-run wins the arbitration: it
/// outranks stdout completion in the wait's priority list, and once the
/// restart flag is up a finished stdout reader resolves to `Restart`,
/// never to `ProcessExit`, even if the process exited naturally at nearly
/// the same moment.
pub proof fn lemma_manual_restart_wins(
    command: ProcessCommand,
    flags: MonitorFlags,
    policy: RestartConfig,
    stdout_done: bool,
)
    requires
        command is Restart,
        flags.force_restart,
    ensures
        spec_select(false, Some(command), stdout_done) == SelectAction::RequestRestart,
        spec_resolve(MonitorBreak::StdoutDone, flags, policy) == ExitReason::Restart,
        spec_resolve(MonitorBreak::StdoutDone, flags, policy) != ExitReason::ProcessExit,
{
}

/// What the top of a supervision iteration decides.
#[derive(Clone, Copy, Debug, PartialEq, Eq, Structural)]
pub enum IterationGate {
    /// The restart counter has reached the configured limit: stop for good.
    LimitReached,
    /// The shutdown signal is already set: stop without spawning.
    ShutdownRequested,
    /// Spawn the process.
    Proceed,
}

/// The restart limit is exhausted: a configured limit exists and the
/// counter has reached it.
pub open spec fn limit_reached(cfg: ServerConfig, count: u32) -> bool {
    match cfg.max_restarts {
        Some(m) => count >= m,
        None => false,
    }
}

/// The argument list rendered for the start log line: each argument
/// preceded by one space.
pub open spec fn joined_args(args: Seq<String>) -> Seq<char>
    decreases args.len(),
{
    if args.len() == 0 {
        Seq::empty()
    } else {
        joined_args(args.drop_last()) + seq![' '] + args.last()@
    }
}

/// The log line announcing a spawn: the executable and its arguments.
pub open spec fn start_message(cfg: ServerConfig) -> Seq<char> {
    "Starting server: "@ + cfg.executable@ + joined_args(cfg.arguments@)
}

/// Render the start log line.
fn render_start_message(cfg: &ServerConfig) -> (s: String)
    ensures
        s@ == start_message(*cfg),
{
    proof {
        reveal_strlit(" ");
    }
    let mut s = "Starting server: ".to_owned().concat(cfg.executable.as_str());
    let mut k: usize = 0;
    while k < cfg.arguments.len()
        invariant
            k <= cfg.arguments@.len(),
            s@ == "Starting server: "@ + cfg.executable@ + joined_args(
                cfg.arguments@.take(k as int),
            ),
            " "@ == seq![' '],
        decreases cfg.arguments@.len() - k,
    {
        s.append(" ");
        s.append(cfg.arguments[k].as_str());
        proof {
            let taken = cfg.arguments@.take(k as int + 1);
            assert(taken.drop_last() =~= cfg.arguments@.take(k as int));
            assert(taken.last() == cfg.arguments@[k as int]);
        }
        k = k + 1;
    }
    proof {
        assert(cfg.arguments@.take(cfg.arguments@.len() as int) =~= cfg.arguments@);
    }
    s
}

/// The decision at the top of one supervision iteration, checked in this
/// order: the restart limit, then the shutdown signal, then the spawn.
/// A process is never spawned while the shutdown signal is set.
pub fn begin_iteration(cfg: &ServerConfig, state: &mut AppState, shutdown: bool, now: u64) -> (g:
    IterationGate)
    ensures
        (g == IterationGate::LimitReached) == limit_reached(*cfg, old(state).restart_count),
        (g == IterationGate::ShutdownRequested) == (!limit_reached(*cfg, old(state).restart_count)
            && shutdown),
        (g == IterationGate::Proceed) == (!limit_reached(*cfg, old(state).restart_count)
            && !shutdown),
        g == IterationGate::LimitReached ==> appended_log(
            *old(state),
            *final(state),
            now,
            LogLevel::Info,
            LogSource::Watcher,
            "Max restart limit reached"@,
        ),
        g == IterationGate::ShutdownRequested ==> *final(state) == *old(state),
        g == IterationGate::Proceed ==> appended_log(
            (AppState { status: ServerStatus::Starting, ..*old(state) }),
            *final(state),
            now,
            LogLevel::Info,
            LogSource::Watcher,
            start_message(*cfg),
        ),
{
    let limited = match cfg.max_restarts {
        Some(m) => state.restart_count() >= m,
        None => false,
    };
    if limited {
        state.add_watcher_log(now, "Max restart limit reached".to_owned());
        IterationGate::LimitReached
    } else if shutdown {
        IterationGate::ShutdownRequested
    } else {
        state.set_status(ServerStatus::Starting);
        let msg = render_start_message(cfg);
        state.add_watcher_log(now, msg);
        IterationGate::Proceed
    }
}

/// Record a failed spawn attempt: status `Error`, a critical log line
/// carrying the failure text, and one more count toward the restart limit,
/// so a permanently broken executable cannot retry forever. The returned
/// delay is how long the runtime should wait before the next attempt.
pub fn on_spawn_failure(cfg: &ServerConfig, state: &mut AppState, error_text: &str, now: u64)
    -> (delay: u64)
    requires
        old(state).restart_count < u32::MAX,
    ensures
        delay == cfg.restart_delay_seconds,
        appended_log(
            (AppState {
                status: ServerStatus::Error,
                restart_count: (old(state).restart_count + 1) as u32,
                ..*old(state)
            }),
            *final(state),
            now,
            LogLevel::Critical,
            LogSource::Watcher,
            "Failed to start: "@ + error_text@,
        ),
{
    state.set_status(ServerStatus::Error);
    state.increment_restart_count();
    let msg = "Failed to start: ".to_owned().concat(error_text);
    state.add_log(now, LogLevel::Critical, LogSource::Watcher, msg);
    cfg.restart_delay_seconds
}

/// Record a successful spawn: the process id and start time are published,
/// status becomes `Running`, and the start is logged.
pub fn on_spawn_success(state: &mut AppState, pid: u32, now: u64)
    ensures
        appended_log(
            (AppState {
                status: ServerStatus::Running,
                pid: Some(pid),
                start_time: Some(now),
                ..*old(state)
            }),
            *final(state),
            now,
            LogLevel::Info,
            LogSource::Watcher,
            "Server started with PID: "@ + dec_str(pid as nat),
        ),
{
    state.set_pid(Some(pid));
    state.set_status(ServerStatus::Running);
    state.set_start_time(Some(now));
    let msg = "Server started with PID: ".to_owned().concat(u64_to_string(pid as u64).as_str());
    state.add_watcher_log(now, msg);
}

/// Clear the transient fields once a run's monitoring has ended and the
/// process has been killed and awaited, whatever path led there.
pub fn after_monitoring(state: &mut AppState)
    ensures
        *final(state) == (AppState {
            pid: None,
            start_time: None,
            auto_restart_remaining_secs: None,
            ..*old(state)
        }),
{
    state.set_pid(None);
    state.set_start_time(None);
    state.set_auto_restart_remaining(None);
}

/// What follows one computed exit reason.
#[derive(Clone, Copy, Debug, PartialEq, Eq, Structural)]
pub enum PostExit {
    /// The supervision loop is over.
    EndRun,
    /// Restart after waiting up to the given delay, polling the shutdown
    /// signal meanwhile.
    RestartAfterDelay(u64),
}

/// Branch on the exit reason of a finished run. Shutdown and explicit
/// stop end the loop with status `Stopped`; a restartable reason ends the
/// loop the same way when shutdown has been signalled since, and otherwise
/// counts and announces a restart, to happen after the configured delay.
pub fn dispatch_exit(
    cfg: &ServerConfig,
    state: &mut AppState,
    reason: ExitReason,
    shutdown: bool,
    now: u64,
) -> (p: PostExit)
    requires
        old(state).restart_count < u32::MAX,
    ensures
        reason == ExitReason::Shutdown ==> {
            &&& p == PostExit::EndRun
            &&& *final(state) == (AppState { status: ServerStatus::Stopped, ..*old(state) })
        },
        reason == ExitReason::Stopped ==> {
            &&& p == PostExit::EndRun
            &&& appended_log(
                (AppState { status: ServerStatus::Stopped, ..*old(state) }),
                *final(state),
                now,
                LogLevel::Info,
                LogSource::Watcher,
                "Server stopped normally"@,
            )
        },
        (reason == ExitReason::Restart || reason == ExitReason::ProcessExit || reason
            == ExitReason::Error) && shutdown ==> {
            &&& p == PostExit::EndRun
            &&& *final(state) == (AppState { status: ServerStatus::Stopped, ..*old(state) })
        },
        (reason == ExitReason::Restart || reason == ExitReason::ProcessExit || reason
            == ExitReason::Error) && !shutdown ==> {
            &&& p == PostExit::RestartAfterDelay(cfg.restart_delay_seconds)
            &&& appended_log(
                (AppState {
                    status: ServerStatus::Restarting,
                    restart_count: (old(state).restart_count + 1) as u32,
                    ..*old(state)
                }),
                *final(state),
                now,
                LogLevel::Info,
                LogSource::Watcher,
                "Restarting in "@ + dec_str(cfg.restart_delay_seconds as nat) + " seconds..."@,
            )
        },
{
    match reason {
        ExitReason::Shutdown => {
            state.set_status(ServerStatus::Stopped);
            PostExit::EndRun
        },
        ExitReason::Stopped => {
            state.set_status(ServerStatus::Stopped);
            state.add_watcher_log(now, "Server stopped normally".to_owned());
            PostExit::EndRun
        },
        _ => {
            if shutdown {
                state.set_status(ServerStatus::Stopped);
                PostExit::EndRun
            } else {
                state.set_status(ServerStatus::Restarting);
                state.increment_restart_count();
                let msg = "Restarting in ".to_owned().concat(
                    u64_to_string(cfg.restart_delay_seconds).as_str(),
                ).concat(" seconds...");
                state.add_watcher_log(now, msg);
                PostExit::RestartAfterDelay(cfg.restart_delay_seconds)
            }
        },
    }
}

/// One observation during a monitoring phase, as the supervisor's wait
/// and the reader tasks would see it: a line on one of the streams, a
/// timer tick, an arriving command, the shutdown signal turning true, or
/// the stdout stream closing on its own.
#[derive(Debug)]
pub enum MonitorEvent {
    StderrLine(String),
    StdoutLine(String),
    TimerTick(u64),
    Command(ProcessCommand),
    ShutdownSignal,
    StdoutClosed,
}

/// What a scripted monitoring phase concluded: the exit reason, if it
/// ended, and the final flag snapshot.
pub struct MonitorOutcome {
    pub reason: Option<ExitReason>,
    pub flags: MonitorFlags,
}

/// A script carrying only stderr lines and timer ticks.
pub open spec fn only_stderr_and_ticks(events: Seq<MonitorEvent>) -> bool {
    forall|j: int|
        0 <= j < events.len() ==> ((#[trigger] events[j]) is StderrLine || events[j] is TimerTick)
}

/// One monitoring phase, run against a script of observations: the
/// verified counterpart of the concurrent monitoring loop, which feeds
/// the same steps from real streams and channels.
///
/// The ensures record the deliberate asymmetries of the design: the
/// stderr stream and the timer can never end monitoring by themselves —
/// only a command, the shutdown signal, or the stdout reader finishing
/// can — and the shutdown signal and an explicit stop take effect at
/// once.
pub fn monitor_script(
    state: &mut AppState,
    patterns: &ErrorPatterns,
    policy: &RestartConfig,
    events: &Vec<MonitorEvent>,
    now: u64,
) -> (o: MonitorOutcome)
    ensures
        only_stderr_and_ticks(events@) ==> o.reason is None,
        events@.len() > 0 && events@[0] is ShutdownSignal ==> o.reason == Some(
            ExitReason::Shutdown,
        ),
        events@.len() > 0 && (events@[0] matches MonitorEvent::Command(c) && c is Stop)
            ==> o.reason == Some(ExitReason::Stopped),
{
    let mut flags = MonitorFlags::new();
    let mut timer = RestartTimer::new();
    let mut i: usize = 0;
    while i < events.len()
        invariant
            i <= events@.len(),
            i > 0 ==> !(events@[0] is ShutdownSignal),
            i > 0 ==> !(events@[0] matches MonitorEvent::Command(c) && c is Stop),
        decreases events@.len() - i,
    {
        match &events[i] {
            MonitorEvent::StderrLine(line) => {
                // classified and recorded; never ends the run
                let _ = handle_stderr_line(state, &mut flags, line.as_str(), now, patterns, policy);
            },
            MonitorEvent::StdoutLine(line) => {
                proof {
                    if only_stderr_and_ticks(events@) {
                        assert(events@[i as int] is StderrLine || events@[i as int] is TimerTick);
                    }
                }
                let out = handle_stdout_line(
                    state,
                    &mut flags,
                    line.as_str(),
                    now,
                    patterns,
                    policy,
                );
                if out.stop_reading {
                    // the reader finished: the wait resolves on it
                    let reason = resolve_exit_reason(MonitorBreak::StdoutDone, &flags, policy);
                    return MonitorOutcome { reason: Some(reason), flags };
                }
            },
            MonitorEvent::TimerTick(elapsed) => {
                let tick = timer.tick(state, *elapsed, now);
                if tick.triggered {
                    flags.auto_restart_triggered = true;
                }
            },
            MonitorEvent::Command(cmd) => {
                proof {
                    if only_stderr_and_ticks(events@) {
                        assert(events@[i as int] is StderrLine || events@[i as int] is TimerTick);
                    }
                }
                match cmd {
                    ProcessCommand::Stop => {
                        return MonitorOutcome { reason: Some(ExitReason::Stopped), flags };
                    },
                    ProcessCommand::Restart => {
                        apply_restart_request(state, &mut flags, now);
                    },
                    ProcessCommand::SendInput(_) => {},
                }
            },
            MonitorEvent::ShutdownSignal => {
                proof {
                    if only_stderr_and_ticks(events@) {
                        assert(events@[i as int] is StderrLine || events@[i as int] is TimerTick);
                    }
                }
                return MonitorOutcome { reason: Some(ExitReason::Shutdown), flags };
            },
            MonitorEvent::StdoutClosed => {
                proof {
                    if only_stderr_and_ticks(events@) {
                        assert(events@[i as int] is StderrLine || events@[i as int] is TimerTick);
                    }
                }
                let reason = resolve_exit_reason(MonitorBreak::StdoutDone, &flags, policy);
                return MonitorOutcome { reason: Some(reason), flags };
            },
        }
        i = i + 1;
    }
    // the script ran out with monitoring still live
    MonitorOutcome { reason: None, flags }
}

/// One scripted iteration of a simulated supervision run: what the
/// environment did — the shutdown value observed at the top of the
/// iteration, whether the spawn succeeded, and for a successful spawn the
/// monitoring verdict and the shutdown value observed after it.
#[derive(Clone, Copy, Debug, PartialEq, Eq, Structural)]
pub struct ScriptEvent {
    pub shutdown_at_start: bool,
    pub spawn_ok: bool,
    pub pid: u32,
    pub exit: ExitReason,
    pub shutdown_after_exit: bool,
}

/// Why a simulated supervision run came to its end.
#[derive(Clone, Copy, Debug, PartialEq, Eq, Structural)]
pub enum EndCause {
    /// The restart limit was exhausted.
    LimitReached,
    /// The shutdown signal was observed at the top of an iteration.
    ShutdownObserved,
    /// A run ended in a reason that stops the loop.
    RunEnded,
    /// The script ran out while the supervisor would have continued.
    ScriptExhausted,
}

/// What a simulated supervision run did.
#[derive(Clone, Copy, Debug, PartialEq, Eq, Structural)]
pub struct RunOutcome {
    /// How many spawn attempts occurred, successful or not.
    pub spawns: usize,
    pub end: EndCause,
}

/// A reason after which the supervisor restarts rather than stops.
pub open spec fn restartable(r: ExitReason) -> bool {
    r == ExitReason::Restart || r == ExitReason::ProcessExit || r == ExitReason::Error
}

/// A script in which shutdown is never signalled and every run either
/// fails to spawn or ends in a restartable reason.
pub open spec fn always_restartable(events: Seq<ScriptEvent>) -> bool {
    forall|j: int|
        0 <= j < events.len() ==> {
            &&& !(#[trigger] events[j]).shutdown_at_start
            &&& !events[j].shutdown_after_exit
            &&& (events[j].spawn_ok ==> restartable(events[j].exit))
        }
}

/// A script in which shutdown is never signalled and every spawn fails.
pub open spec fn all_failed_spawns(events: Seq<ScriptEvent>) -> bool {
    forall|j: int|
        0 <= j < events.len() ==> {
            &&& !(#[trigger] events[j]).shutdown_at_start
            &&& !events[j].spawn_ok
        }
}

/// The supervision loop, run against a script of environment outcomes:
/// the verified counterpart of the runtime's loop, which composes the same
/// steps around real spawns and streams.
///
/// Limit convention: every spawn attempt — one that fails, and one whose
/// run ends in a restartable reason — raises the restart counter by one,
/// and the loop stops before spawning once the counter has reached the
/// configured limit. From a fresh counter a limit of `m` therefore allows
/// at most `m` spawn attempts in total (within the at-most-`m + 1` bound
/// the data model promises); with no limit configured the loop continues
/// until shutdown or an explicit stop.
pub fn run_supervision(
    cfg: &ServerConfig,
    state: &mut AppState,
    events: &Vec<ScriptEvent>,
    now: u64,
) -> (o: RunOutcome)
    requires
        old(state).restart_count as int + events@.len() <= u32::MAX as int,
    ensures
        final(state).status == ServerStatus::Stopped,
        final(state).restart_count >= old(state).restart_count,
        final(state).restart_count as int <= old(state).restart_count as int + events@.len(),
        o.spawns <= events@.len(),
        (match cfg.max_restarts {
            Some(m) => o.spawns as int <= if old(state).restart_count < m {
                m as int - old(state).restart_count as int
            } else {
                0
            },
            None => true,
        }),
        (cfg.max_restarts is None && always_restartable(events@)) ==> (o.end
            == EndCause::ScriptExhausted && o.spawns == events@.len()),
        cfg.max_restarts matches Some(m) ==> ((old(state).restart_count == 0 && all_failed_spawns(
            events@,
        )) ==> o.spawns as int == vstd::math::min(m as int, events@.len() as int)),
        forall|f: int|
            0 <= f < events@.len() && (#[trigger] events@[f]).shutdown_at_start ==> o.spawns
                as int <= f,
{
    let ghost c0 = state.restart_count;
    let mut spawns: usize = 0;
    let mut i: usize = 0;
    while i < events.len()
        invariant
            i <= events@.len(),
            spawns <= i,
            c0 == old(state).restart_count,
            c0 as int + events@.len() <= u32::MAX as int,
            state.restart_count >= c0,
            state.restart_count as int <= c0 as int + i,
            state.restart_count as int >= c0 as int + spawns,
            (match cfg.max_restarts {
                Some(m) => c0 < m ==> state.restart_count <= m,
                None => true,
            }),
            (match cfg.max_restarts {
                Some(m) => c0 >= m ==> spawns == 0,
                None => true,
            }),
            forall|f: int| 0 <= f < i ==> !(#[trigger] events@[f]).shutdown_at_start,
            (cfg.max_restarts is None && always_restartable(events@)) ==> spawns == i,
            (cfg.max_restarts is Some && c0 == 0 && all_failed_spawns(events@)) ==> (spawns == i
                && state.restart_count == i),
        decreases events@.len() - i,
    {
        let e = events[i];
        match begin_iteration(cfg, state, e.shutdown_at_start, now) {
            IterationGate::LimitReached => {
                state.set_status(ServerStatus::Stopped);
                return RunOutcome { spawns, end: EndCause::LimitReached };
            },
            IterationGate::ShutdownRequested => {
                proof {
                    if always_restartable(events@) {
                        assert(!events@[i as int].shutdown_at_start);
                    }
                    if all_failed_spawns(events@) {
                        assert(!events@[i as int].shutdown_at_start);
                    }
                }
                state.set_status(ServerStatus::Stopped);
                return RunOutcome { spawns, end: EndCause::ShutdownObserved };
            },
            IterationGate::Proceed => {
                spawns = spawns + 1;
                if !e.spawn_ok {
                    let _delay = on_spawn_failure(cfg, state, "spawn failed", now);
                } else {
                    proof {
                        if all_failed_spawns(events@) {
                            assert(!events@[i as int].spawn_ok);
                        }
                    }
                    on_spawn_success(state, e.pid, now);
                    after_monitoring(state);
                    match dispatch_exit(cfg, state, e.exit, e.shutdown_after_exit, now) {
                        PostExit::EndRun => {
                            proof {
                                if always_restartable(events@) {
                                    assert(!events@[i as int].shutdown_at_start);
                                    assert(restartable(events@[i as int].exit));
                                }
                                if all_failed_spawns(events@) {
                                    assert(!events@[i as int].spawn_ok);
                                }
                            }
                            state.set_status(ServerStatus::Stopped);
                            return RunOutcome { spawns, end: EndCause::RunEnded };
                        },
                        PostExit::RestartAfterDelay(_delay) => {},
                    }
                }
            },
        }
        i = i + 1;
    }
    state.set_status(ServerStatus::Stopped);
    RunOutcome { spawns, end: EndCause::ScriptExhausted }
}

} // verus!
