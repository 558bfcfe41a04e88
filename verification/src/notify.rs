//! Kinds of events the watcher emits to its notification collaborator.
//! Delivery (formatting, transport, retries) belongs to that collaborator;
//! the library only decides which kind to emit and with what text.

use vstd::prelude::*;

verus! {

/// The kind of one fire-and-forget notification.
#[derive(Clone, Copy, Debug, PartialEq, Eq, Structural)]
pub enum NotifyType {
    Start,
    Error,
    Critical,
    Restart,
    Success,
    Stop,
    Resources,
    Info,
    Backup,
}

/// The published label of a notification kind.
pub open spec fn notify_label(t: NotifyType) -> Seq<char> {
    match t {
        NotifyType::Start => "START"@,
        NotifyType::Error => "ERROR"@,
        NotifyType::Critical => "CRITICAL"@,
        NotifyType::Restart => "RESTART"@,
        NotifyType::Success => "SUCCESS"@,
        NotifyType::Stop => "STOP"@,
        NotifyType::Resources => "RESOURCES"@,
        NotifyType::Info => "INFO"@,
        NotifyType::Backup => "BACKUP"@,
    }
}

impl NotifyType {
    pub fn label(&self) -> (r: &'static str)
        ensures
            r@ == notify_label(*self),
    {
        match self {
            NotifyType::Start => "START",
            NotifyType::Error => "ERROR",
            NotifyType::Critical => "CRITICAL",
            NotifyType::Restart => "RESTART",
            NotifyType::Success => "SUCCESS",
            NotifyType::Stop => "STOP",
            NotifyType::Resources => "RESOURCES",
            NotifyType::Info => "INFO",
            NotifyType::Backup => "BACKUP",
        }
    }
}

} // verus!
