//! Configuration consumed by the watcher: how to start the process, when
//! to restart it, which log lines count as errors, and the settings of the
//! collaborating backup and web components.

use vstd::prelude::*;

verus! {

/// How the watched process is started and when it is restarted.
#[derive(Clone, Debug)]
pub struct ServerConfig {
    pub executable: String,
    pub arguments: Vec<String>,
    pub working_directory: Option<String>,
    pub restart_delay_seconds: u64,
    /// Upper bound on the restart counter; absent means unlimited.
    pub max_restarts: Option<u32>,
    pub auto_restart_hourly: bool,
    pub restart_warning_message: String,
}

pub fn default_restart_warning_message() -> (r: String)
    ensures
        r@ == "Server will restart in 1 minute!"@,
{
    "Server will restart in 1 minute!".to_owned()
}

/// Credentials of the notification collaborator.
#[derive(Clone, Debug)]
pub struct TelegramConfig {
    pub enabled: bool,
    pub token: String,
    pub chat_id: String,
}

/// Ordered substring lists, one per severity. Within a category the first
/// match suffices; the categories are checked critical, then errors, then
/// warnings.
#[derive(Clone, Debug)]
pub struct ErrorPatterns {
    pub critical: Vec<String>,
    pub errors: Vec<String>,
    pub warnings: Vec<String>,
}

/// Which classifications trigger a restart. The flags are independent:
/// enabling one severity says nothing about the others.
#[derive(Clone, Copy, Debug, PartialEq, Eq, Structural)]
pub struct RestartConfig {
    pub critical: bool,
    pub errors: bool,
    pub warnings: bool,
    pub process_exit: bool,
}

/// Settings of the backup collaborator.
#[derive(Clone, Debug)]
pub struct BackupConfig {
    pub enabled: bool,
    pub source_folder: String,
    pub backup_folder: String,
    pub interval_hours: u64,
    pub retention_days: u64,
}

pub fn default_backup_enabled() -> (r: bool)
    ensures
        r == true,
{
    true
}

pub fn default_backup_source() -> (r: String)
    ensures
        r@ == "universe"@,
{
    "universe".to_owned()
}

pub fn default_backup_dest() -> (r: String)
    ensures
        r@ == "backups"@,
{
    "backups".to_owned()
}

pub fn default_backup_interval() -> (r: u64)
    ensures
        r == 4,
{
    4
}

pub fn default_backup_retention() -> (r: u64)
    ensures
        r == 10,
{
    10
}

impl Default for BackupConfig {
    fn default() -> (r: Self)
        ensures
            r.enabled == true,
            r.source_folder@ == "universe"@,
            r.backup_folder@ == "backups"@,
            r.interval_hours == 4,
            r.retention_days == 10,
    {
        BackupConfig {
            enabled: default_backup_enabled(),
            source_folder: default_backup_source(),
            backup_folder: default_backup_dest(),
            interval_hours: default_backup_interval(),
            retention_days: default_backup_retention(),
        }
    }
}

/// Settings of the dashboard collaborator.
#[derive(Clone, Debug)]
pub struct WebConfig {
    pub enabled: bool,
    pub port: u16,
    pub host: String,
    pub auth_token: Option<String>,
}

pub fn default_web_enabled() -> (r: bool)
    ensures
        r == true,
{
    true
}

pub fn default_web_port() -> (r: u16)
    ensures
        r == 3000,
{
    3000
}

pub fn default_web_host() -> (r: String)
    ensures
        r@ == "0.0.0.0"@,
{
    "0.0.0.0".to_owned()
}

impl Default for WebConfig {
    fn default() -> (r: Self)
        ensures
            r.enabled == true,
            r.port == 3000,
            r.host@ == "0.0.0.0"@,
            r.auth_token is None,
    {
        WebConfig {
            enabled: default_web_enabled(),
            port: default_web_port(),
            host: default_web_host(),
            auth_token: None,
        }
    }
}

/// Another watcher instance the dashboard can point at.
#[derive(Clone, Debug)]
pub struct RemoteServer {
    pub id: String,
    pub name: String,
    pub host: String,
    pub port: u16,
    pub token: Option<String>,
}

} // verus!
