//! Records the supervisor reports to its callers, and what the orchestration daemon
//! reports about itself.

use vstd::prelude::*;

verus! {

/// The two ways of running the engine.
#[derive(Debug, Clone, Copy, PartialEq, Eq, Structural)]
pub enum EngineRuntime {
    /// The engine is spawned and owned by this process.
    Direct,
    /// A daemon is spawned and owned by this process; it owns the engine.
    Orchestrator,
}

impl Default for EngineRuntime {
    fn default() -> (r: Self)
        ensures
            r == EngineRuntime::Direct,
    {
        EngineRuntime::Direct
    }
}

/// What callers see of the engine.
#[derive(Debug, Clone)]
pub struct EngineInfo {
    pub running: bool,
    pub runtime: EngineRuntime,
    pub base_url: Option<String>,
    pub project_dir: Option<String>,
    pub hostname: Option<String>,
    pub port: Option<u16>,
    pub opencode_username: Option<String>,
    pub opencode_password: Option<String>,
    pub pid: Option<u32>,
    pub last_stdout: Option<String>,
    pub last_stderr: Option<String>,
}

/// What callers see of the relay server.
#[derive(Debug, Clone)]
pub struct DoWhatServerInfo {
    pub running: bool,
    pub host: Option<String>,
    pub port: Option<u16>,
    pub base_url: Option<String>,
    pub connect_url: Option<String>,
    pub mdns_url: Option<String>,
    pub lan_url: Option<String>,
    pub client_token: Option<String>,
    pub host_token: Option<String>,
    pub pid: Option<u32>,
    pub last_stdout: Option<String>,
    pub last_stderr: Option<String>,
}

/// What callers see of the bridge.
#[derive(Debug, Clone)]
pub struct OpenCodeRouterInfo {
    pub running: bool,
    pub version: Option<String>,
    pub workspace_path: Option<String>,
    pub opencode_url: Option<String>,
    pub pid: Option<u32>,
    pub last_stdout: Option<String>,
    pub last_stderr: Option<String>,
}

/// The daemon process as the daemon reports it.
#[derive(Debug, Clone)]
pub struct OrchestratorDaemonState {
    pub pid: u32,
    pub port: u16,
    pub base_url: String,
    pub started_at: u64,
}

/// The engine process as the daemon reports it.
#[derive(Debug, Clone)]
pub struct OrchestratorOpencodeState {
    pub pid: u32,
    pub port: u16,
    pub base_url: String,
    pub started_at: u64,
}

#[derive(Debug, Clone)]
pub struct OrchestratorBinaryInfo {
    pub path: String,
    pub source: String,
    pub expected_version: Option<String>,
    pub actual_version: Option<String>,
}

#[derive(Debug, Clone)]
pub struct OrchestratorBinaryState {
    pub opencode: Option<OrchestratorBinaryInfo>,
}

#[derive(Debug, Clone)]
pub struct OrchestratorSidecarInfo {
    pub dir: Option<String>,
    pub base_url: Option<String>,
    pub manifest_url: Option<String>,
    pub target: Option<String>,
    pub source: Option<String>,
    pub opencode_source: Option<String>,
    pub allow_external: Option<bool>,
}

/// A workspace the daemon serves.
#[derive(Debug, Clone)]
pub struct OrchestratorWorkspace {
    pub id: String,
    pub name: String,
    pub path: String,
    pub workspace_type: String,
    pub base_url: Option<String>,
    pub directory: Option<String>,
    pub created_at: Option<u64>,
    pub last_used_at: Option<u64>,
}

/// The daemon's state as this process last learned it.
#[derive(Debug, Clone)]
pub struct OrchestratorStatus {
    pub running: bool,
    pub data_dir: String,
    pub daemon: Option<OrchestratorDaemonState>,
    pub opencode: Option<OrchestratorOpencodeState>,
    pub cli_version: Option<String>,
    pub sidecar: Option<OrchestratorSidecarInfo>,
    pub binaries: Option<OrchestratorBinaryState>,
    pub active_id: Option<String>,
    pub workspace_count: usize,
    pub workspaces: Vec<OrchestratorWorkspace>,
    pub last_error: Option<String>,
}

/// The outcome of looking for the engine binary and asking it about itself.
#[derive(Debug, Clone)]
pub struct EngineDoctorResult {
    pub found: bool,
    pub in_path: bool,
    pub resolved_path: Option<String>,
    pub version: Option<String>,
    pub supports_serve: bool,
    pub notes: Vec<String>,
    pub serve_help_status: Option<i32>,
    pub serve_help_stdout: Option<String>,
    pub serve_help_stderr: Option<String>,
}

/// The outcome of running an outside command.
#[derive(Debug, Clone)]
pub struct ExecResult {
    pub ok: bool,
    pub status: i32,
    pub stdout: String,
    pub stderr: String,
}

/// A copy of an optional text.
pub fn clone_text(o: &Option<String>) -> (r: Option<String>)
    ensures
        r == *o,
{
    match o {
        Some(s) => Some(s.clone()),
        None => None,
    }
}

} // verus!
