//! Detached sandbox runs: what a creation request means, what the run reports once
//! ready, and the progress watch that runs beside its readiness wait.

use vstd::prelude::*;
use crate::args::port_text;
use crate::credentials::new_token;
use crate::docker::{container_name_spec, derive_orchestrator_container_name, lower_of, lowercase};
use crate::number::decimal;
use crate::text::{opt_view, str_eq, text_view, trim, trim_seq};

verus! {

/// How often a container's state is inspected while waiting.
pub const CONTAINER_PROBE_INTERVAL_MS: u64 = 1500;

/// How often a waiting status is reported.
pub const WAIT_TICK_INTERVAL_MS: u64 = 850;

/// What a request to create a detached sandbox asks for.
#[derive(Debug)]
pub struct DetachedPlan {
    pub workspace_path: String,
    pub wants_docker: bool,
    pub run_id: String,
    pub container_name: Option<String>,
}

/// The backend a request names, trimmed and lower-cased; `none` when not given.
pub open spec fn backend_spec(sandbox_backend: Option<Seq<char>>) -> Seq<char> {
    match sandbox_backend {
        Some(b) => lower_of(trim_seq(b)),
        None => lower_of(trim_seq("none"@)),
    }
}

/// The run id of a request: the given one, trimmed, unless blank; else the fresh one.
pub open spec fn run_id_spec(run_id: Option<Seq<char>>, fresh: Seq<char>) -> Seq<char> {
    match run_id {
        Some(r) => if trim_seq(r).len() > 0 {
            trim_seq(r)
        } else {
            fresh
        },
        None => fresh,
    }
}

/// Reads a request to create a detached sandbox: the workspace path is required; the
/// container backend is used when the backend is `docker`; a blank or missing run id is
/// replaced by `fresh_run_id`.
pub fn plan_detached_sandbox(
    workspace_path: &str,
    sandbox_backend: Option<&str>,
    run_id: Option<&str>,
    fresh_run_id: String,
) -> (r: Result<DetachedPlan, String>)
    ensures
        trim_seq(workspace_path@).len() == 0 <==> r.is_err(),
        r.is_err() ==> r.unwrap_err()@ == "workspacePath is required"@,
        r.is_ok() ==> {
            let p = r.unwrap();
            &&& p.workspace_path@ == trim_seq(workspace_path@)
            &&& p.wants_docker == (backend_spec(opt_view(sandbox_backend)) == "docker"@)
            &&& p.run_id@ == run_id_spec(opt_view(run_id), fresh_run_id@)
            &&& p.container_name.is_some() == p.wants_docker
            &&& p.wants_docker ==> p.container_name.unwrap()@ == container_name_spec(p.run_id@)
        },
{
    let path = trim(workspace_path);
    if path.unicode_len() == 0 {
        return Err(String::from_str("workspacePath is required"));
    }
    let backend = match sandbox_backend {
        Some(b) => lowercase(trim(b)),
        None => lowercase(trim("none")),
    };
    let wants_docker = str_eq(backend.as_str(), "docker");
    let id = match run_id {
        Some(r) => {
            let t = trim(r);
            if t.unicode_len() > 0 {
                String::from_str(t)
            } else {
                fresh_run_id
            }
        },
        None => fresh_run_id,
    };
    let container_name = if wants_docker {
        Some(derive_orchestrator_container_name(id.as_str()))
    } else {
        None
    };
    Ok(DetachedPlan { workspace_path: String::from_str(path), wants_docker, run_id: id, container_name })
}

/// The URL of a server on this machine's loopback address.
pub open spec fn local_url_spec(port: u16) -> Seq<char> {
    "http://127.0.0.1:"@ + decimal(port as nat)
}

/// `http://127.0.0.1:<port>`.
pub fn local_url(port: u16) -> (r: String)
    ensures
        r@ == local_url_spec(port),
{
    String::from_str("http://127.0.0.1:").concat(port_text(port).as_str())
}

/// How to reach a detached sandbox once it is ready.
pub struct OrchestratorDetachedHost {
    pub openwork_url: String,
    pub token: String,
    pub host_token: String,
    pub port: u16,
    pub sandbox_backend: Option<String>,
    pub sandbox_run_id: Option<String>,
    pub sandbox_container_name: Option<String>,
}

/// The two tokens of a detached run: for clients, and for the host.
pub struct DetachedTokens {
    pub token: String,
    pub host_token: String,
}

/// Fresh, non-blank tokens for a detached run.
pub fn detached_tokens() -> (r: DetachedTokens)
    ensures
        r.token@.len() == 36,
        r.host_token@.len() == 36,
{
    DetachedTokens { token: new_token(), host_token: new_token() }
}

/// What a ready detached sandbox reports: its local URL and tokens; backend, run id and
/// container name only for a container run.
pub fn detached_host(plan: DetachedPlan, port: u16, tokens: DetachedTokens) -> (r: OrchestratorDetachedHost)
    ensures
        r.openwork_url@ == local_url_spec(port),
        r.port == port,
        r.token == tokens.token,
        r.host_token == tokens.host_token,
        plan.wants_docker ==> r.sandbox_backend.is_some() && r.sandbox_backend.unwrap()@
            == "docker"@ && r.sandbox_run_id == Some(plan.run_id),
        !plan.wants_docker ==> r.sandbox_backend.is_none() && r.sandbox_run_id.is_none(),
        r.sandbox_container_name == plan.container_name,
{
    let wants = plan.wants_docker;
    OrchestratorDetachedHost {
        openwork_url: local_url(port),
        token: tokens.token,
        host_token: tokens.host_token,
        port,
        sandbox_backend: if wants {
            Some(String::from_str("docker"))
        } else {
            None
        },
        sandbox_run_id: if wants {
            Some(plan.run_id)
        } else {
            None
        },
        sandbox_container_name: plan.container_name,
    }
}

/// The named stages of a sandbox creation's progress stream.
#[derive(Debug, Clone, Copy, PartialEq, Eq, Structural)]
pub enum SandboxStage {
    Init,
    DockerConfig,
    Spawned,
    DockerContainer,
    DockerInspect,
    OpenworkWaiting,
    OpenworkHealthy,
    Error,
    Complete,
}

impl SandboxStage {
    pub open spec fn name_spec(self) -> Seq<char> {
        match self {
            SandboxStage::Init => "init"@,
            SandboxStage::DockerConfig => "docker.config"@,
            SandboxStage::Spawned => "spawned"@,
            SandboxStage::DockerContainer => "docker.container"@,
            SandboxStage::DockerInspect => "docker.inspect"@,
            SandboxStage::OpenworkWaiting => "openwork.waiting"@,
            SandboxStage::OpenworkHealthy => "openwork.healthy"@,
            SandboxStage::Error => "error"@,
            SandboxStage::Complete => "complete"@,
        }
    }

    /// The stage's name in the progress stream.
    pub fn name(self) -> (r: &'static str)
        ensures
            r@ == self.name_spec(),
    {
        match self {
            SandboxStage::Init => "init",
            SandboxStage::DockerConfig => "docker.config",
            SandboxStage::Spawned => "spawned",
            SandboxStage::DockerContainer => "docker.container",
            SandboxStage::DockerInspect => "docker.inspect",
            SandboxStage::OpenworkWaiting => "openwork.waiting",
            SandboxStage::OpenworkHealthy => "openwork.healthy",
            SandboxStage::Error => "error",
            SandboxStage::Complete => "complete",
        }
    }
}

/// Whether `interval` has passed since `last` (never is long ago).
pub open spec fn interval_due(last: Option<u64>, now: u64, interval: u64) -> bool {
    match last {
        None => true,
        Some(t) => now >= t && now - t > interval,
    }
}

fn same_text(a: &Option<String>, b: &Option<String>) -> (r: bool)
    ensures
        r == (text_view(*a) == text_view(*b)),
{
    match (a, b) {
        (Some(x), Some(y)) => str_eq(x.as_str(), y.as_str()),
        (None, None) => true,
        _ => false,
    }
}

/// The container and timing facts a sandbox creation tracks while it waits; the last
/// state and inspection error go into the final report.
pub struct SandboxWatch {
    pub wants_docker: bool,
    pub last_container_check_ms: Option<u64>,
    pub last_tick_ms: Option<u64>,
    pub last_container_state: Option<String>,
    pub last_container_probe_error: Option<String>,
}

impl SandboxWatch {
    /// A watch that has neither inspected nor reported yet.
    pub fn new(wants_docker: bool) -> (r: SandboxWatch)
        ensures
            r.wants_docker == wants_docker,
            r.last_container_check_ms.is_none(),
            r.last_tick_ms.is_none(),
            r.last_container_state.is_none(),
            r.last_container_probe_error.is_none(),
    {
        SandboxWatch {
            wants_docker,
            last_container_check_ms: None,
            last_tick_ms: None,
            last_container_state: None,
            last_container_probe_error: None,
        }
    }

    /// Whether the container is to be inspected now; if so the inspection is counted
    /// as made now. Only container runs are inspected.
    pub fn container_probe_due(&mut self, now_ms: u64) -> (r: bool)
        ensures
            r == (old(self).wants_docker && interval_due(
                old(self).last_container_check_ms,
                now_ms,
                CONTAINER_PROBE_INTERVAL_MS,
            )),
            final(self).last_container_check_ms == if r {
                Some(now_ms)
            } else {
                old(self).last_container_check_ms
            },
            final(self).wants_docker == old(self).wants_docker,
            final(self).last_tick_ms == old(self).last_tick_ms,
            final(self).last_container_state == old(self).last_container_state,
            final(self).last_container_probe_error == old(self).last_container_probe_error,
    {
        if !self.wants_docker {
            return false;
        }
        let due = match self.last_container_check_ms {
            None => true,
            Some(t) => now_ms >= t && now_ms - t > CONTAINER_PROBE_INTERVAL_MS,
        };
        if due {
            self.last_container_check_ms = Some(now_ms);
        }
        due
    }

    /// Whether a waiting status is to be reported now; if so it is counted as made now.
    pub fn tick_due(&mut self, now_ms: u64) -> (r: bool)
        ensures
            r == interval_due(old(self).last_tick_ms, now_ms, WAIT_TICK_INTERVAL_MS),
            final(self).last_tick_ms == if r {
                Some(now_ms)
            } else {
                old(self).last_tick_ms
            },
            final(self).wants_docker == old(self).wants_docker,
            final(self).last_container_check_ms == old(self).last_container_check_ms,
            final(self).last_container_state == old(self).last_container_state,
            final(self).last_container_probe_error == old(self).last_container_probe_error,
    {
        let due = match self.last_tick_ms {
            None => true,
            Some(t) => now_ms >= t && now_ms - t > WAIT_TICK_INTERVAL_MS,
        };
        if due {
            self.last_tick_ms = Some(now_ms);
        }
        due
    }

    /// Records an inspected container state (none: not created). Returns whether it
    /// changed, which is reported; any earlier inspection error is cleared.
    pub fn record_container_state(&mut self, state: Option<String>) -> (r: bool)
        ensures
            r == (text_view(state) != text_view(old(self).last_container_state)),
            text_view(final(self).last_container_state) == text_view(state),
            final(self).last_container_probe_error.is_none(),
            final(self).wants_docker == old(self).wants_docker,
            final(self).last_container_check_ms == old(self).last_container_check_ms,
            final(self).last_tick_ms == old(self).last_tick_ms,
    {
        let changed = !same_text(&state, &self.last_container_state);
        if changed {
            self.last_container_state = state;
        }
        self.last_container_probe_error = None;
        changed
    }

    /// Records an inspection error. Returns whether it differs from the last one, which
    /// is reported.
    pub fn record_container_probe_error(&mut self, error: String) -> (r: bool)
        ensures
            r == (text_view(old(self).last_container_probe_error) != Some(error@)),
            text_view(final(self).last_container_probe_error) == Some(error@),
            final(self).wants_docker == old(self).wants_docker,
            final(self).last_container_state == old(self).last_container_state,
            final(self).last_container_check_ms == old(self).last_container_check_ms,
            final(self).last_tick_ms == old(self).last_tick_ms,
    {
        let current = Some(error);
        let changed = !same_text(&self.last_container_probe_error, &current);
        if changed {
            self.last_container_probe_error = current;
        }
        changed
    }
}

/// The message of a container state change.
pub fn container_label(state: &Option<String>) -> (r: String)
    ensures
        r@ == "Sandbox container: "@ + match state {
            Some(s) => s@,
            None => "not-created"@,
        },
{
    match state {
        Some(s) => String::from_str("Sandbox container: ").concat(s.as_str()),
        None => String::from_str("Sandbox container: ").concat("not-created"),
    }
}

} // verus!
