//! The orchestration daemon's status: from its state file, refreshed from its health
//! endpoint, and the engine as the daemon reports it.

use vstd::prelude::*;
use crate::credentials::{or_snapshot, reattach, OrchestratorAuthFile};
use crate::sandbox::{local_url, local_url_spec};
use crate::text::{str_eq, trim, trim_seq};
use crate::types::{
    EngineInfo, EngineRuntime, OrchestratorBinaryState, OrchestratorDaemonState,
    OrchestratorOpencodeState, OrchestratorSidecarInfo, OrchestratorStatus, OrchestratorWorkspace,
};

verus! {

/// The state file the daemon keeps in its data directory.
pub struct OrchestratorStateFile {
    pub version: Option<u32>,
    pub daemon: Option<OrchestratorDaemonState>,
    pub opencode: Option<OrchestratorOpencodeState>,
    pub cli_version: Option<String>,
    pub sidecar: Option<OrchestratorSidecarInfo>,
    pub binaries: Option<OrchestratorBinaryState>,
    pub active_id: Option<String>,
    pub workspaces: Vec<OrchestratorWorkspace>,
}

/// What the daemon's health endpoint returns.
pub struct OrchestratorHealth {
    pub ok: bool,
    pub daemon: Option<OrchestratorDaemonState>,
    pub opencode: Option<OrchestratorOpencodeState>,
    pub cli_version: Option<String>,
    pub sidecar: Option<OrchestratorSidecarInfo>,
    pub binaries: Option<OrchestratorBinaryState>,
    pub active_id: Option<String>,
    pub workspace_count: Option<usize>,
}

/// What the daemon's workspace endpoint returns.
pub struct OrchestratorWorkspaceList {
    pub active_id: Option<String>,
    pub workspaces: Vec<OrchestratorWorkspace>,
}

/// An id, unless absent or blank.
pub open spec fn non_blank(id: Option<String>) -> Option<String> {
    match id {
        Some(v) => if trim_seq(v@).len() == 0 {
            None
        } else {
            Some(v)
        },
        None => None,
    }
}

/// Keeps an id unless it is blank.
pub fn keep_non_blank(id: Option<String>) -> (r: Option<String>)
    ensures
        r == non_blank(id),
{
    match id {
        Some(v) => if trim(v.as_str()).unicode_len() == 0 {
            None
        } else {
            Some(v)
        },
        None => None,
    }
}

/// The status known from the daemon's state file alone (`None` when it could not be
/// read): not running, with `last_error` as the error.
pub fn orchestrator_status_from_state(
    data_dir: &str,
    last_error: Option<String>,
    state: Option<OrchestratorStateFile>,
) -> (r: OrchestratorStatus)
    ensures
        !r.running,
        r.data_dir@ == data_dir@,
        r.last_error == last_error,
        r.workspace_count == r.workspaces@.len(),
        match state {
            Some(s) => r.daemon == s.daemon && r.opencode == s.opencode && r.cli_version
                == s.cli_version && r.sidecar == s.sidecar && r.binaries == s.binaries
                && r.active_id == non_blank(s.active_id) && r.workspaces@ == s.workspaces@,
            None => r.daemon.is_none() && r.opencode.is_none() && r.cli_version.is_none()
                && r.sidecar.is_none() && r.binaries.is_none() && r.active_id.is_none()
                && r.workspaces@.len() == 0,
        },
{
    match state {
        Some(s) => {
            let count = s.workspaces.len();
            OrchestratorStatus {
                running: false,
                data_dir: String::from_str(data_dir),
                daemon: s.daemon,
                opencode: s.opencode,
                cli_version: s.cli_version,
                sidecar: s.sidecar,
                binaries: s.binaries,
                active_id: keep_non_blank(s.active_id),
                workspace_count: count,
                workspaces: s.workspaces,
                last_error,
            }
        },
        None => OrchestratorStatus {
            running: false,
            data_dir: String::from_str(data_dir),
            daemon: None,
            opencode: None,
            cli_version: None,
            sidecar: None,
            binaries: None,
            active_id: None,
            workspace_count: 0,
            workspaces: Vec::new(),
            last_error,
        },
    }
}

/// The daemon URL to ask for a fresher status: the one its state names, if any.
pub fn status_probe_url(fallback: &OrchestratorStatus) -> (r: Option<String>)
    ensures
        match fallback.daemon {
            Some(d) => r == Some(d.base_url),
            None => r.is_none(),
        },
{
    match &fallback.daemon {
        Some(d) => Some(d.base_url.clone()),
        None => None,
    }
}

/// `s` without its trailing slashes.
pub open spec fn strip_slashes(s: Seq<char>) -> Seq<char>
    decreases s.len(),
{
    if s.len() > 0 && s.last() == '/' {
        strip_slashes(s.drop_last())
    } else {
        s
    }
}

/// The URL of `path` on the server at `base_url`, trailing slashes of the base dropped.
pub fn endpoint_url(base_url: &str, path: &str) -> (r: String)
    ensures
        r@ == strip_slashes(base_url@) + path@,
{
    let mut n = base_url.unicode_len();
    assert(base_url@.subrange(0, n as int) =~= base_url@);
    while n > 0 && base_url.get_char(n - 1) == '/'
        invariant
            n <= base_url@.len(),
            strip_slashes(base_url@) == strip_slashes(base_url@.subrange(0, n as int)),
        decreases n,
    {
        assert(base_url@.subrange(0, n as int).drop_last() =~= base_url@.subrange(0, n - 1));
        n = n - 1;
    }
    proof {
        if n > 0 {
            assert(base_url@.subrange(0, n as int).last() == base_url@[n - 1]);
        }
        assert(strip_slashes(base_url@.subrange(0, n as int)) == base_url@.subrange(0, n as int));
    }
    String::from_str(base_url.substring_char(0, n)).concat(path)
}

/// The status after asking the daemon (`health` is `None` when it was not asked): without
/// an answer the state file's status stands; a health error is recorded on it; a health
/// answer replaces it, with the workspace list when that came too.
pub fn resolve_orchestrator_status(
    fallback: OrchestratorStatus,
    health: Option<Result<OrchestratorHealth, String>>,
    workspaces: Option<OrchestratorWorkspaceList>,
) -> (r: OrchestratorStatus)
    ensures
        r.data_dir == fallback.data_dir,
        match health {
            None => r == fallback,
            Some(Err(e)) => r.last_error == Some(e) && r.running == fallback.running && r.daemon
                == fallback.daemon && r.opencode == fallback.opencode && r.active_id
                == fallback.active_id && r.workspaces == fallback.workspaces && r.workspace_count
                == fallback.workspace_count,
            Some(Ok(h)) => {
                &&& r.running == h.ok
                &&& r.last_error.is_none()
                &&& r.daemon == h.daemon
                &&& r.opencode == h.opencode
                &&& r.cli_version == h.cli_version
                &&& r.sidecar == h.sidecar
                &&& r.binaries == h.binaries
                &&& match workspaces {
                    Some(w) => r.workspaces@ == w.workspaces@ && r.workspace_count
                        == w.workspaces@.len() && r.active_id == non_blank(
                        or_snapshot(w.active_id, h.active_id),
                    ),
                    None => r.workspaces@ == fallback.workspaces@ && r.workspace_count == (
                    match h.workspace_count {
                        Some(c) => c as int,
                        None => fallback.workspaces@.len() as int,
                    }) && r.active_id == non_blank(h.active_id),
                }
            },
        },
{
    match health {
        None => fallback,
        Some(Err(e)) => OrchestratorStatus { last_error: Some(e), ..fallback },
        Some(Ok(h)) => {
            let (list, active_id, count) = match workspaces {
                Some(w) => {
                    let n = w.workspaces.len();
                    (w.workspaces, reattach(w.active_id, h.active_id), n)
                },
                None => {
                    let n = match h.workspace_count {
                        Some(c) => c,
                        None => fallback.workspaces.len(),
                    };
                    (fallback.workspaces, h.active_id, n)
                },
            };
            OrchestratorStatus {
                running: h.ok,
                data_dir: fallback.data_dir,
                daemon: h.daemon,
                opencode: h.opencode,
                cli_version: h.cli_version,
                sidecar: h.sidecar,
                binaries: h.binaries,
                active_id: keep_non_blank(active_id),
                workspace_count: count,
                workspaces: list,
                last_error: None,
            }
        },
    }
}

/// The path of the first workspace whose id is `id`.
pub open spec fn workspace_path_of(ws: Seq<OrchestratorWorkspace>, id: Seq<char>) -> Option<String>
    decreases ws.len(),
{
    if ws.len() == 0 {
        None
    } else if ws[0].id@ == id {
        Some(ws[0].path)
    } else {
        workspace_path_of(ws.subrange(1, ws.len() as int), id)
    }
}

fn find_workspace_path(ws: &Vec<OrchestratorWorkspace>, id: &str) -> (r: Option<String>)
    ensures
        r == workspace_path_of(ws@, id@),
{
    let mut i: usize = 0;
    assert(ws@.subrange(0, ws@.len() as int) =~= ws@);
    while i < ws.len()
        invariant
            i <= ws.len(),
            workspace_path_of(ws@, id@) == workspace_path_of(ws@.subrange(i as int, ws@.len() as int), id@),
        decreases ws.len() - i,
    {
        let ghost rest = ws@.subrange(i as int, ws@.len() as int);
        assert(rest.subrange(1, rest.len() as int) =~= ws@.subrange(i + 1, ws@.len() as int));
        if str_eq(ws[i].id.as_str(), id) {
            return Some(ws[i].path.clone());
        }
        i = i + 1;
    }
    assert(ws@.subrange(i as int, ws@.len() as int).len() == 0);
    None
}

/// What the engine's registry holds, as needed to report an orchestrated engine.
pub struct EngineMemory {
    pub runtime: EngineRuntime,
    pub project_dir: Option<String>,
    pub opencode_username: Option<String>,
    pub opencode_password: Option<String>,
}

/// The engine of an orchestrated run as callers see it: what the daemon reports, with
/// credentials and project directory from memory, else from the persisted snapshot
/// (which is all there is after a relaunch).
pub fn orchestrated_engine_info(
    memory: EngineMemory,
    status: OrchestratorStatus,
    auth: Option<OrchestratorAuthFile>,
    last_stdout: Option<String>,
    last_stderr: Option<String>,
) -> (r: EngineInfo)
    ensures
        r.running == status.running,
        r.runtime == memory.runtime,
        r.hostname.is_some() && r.hostname.unwrap()@ == "127.0.0.1"@,
        match status.opencode {
            Some(o) => r.port == Some(o.port) && r.pid == Some(o.pid) && r.base_url.is_some()
                && r.base_url.unwrap()@ == local_url_spec(o.port),
            None => r.port.is_none() && r.pid.is_none() && r.base_url.is_none(),
        },
        r.opencode_username == or_snapshot(
            memory.opencode_username,
            match auth {
                Some(a) => a.opencode_username,
                None => None,
            },
        ),
        r.opencode_password == or_snapshot(
            memory.opencode_password,
            match auth {
                Some(a) => a.opencode_password,
                None => None,
            },
        ),
        r.project_dir == or_snapshot(
            or_snapshot(
                match status.active_id {
                    Some(id) => workspace_path_of(status.workspaces@, id@),
                    None => None,
                },
                memory.project_dir,
            ),
            match auth {
                Some(a) => a.project_dir,
                None => None,
            },
        ),
        r.last_stdout == last_stdout,
        r.last_stderr == last_stderr,
{
    let (port, pid, base_url) = match &status.opencode {
        Some(o) => (Some(o.port), Some(o.pid), Some(local_url(o.port))),
        None => (None, None, None),
    };
    let active_path = match &status.active_id {
        Some(id) => find_workspace_path(&status.workspaces, id.as_str()),
        None => None,
    };
    let (snap_user, snap_pass, snap_dir) = match auth {
        Some(a) => (a.opencode_username, a.opencode_password, a.project_dir),
        None => (None, None, None),
    };
    let project_dir = reattach(reattach(active_path, memory.project_dir), snap_dir);
    EngineInfo {
        running: status.running,
        runtime: memory.runtime,
        base_url,
        project_dir,
        hostname: Some(String::from_str("127.0.0.1")),
        port,
        opencode_username: reattach(memory.opencode_username, snap_user),
        opencode_password: reattach(memory.opencode_password, snap_pass),
        pid,
        last_stdout,
        last_stderr,
    }
}

} // verus!
