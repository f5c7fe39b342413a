//! The IPC bridge: its registry entry once started, and what is reported of it when
//! its registry alone does not know.

use vstd::prelude::*;
use crate::registry::{OpenCodeRouterState, ProcessHandle};
use crate::text::{opt_view, text_view, trim, trim_seq};
use crate::types::OpenCodeRouterInfo;

verus! {

/// The bridge's health port unless another is configured or taken.
pub const DEFAULT_OPENCODE_ROUTER_HEALTH_PORT: u16 = 3005;

/// Records a started bridge serving `workspace_path`, pointed at `opencode_url`, with
/// its health endpoint on `health_port`.
pub fn install_router<C: ProcessHandle>(
    state: &mut OpenCodeRouterState<C>,
    handle: C,
    pid: u32,
    workspace_path: String,
    opencode_url: Option<String>,
    health_port: u16,
)
    ensures
        final(state).child.is_some() && final(state).child.unwrap().pid == pid,
        !final(state).child_exited,
        final(state).workspace_path == Some(workspace_path),
        final(state).opencode_url == opencode_url,
        final(state).health_port == Some(health_port),
        final(state).version == old(state).version,
        final(state).last_stdout.is_none() && final(state).last_stderr.is_none(),
{
    state.start_locked(handle, pid);
    state.workspace_path = Some(workspace_path);
    state.opencode_url = opencode_url;
    state.health_port = Some(health_port);
}

/// Where to look for a bridge's health endpoint: its recorded port, else the default.
pub fn health_check_port<C: ProcessHandle>(state: &OpenCodeRouterState<C>) -> (r: u16)
    ensures
        r == match state.health_port {
            Some(p) => p,
            None => DEFAULT_OPENCODE_ROUTER_HEALTH_PORT,
        },
{
    match state.health_port {
        Some(p) => p,
        None => DEFAULT_OPENCODE_ROUTER_HEALTH_PORT,
    }
}

/// A value from the bridge's own status output, trimmed, unless blank.
pub open spec fn cli_value(v: Option<Seq<char>>) -> Option<Seq<char>> {
    match v {
        Some(x) => if trim_seq(x).len() == 0 {
            None
        } else {
            Some(trim_seq(x))
        },
        None => None,
    }
}

fn keep_cli_value(v: Option<&str>) -> (r: Option<String>)
    ensures
        text_view(r) == cli_value(opt_view(v)),
{
    match v {
        Some(x) => {
            let t = trim(x);
            if t.unicode_len() == 0 {
                None
            } else {
                Some(String::from_str(t))
            }
        },
        None => None,
    }
}

/// Completes a snapshot of the bridge. When the registry does not see it running, an
/// answering health endpoint (`health` is `Some`, holding the engine URL it reports, if
/// any) means it runs, started elsewhere. Missing engine URL and workspace are then taken
/// from the bridge's status output (trimmed, unless blank).
pub fn router_info_with_fallbacks(
    info: OpenCodeRouterInfo,
    health: Option<Option<String>>,
    cli_url: Option<&str>,
    cli_directory: Option<&str>,
) -> (r: OpenCodeRouterInfo)
    ensures
        r.running == (info.running || health.is_some()),
        r.pid == info.pid,
        r.version == info.version,
        r.last_stdout == info.last_stdout,
        r.last_stderr == info.last_stderr,
        ({
            let url = if !info.running && health.is_some() && health.unwrap().is_some() {
                health.unwrap()
            } else {
                info.opencode_url
            };
            text_view(r.opencode_url) == if url.is_none() {
                cli_value(opt_view(cli_url))
            } else {
                text_view(url)
            }
        }),
        text_view(r.workspace_path) == if info.workspace_path.is_none() {
            cli_value(opt_view(cli_directory))
        } else {
            text_view(info.workspace_path)
        },
{
    let mut info = info;
    if !info.running {
        if let Some(url) = health {
            info.running = true;
            if url.is_some() {
                info.opencode_url = url;
            }
        }
    }
    if info.opencode_url.is_none() {
        info.opencode_url = keep_cli_value(cli_url);
    }
    if info.workspace_path.is_none() {
        info.workspace_path = keep_cli_value(cli_directory);
    }
    info
}

} // verus!
