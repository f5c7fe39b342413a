//! The runtime-mode state machine: stop-before-start across the engine and daemon
//! registries, then the mode-specific installation of what was spawned.

use vstd::prelude::*;
use crate::credentials::SessionCredentials;
use crate::registry::{EngineState, OpenCodeRouterState, OpenworkServerState, OrchestratorState, ProcessHandle};
use crate::sandbox::{local_url, local_url_spec};
use crate::text::{is_blank, is_blank_seq, str_eq, trim, trim_seq, views};
use crate::types::EngineRuntime;

verus! {

/// The process ids of the children the engine and daemon registries hold.
pub open spec fn live_children<C>(engine: EngineState<C>, orchestrator: OrchestratorState<C>) -> Set<u32> {
    let e = if engine.child.is_some() {
        set![engine.child.unwrap().pid]
    } else {
        Set::<u32>::empty()
    };
    let o = if orchestrator.child.is_some() {
        set![orchestrator.child.unwrap().pid]
    } else {
        Set::<u32>::empty()
    };
    e.union(o)
}

/// The first step of every start: stops the engine and daemon registries, whatever ran
/// before and in whichever mode, then records the mode being started. Returns the data
/// directory of a stopped daemon, whose auth snapshot is to be cleared.
pub fn prepare_start<C: ProcessHandle>(
    engine: &mut EngineState<C>,
    orchestrator: &mut OrchestratorState<C>,
    runtime: EngineRuntime,
) -> (r: Option<String>)
    ensures
        live_children(*final(engine), *final(orchestrator)) == Set::<u32>::empty(),
        final(orchestrator).is_stopped(),
        final(engine).child.is_none(),
        final(engine).child_exited,
        final(engine).runtime == runtime,
        final(engine).project_dir.is_none() && final(engine).hostname.is_none(),
        final(engine).port.is_none() && final(engine).base_url.is_none(),
        final(engine).opencode_username.is_none() && final(engine).opencode_password.is_none(),
        final(engine).last_stdout.is_none() && final(engine).last_stderr.is_none(),
        r == old(orchestrator).data_dir,
{
    engine.stop_locked();
    let data_dir = orchestrator.stop_locked();
    engine.runtime = runtime;
    assert(live_children(*engine, *orchestrator) =~= Set::<u32>::empty());
    data_dir
}

/// Installs a directly started engine that survived its warm-up: it becomes the only
/// live child, reachable on the loopback address at `port`.
pub fn install_direct_engine<C: ProcessHandle>(
    engine: &mut EngineState<C>,
    orchestrator: &OrchestratorState<C>,
    handle: C,
    pid: u32,
    project_dir: String,
    port: u16,
    credentials: SessionCredentials,
)
    requires
        orchestrator.child.is_none(),
    ensures
        live_children(*final(engine), *orchestrator) == set![pid],
        final(engine).child.is_some() && final(engine).child.unwrap().handle == handle,
        !final(engine).child_exited,
        final(engine).runtime == old(engine).runtime,
        final(engine).project_dir == Some(project_dir),
        final(engine).hostname.is_some() && final(engine).hostname.unwrap()@ == "127.0.0.1"@,
        final(engine).port == Some(port),
        final(engine).base_url.is_some() && final(engine).base_url.unwrap()@ == local_url_spec(
            port,
        ),
        final(engine).opencode_username == credentials.username,
        final(engine).opencode_password == credentials.password,
        final(engine).last_stdout == old(engine).last_stdout,
        final(engine).last_stderr == old(engine).last_stderr,
{
    let out = engine.last_stdout.take();
    let err = engine.last_stderr.take();
    engine.start_locked(handle, pid);
    engine.last_stdout = out;
    engine.last_stderr = err;
    engine.project_dir = Some(project_dir);
    engine.hostname = Some(String::from_str("127.0.0.1"));
    engine.port = Some(port);
    engine.base_url = Some(local_url(port));
    engine.opencode_username = credentials.username;
    engine.opencode_password = credentials.password;
    assert(live_children(*engine, *orchestrator) =~= set![pid]);
}

/// Installs a freshly spawned daemon: it becomes the only live child.
pub fn install_daemon<C: ProcessHandle>(
    engine: &EngineState<C>,
    orchestrator: &mut OrchestratorState<C>,
    handle: C,
    pid: u32,
    data_dir: String,
)
    requires
        engine.child.is_none(),
    ensures
        live_children(*engine, *final(orchestrator)) == set![pid],
        final(orchestrator).child.is_some() && final(orchestrator).child.unwrap().handle == handle,
        !final(orchestrator).child_exited,
        final(orchestrator).data_dir == Some(data_dir),
        final(orchestrator).last_stdout.is_none() && final(orchestrator).last_stderr.is_none(),
{
    orchestrator.start_locked(handle, pid, data_dir);
    assert(live_children(*engine, *orchestrator) =~= set![pid]);
}

/// Records the engine that a ready daemon reports: owned by the daemon, so no child
/// here, reachable on the loopback address at `opencode_port`.
pub fn record_orchestrated_engine<C: ProcessHandle>(
    engine: &mut EngineState<C>,
    project_dir: String,
    opencode_port: u16,
    credentials: SessionCredentials,
)
    requires
        old(engine).child.is_none(),
    ensures
        final(engine).runtime == EngineRuntime::Orchestrator,
        final(engine).child.is_none(),
        !final(engine).child_exited,
        final(engine).project_dir == Some(project_dir),
        final(engine).hostname.is_some() && final(engine).hostname.unwrap()@ == "127.0.0.1"@,
        final(engine).port == Some(opencode_port),
        final(engine).base_url.is_some() && final(engine).base_url.unwrap()@ == local_url_spec(
            opencode_port,
        ),
        final(engine).opencode_username == credentials.username,
        final(engine).opencode_password == credentials.password,
        final(engine).last_stdout.is_none() && final(engine).last_stderr.is_none(),
{
    engine.runtime = EngineRuntime::Orchestrator;
    engine.child_exited = false;
    engine.project_dir = Some(project_dir);
    engine.hostname = Some(String::from_str("127.0.0.1"));
    engine.port = Some(opencode_port);
    engine.base_url = Some(local_url(opencode_port));
    engine.opencode_username = credentials.username;
    engine.opencode_password = credentials.password;
    engine.last_stdout = None;
    engine.last_stderr = None;
}

/// Stops everything: daemon, engine and relay server registries are all reset. Returns
/// the data directory of a stopped daemon, whose auth snapshot is to be cleared.
pub fn stop_all<C: ProcessHandle>(
    engine: &mut EngineState<C>,
    orchestrator: &mut OrchestratorState<C>,
    openwork: &mut OpenworkServerState<C>,
) -> (r: Option<String>)
    ensures
        final(engine).is_stopped(),
        final(orchestrator).is_stopped(),
        final(openwork).is_stopped(),
        live_children(*final(engine), *final(orchestrator)) == Set::<u32>::empty(),
        r == old(orchestrator).data_dir,
{
    let data_dir = orchestrator.stop_locked();
    engine.stop_locked();
    openwork.stop_locked();
    assert(live_children(*engine, *orchestrator) =~= Set::<u32>::empty());
    data_dir
}

/// Stops every registry at application exit.
pub fn stop_everything<C: ProcessHandle>(
    engine: &mut EngineState<C>,
    orchestrator: &mut OrchestratorState<C>,
    openwork: &mut OpenworkServerState<C>,
    router: &mut OpenCodeRouterState<C>,
) -> (r: Option<String>)
    ensures
        final(engine).is_stopped(),
        final(orchestrator).is_stopped(),
        final(openwork).is_stopped(),
        final(router).is_stopped(),
        r == old(orchestrator).data_dir,
{
    let data_dir = stop_all(engine, orchestrator, openwork);
    router.stop_locked();
    data_dir
}

/// What a start asks for, once checked.
#[derive(Debug)]
pub struct StartPlan {
    pub project_dir: String,
    pub runtime: EngineRuntime,
    pub workspace_paths: Vec<String>,
}

/// The other workspaces a start serves: the non-blank paths whose trimmed form is not
/// the project directory, in order.
pub open spec fn other_workspaces(project: Seq<char>, paths: Seq<Seq<char>>) -> Seq<Seq<char>>
    decreases paths.len(),
{
    if paths.len() == 0 {
        seq![]
    } else {
        let prev = other_workspaces(project, paths.drop_last());
        let p = paths.last();
        if is_blank_seq(p) || trim_seq(p) == project {
            prev
        } else {
            prev.push(p)
        }
    }
}

/// Checks a start request: the project directory (trimmed) is required; the runtime
/// defaults to the orchestrated one; the project directory is served first, then the
/// other workspaces.
pub fn plan_engine_start(project_dir: &str, runtime: Option<EngineRuntime>, workspace_paths: Vec<String>) -> (r: Result<StartPlan, String>)
    ensures
        trim_seq(project_dir@).len() == 0 <==> r.is_err(),
        r.is_err() ==> r.unwrap_err()@ == "projectDir is required"@,
        r.is_ok() ==> {
            let p = r.unwrap();
            &&& p.project_dir@ == trim_seq(project_dir@)
            &&& p.runtime == match runtime {
                Some(m) => m,
                None => EngineRuntime::Orchestrator,
            }
            &&& views(p.workspace_paths@) == seq![trim_seq(project_dir@)] + other_workspaces(
                trim_seq(project_dir@),
                views(workspace_paths@),
            )
        },
{
    let project = trim(project_dir);
    if project.unicode_len() == 0 {
        return Err(String::from_str("projectDir is required"));
    }
    let mut paths: Vec<String> = Vec::new();
    paths.push(String::from_str(project));
    let ghost input = views(workspace_paths@);
    let mut i: usize = 0;
    assert(input.subrange(0, 0) =~= Seq::<Seq<char>>::empty());
    assert(views(paths@) =~= seq![project@] + other_workspaces(project@, input.subrange(0, 0)));
    while i < workspace_paths.len()
        invariant
            i <= workspace_paths.len(),
            input == views(workspace_paths@),
            views(paths@) == seq![project@] + other_workspaces(project@, input.subrange(0, i as int)),
        decreases workspace_paths.len() - i,
    {
        assert(input.subrange(0, i + 1).drop_last() =~= input.subrange(0, i as int));
        let p = workspace_paths[i].as_str();
        if !is_blank(p) && !str_eq(trim(p), project) {
            let ghost before = views(paths@);
            paths.push(String::from_str(p));
            assert(views(paths@) =~= before.push(p@));
        }
        i = i + 1;
    }
    assert(input.subrange(0, workspace_paths.len() as int) =~= input);
    let mode = match runtime {
        Some(m) => m,
        None => EngineRuntime::Orchestrator,
    };
    Ok(StartPlan { project_dir: String::from_str(project), runtime: mode, workspace_paths: paths })
}

} // verus!
