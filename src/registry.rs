//! Managed-process registries: at most one live child per subsystem, its captured output
//! and its connection metadata. Callers hold each registry under its own lock.

use vstd::prelude::*;
use crate::number::{i32_to_decimal, signed_decimal};
use crate::output::{append_tail, tail, truncate_output, OUTPUT_TAIL_CHARS};
use crate::types::{clone_text, DoWhatServerInfo, EngineInfo, EngineRuntime, OpenCodeRouterInfo};

verus! {

/// A spawned operating-system process that can be terminated.
pub trait ProcessHandle {
    /// Asks the process to terminate; failures are ignored.
    fn kill(self);
}

/// A live child together with its process id.
pub struct RunningChild<C> {
    pub handle: C,
    pub pid: u32,
}

/// The output text after `chunk` was appended to `current`.
pub open spec fn appended(current: Option<String>, chunk: Seq<char>) -> Seq<char> {
    tail(
        match current {
            Some(c) => c@,
            None => Seq::<char>::empty(),
        } + chunk,
        OUTPUT_TAIL_CHARS as nat,
    )
}

/// The notice kept when a child exits with a status code.
pub open spec fn exit_notice(name: Seq<char>, code: i32) -> Seq<char> {
    tail(name + " exited (code "@ + signed_decimal(code as int) + ")."@, OUTPUT_TAIL_CHARS as nat)
}

fn exit_notice_text(name: &str, code: i32) -> (r: String)
    ensures
        r@ == exit_notice(name@, code),
{
    let msg = String::from_str(name).concat(" exited (code ").concat(i32_to_decimal(code).as_str()).concat(").");
    truncate_output(msg.as_str(), OUTPUT_TAIL_CHARS)
}

/// Whether a child is to be reported as running.
pub open spec fn child_running<C>(child: Option<RunningChild<C>>, exited: bool) -> bool {
    child.is_some() && !exited
}

/// The pid reported for a child.
pub open spec fn child_pid<C>(child: Option<RunningChild<C>>, exited: bool) -> Option<u32> {
    if child_running(child, exited) {
        Some(child.unwrap().pid)
    } else {
        None
    }
}

/// The child kept after a snapshot: a child seen to have exited is let go.
pub open spec fn child_after_snapshot<C>(child: Option<RunningChild<C>>, exited: bool) -> Option<
    RunningChild<C>,
> {
    if exited {
        None
    } else {
        child
    }
}

/// Terminates the child, if there is one.
fn kill_child<C: ProcessHandle>(child: Option<RunningChild<C>>) {
    if let Some(c) = child {
        c.handle.kill();
    }
}

/// The engine's registry.
pub struct EngineState<C> {
    pub runtime: EngineRuntime,
    pub child: Option<RunningChild<C>>,
    pub child_exited: bool,
    pub project_dir: Option<String>,
    pub hostname: Option<String>,
    pub port: Option<u16>,
    pub base_url: Option<String>,
    pub opencode_username: Option<String>,
    pub opencode_password: Option<String>,
    pub last_stdout: Option<String>,
    pub last_stderr: Option<String>,
}

impl<C: ProcessHandle> EngineState<C> {
    /// Every field at its value after a stop: no child, the exit latched, direct runtime
    /// and no metadata, credentials or output.
    pub open spec fn is_stopped(&self) -> bool {
        &&& self.child.is_none()
        &&& self.child_exited
        &&& self.runtime == EngineRuntime::Direct
        &&& self.project_dir.is_none()
        &&& self.hostname.is_none()
        &&& self.port.is_none()
        &&& self.base_url.is_none()
        &&& self.opencode_username.is_none()
        &&& self.opencode_password.is_none()
        &&& self.last_stdout.is_none()
        &&& self.last_stderr.is_none()
    }

    /// An empty registry, as at application start.
    pub fn new() -> (r: Self)
        ensures
            r.child.is_none(),
            !r.child_exited,
            r.runtime == EngineRuntime::Direct,
            r.project_dir.is_none() && r.hostname.is_none() && r.port.is_none(),
            r.base_url.is_none() && r.opencode_username.is_none() && r.opencode_password.is_none(),
            r.last_stdout.is_none() && r.last_stderr.is_none(),
    {
        EngineState {
            runtime: EngineRuntime::Direct,
            child: None,
            child_exited: false,
            project_dir: None,
            hostname: None,
            port: None,
            base_url: None,
            opencode_username: None,
            opencode_password: None,
            last_stdout: None,
            last_stderr: None,
        }
    }

    /// Terminates the child, if any, and resets every field, whether or not a child ran.
    pub fn stop_locked(&mut self)
        ensures
            final(self).is_stopped(),
    {
        let child = self.child.take();
        kill_child(child);
        self.child_exited = true;
        self.runtime = EngineRuntime::Direct;
        self.base_url = None;
        self.project_dir = None;
        self.hostname = None;
        self.port = None;
        self.opencode_username = None;
        self.opencode_password = None;
        self.last_stdout = None;
        self.last_stderr = None;
    }

    /// Installs a freshly spawned child: the exit latch and both output buffers are
    /// cleared. A child still held is terminated first.
    pub fn start_locked(&mut self, handle: C, pid: u32)
        ensures
            final(self).child.is_some(),
            final(self).child.unwrap().pid == pid,
            final(self).child.unwrap().handle == handle,
            !final(self).child_exited,
            final(self).last_stdout.is_none(),
            final(self).last_stderr.is_none(),
            final(self).runtime == old(self).runtime,
            final(self).project_dir == old(self).project_dir,
            final(self).hostname == old(self).hostname,
            final(self).port == old(self).port,
            final(self).base_url == old(self).base_url,
            final(self).opencode_username == old(self).opencode_username,
            final(self).opencode_password == old(self).opencode_password,
    {
        let previous = self.child.take();
        kill_child(previous);
        self.child = Some(RunningChild { handle, pid });
        self.child_exited = false;
        self.last_stdout = None;
        self.last_stderr = None;
    }

    /// Reports the registry; a child seen to have exited is let go and reported as not
    /// running.
    pub fn snapshot_locked(&mut self) -> (r: EngineInfo)
        ensures
            r.running == child_running(old(self).child, old(self).child_exited),
            r.pid == child_pid(old(self).child, old(self).child_exited),
            final(self).child == child_after_snapshot(old(self).child, old(self).child_exited),
            final(self).child_exited == old(self).child_exited,
            r.runtime == old(self).runtime,
            r.base_url == old(self).base_url,
            r.project_dir == old(self).project_dir,
            r.hostname == old(self).hostname,
            r.port == old(self).port,
            r.opencode_username == old(self).opencode_username,
            r.opencode_password == old(self).opencode_password,
            r.last_stdout == old(self).last_stdout,
            r.last_stderr == old(self).last_stderr,
            final(self).runtime == old(self).runtime,
            final(self).project_dir == old(self).project_dir,
            final(self).hostname == old(self).hostname,
            final(self).port == old(self).port,
            final(self).base_url == old(self).base_url,
            final(self).opencode_username == old(self).opencode_username,
            final(self).opencode_password == old(self).opencode_password,
            final(self).last_stdout == old(self).last_stdout,
            final(self).last_stderr == old(self).last_stderr,
    {
        if self.child_exited {
            self.child = None;
        }
        let (running, pid) = match &self.child {
            Some(c) => (true, Some(c.pid)),
            None => (false, None),
        };
        EngineInfo {
            running,
            runtime: self.runtime,
            base_url: clone_text(&self.base_url),
            project_dir: clone_text(&self.project_dir),
            hostname: clone_text(&self.hostname),
            port: self.port,
            opencode_username: clone_text(&self.opencode_username),
            opencode_password: clone_text(&self.opencode_password),
            pid,
            last_stdout: clone_text(&self.last_stdout),
            last_stderr: clone_text(&self.last_stderr),
        }
    }

    /// Appends standard output text, keeping the most recent characters.
    pub fn record_stdout(&mut self, chunk: &str)
        ensures
            final(self).last_stdout.is_some(),
            final(self).last_stdout.unwrap()@ == appended(old(self).last_stdout, chunk@),
            final(self).last_stderr == old(self).last_stderr,
            final(self).child == old(self).child,
            final(self).child_exited == old(self).child_exited,
    {
        self.last_stdout = Some(append_tail(&self.last_stdout, chunk, OUTPUT_TAIL_CHARS));
    }

    /// Appends standard error text, keeping the most recent characters.
    pub fn record_stderr(&mut self, chunk: &str)
        ensures
            final(self).last_stderr.is_some(),
            final(self).last_stderr.unwrap()@ == appended(old(self).last_stderr, chunk@),
            final(self).last_stdout == old(self).last_stdout,
            final(self).child == old(self).child,
            final(self).child_exited == old(self).child_exited,
    {
        self.last_stderr = Some(append_tail(&self.last_stderr, chunk, OUTPUT_TAIL_CHARS));
    }

    /// Latches the exit of the child.
    pub fn mark_exited(&mut self)
        ensures
            final(self).child_exited,
            final(self).child == old(self).child,
            final(self).last_stdout == old(self).last_stdout,
            final(self).last_stderr == old(self).last_stderr,
    {
        self.child_exited = true;
    }

    /// The child reported an error: its exit is latched and the message appended to
    /// standard error.
    pub fn record_failure(&mut self, message: &str)
        ensures
            final(self).child_exited,
            final(self).child == old(self).child,
            final(self).last_stderr.is_some(),
            final(self).last_stderr.unwrap()@ == appended(old(self).last_stderr, message@),
            final(self).last_stdout == old(self).last_stdout,
    {
        self.child_exited = true;
        self.record_stderr(message);
    }
}

/// The relay server's registry.
pub struct OpenworkServerState<C> {
    pub child: Option<RunningChild<C>>,
    pub child_exited: bool,
    pub host: Option<String>,
    pub port: Option<u16>,
    pub base_url: Option<String>,
    pub connect_url: Option<String>,
    pub mdns_url: Option<String>,
    pub lan_url: Option<String>,
    pub client_token: Option<String>,
    pub host_token: Option<String>,
    pub last_stdout: Option<String>,
    pub last_stderr: Option<String>,
}

impl<C: ProcessHandle> OpenworkServerState<C> {
    /// Every field at its value after a stop.
    pub open spec fn is_stopped(&self) -> bool {
        &&& self.child.is_none()
        &&& self.child_exited
        &&& self.host.is_none()
        &&& self.port.is_none()
        &&& self.base_url.is_none()
        &&& self.connect_url.is_none()
        &&& self.mdns_url.is_none()
        &&& self.lan_url.is_none()
        &&& self.client_token.is_none()
        &&& self.host_token.is_none()
        &&& self.last_stdout.is_none()
        &&& self.last_stderr.is_none()
    }

    /// An empty registry, as at application start.
    pub fn new() -> (r: Self)
        ensures
            r.child.is_none(),
            !r.child_exited,
            r.host.is_none() && r.port.is_none() && r.base_url.is_none(),
            r.connect_url.is_none() && r.mdns_url.is_none() && r.lan_url.is_none(),
            r.client_token.is_none() && r.host_token.is_none(),
            r.last_stdout.is_none() && r.last_stderr.is_none(),
    {
        OpenworkServerState {
            child: None,
            child_exited: false,
            host: None,
            port: None,
            base_url: None,
            connect_url: None,
            mdns_url: None,
            lan_url: None,
            client_token: None,
            host_token: None,
            last_stdout: None,
            last_stderr: None,
        }
    }

    /// Terminates the child, if any, and resets every field, tokens included.
    pub fn stop_locked(&mut self)
        ensures
            final(self).is_stopped(),
    {
        let child = self.child.take();
        kill_child(child);
        self.child_exited = true;
        self.host = None;
        self.port = None;
        self.base_url = None;
        self.connect_url = None;
        self.mdns_url = None;
        self.lan_url = None;
        self.client_token = None;
        self.host_token = None;
        self.last_stdout = None;
        self.last_stderr = None;
    }

    /// Installs a freshly spawned child; the exit latch and output are cleared.
    pub fn start_locked(&mut self, handle: C, pid: u32)
        ensures
            final(self).child.is_some(),
            final(self).child.unwrap().pid == pid,
            final(self).child.unwrap().handle == handle,
            !final(self).child_exited,
            final(self).last_stdout.is_none(),
            final(self).last_stderr.is_none(),
            final(self).host == old(self).host,
            final(self).port == old(self).port,
            final(self).base_url == old(self).base_url,
            final(self).connect_url == old(self).connect_url,
            final(self).mdns_url == old(self).mdns_url,
            final(self).lan_url == old(self).lan_url,
            final(self).client_token == old(self).client_token,
            final(self).host_token == old(self).host_token,
    {
        let previous = self.child.take();
        kill_child(previous);
        self.child = Some(RunningChild { handle, pid });
        self.child_exited = false;
        self.last_stdout = None;
        self.last_stderr = None;
    }

    /// Reports the registry; a child seen to have exited is let go.
    pub fn snapshot_locked(&mut self) -> (r: DoWhatServerInfo)
        ensures
            r.running == child_running(old(self).child, old(self).child_exited),
            r.pid == child_pid(old(self).child, old(self).child_exited),
            final(self).child == child_after_snapshot(old(self).child, old(self).child_exited),
            final(self).child_exited == old(self).child_exited,
            r.host == old(self).host,
            r.port == old(self).port,
            r.base_url == old(self).base_url,
            r.connect_url == old(self).connect_url,
            r.mdns_url == old(self).mdns_url,
            r.lan_url == old(self).lan_url,
            r.client_token == old(self).client_token,
            r.host_token == old(self).host_token,
            r.last_stdout == old(self).last_stdout,
            r.last_stderr == old(self).last_stderr,
            final(self).host == old(self).host,
            final(self).port == old(self).port,
            final(self).base_url == old(self).base_url,
            final(self).connect_url == old(self).connect_url,
            final(self).client_token == old(self).client_token,
            final(self).host_token == old(self).host_token,
            final(self).last_stdout == old(self).last_stdout,
            final(self).last_stderr == old(self).last_stderr,
    {
        if self.child_exited {
            self.child = None;
        }
        let (running, pid) = match &self.child {
            Some(c) => (true, Some(c.pid)),
            None => (false, None),
        };
        DoWhatServerInfo {
            running,
            host: clone_text(&self.host),
            port: self.port,
            base_url: clone_text(&self.base_url),
            connect_url: clone_text(&self.connect_url),
            mdns_url: clone_text(&self.mdns_url),
            lan_url: clone_text(&self.lan_url),
            client_token: clone_text(&self.client_token),
            host_token: clone_text(&self.host_token),
            pid,
            last_stdout: clone_text(&self.last_stdout),
            last_stderr: clone_text(&self.last_stderr),
        }
    }

    /// Appends standard output text, keeping the most recent characters.
    pub fn record_stdout(&mut self, chunk: &str)
        ensures
            final(self).last_stdout.is_some(),
            final(self).last_stdout.unwrap()@ == appended(old(self).last_stdout, chunk@),
            final(self).last_stderr == old(self).last_stderr,
            final(self).child == old(self).child,
            final(self).child_exited == old(self).child_exited,
    {
        self.last_stdout = Some(append_tail(&self.last_stdout, chunk, OUTPUT_TAIL_CHARS));
    }

    /// Appends standard error text, keeping the most recent characters.
    pub fn record_stderr(&mut self, chunk: &str)
        ensures
            final(self).last_stderr.is_some(),
            final(self).last_stderr.unwrap()@ == appended(old(self).last_stderr, chunk@),
            final(self).last_stdout == old(self).last_stdout,
            final(self).child == old(self).child,
            final(self).child_exited == old(self).child_exited,
    {
        self.last_stderr = Some(append_tail(&self.last_stderr, chunk, OUTPUT_TAIL_CHARS));
    }

    /// Latches the exit of the child.
    pub fn mark_exited(&mut self)
        ensures
            final(self).child_exited,
            final(self).child == old(self).child,
            final(self).last_stdout == old(self).last_stdout,
            final(self).last_stderr == old(self).last_stderr,
    {
        self.child_exited = true;
    }

    /// The child reported an error: its exit is latched and the message appended to
    /// standard error.
    pub fn record_failure(&mut self, message: &str)
        ensures
            final(self).child_exited,
            final(self).child == old(self).child,
            final(self).last_stderr.is_some(),
            final(self).last_stderr.unwrap()@ == appended(old(self).last_stderr, message@),
            final(self).last_stdout == old(self).last_stdout,
    {
        self.child_exited = true;
        self.record_stderr(message);
    }

    /// The child terminated: its exit is latched; with a status code, standard error is
    /// replaced by a notice naming it.
    pub fn record_termination(&mut self, code: Option<i32>)
        ensures
            final(self).child_exited,
            final(self).child == old(self).child,
            final(self).last_stdout == old(self).last_stdout,
            match code {
                Some(c) => final(self).last_stderr.is_some() && final(self).last_stderr.unwrap()@
                    == exit_notice("OpenWork server"@, c),
                None => final(self).last_stderr == old(self).last_stderr,
            },
    {
        self.child_exited = true;
        if let Some(c) = code {
            self.last_stderr = Some(exit_notice_text("OpenWork server", c));
        }
    }
}

/// The bridge's registry.
pub struct OpenCodeRouterState<C> {
    pub child: Option<RunningChild<C>>,
    pub child_exited: bool,
    pub version: Option<String>,
    pub workspace_path: Option<String>,
    pub opencode_url: Option<String>,
    pub health_port: Option<u16>,
    pub last_stdout: Option<String>,
    pub last_stderr: Option<String>,
}

impl<C: ProcessHandle> OpenCodeRouterState<C> {
    /// Every field at its value after a stop.
    pub open spec fn is_stopped(&self) -> bool {
        &&& self.child.is_none()
        &&& self.child_exited
        &&& self.version.is_none()
        &&& self.workspace_path.is_none()
        &&& self.opencode_url.is_none()
        &&& self.health_port.is_none()
        &&& self.last_stdout.is_none()
        &&& self.last_stderr.is_none()
    }

    /// An empty registry, as at application start.
    pub fn new() -> (r: Self)
        ensures
            r.child.is_none(),
            !r.child_exited,
            r.version.is_none() && r.workspace_path.is_none(),
            r.opencode_url.is_none() && r.health_port.is_none(),
            r.last_stdout.is_none() && r.last_stderr.is_none(),
    {
        OpenCodeRouterState {
            child: None,
            child_exited: false,
            version: None,
            workspace_path: None,
            opencode_url: None,
            health_port: None,
            last_stdout: None,
            last_stderr: None,
        }
    }

    /// Terminates the child, if any, and resets every field.
    pub fn stop_locked(&mut self)
        ensures
            final(self).is_stopped(),
    {
        let child = self.child.take();
        kill_child(child);
        self.child_exited = true;
        self.version = None;
        self.workspace_path = None;
        self.opencode_url = None;
        self.health_port = None;
        self.last_stdout = None;
        self.last_stderr = None;
    }

    /// Installs a freshly spawned child; the exit latch and output are cleared.
    pub fn start_locked(&mut self, handle: C, pid: u32)
        ensures
            final(self).child.is_some(),
            final(self).child.unwrap().pid == pid,
            final(self).child.unwrap().handle == handle,
            !final(self).child_exited,
            final(self).last_stdout.is_none(),
            final(self).last_stderr.is_none(),
            final(self).version == old(self).version,
            final(self).workspace_path == old(self).workspace_path,
            final(self).opencode_url == old(self).opencode_url,
            final(self).health_port == old(self).health_port,
    {
        let previous = self.child.take();
        kill_child(previous);
        self.child = Some(RunningChild { handle, pid });
        self.child_exited = false;
        self.last_stdout = None;
        self.last_stderr = None;
    }

    /// Reports the registry; a child seen to have exited is let go.
    pub fn snapshot_locked(&mut self) -> (r: OpenCodeRouterInfo)
        ensures
            r.running == child_running(old(self).child, old(self).child_exited),
            r.pid == child_pid(old(self).child, old(self).child_exited),
            final(self).child == child_after_snapshot(old(self).child, old(self).child_exited),
            final(self).child_exited == old(self).child_exited,
            r.version == old(self).version,
            r.workspace_path == old(self).workspace_path,
            r.opencode_url == old(self).opencode_url,
            r.last_stdout == old(self).last_stdout,
            r.last_stderr == old(self).last_stderr,
            final(self).version == old(self).version,
            final(self).workspace_path == old(self).workspace_path,
            final(self).opencode_url == old(self).opencode_url,
            final(self).health_port == old(self).health_port,
            final(self).last_stdout == old(self).last_stdout,
            final(self).last_stderr == old(self).last_stderr,
    {
        if self.child_exited {
            self.child = None;
        }
        let (running, pid) = match &self.child {
            Some(c) => (true, Some(c.pid)),
            None => (false, None),
        };
        OpenCodeRouterInfo {
            running,
            version: clone_text(&self.version),
            workspace_path: clone_text(&self.workspace_path),
            opencode_url: clone_text(&self.opencode_url),
            pid,
            last_stdout: clone_text(&self.last_stdout),
            last_stderr: clone_text(&self.last_stderr),
        }
    }

    /// Appends standard output text, keeping the most recent characters.
    pub fn record_stdout(&mut self, chunk: &str)
        ensures
            final(self).last_stdout.is_some(),
            final(self).last_stdout.unwrap()@ == appended(old(self).last_stdout, chunk@),
            final(self).last_stderr == old(self).last_stderr,
            final(self).child == old(self).child,
            final(self).child_exited == old(self).child_exited,
    {
        self.last_stdout = Some(append_tail(&self.last_stdout, chunk, OUTPUT_TAIL_CHARS));
    }

    /// Appends standard error text, keeping the most recent characters.
    pub fn record_stderr(&mut self, chunk: &str)
        ensures
            final(self).last_stderr.is_some(),
            final(self).last_stderr.unwrap()@ == appended(old(self).last_stderr, chunk@),
            final(self).last_stdout == old(self).last_stdout,
            final(self).child == old(self).child,
            final(self).child_exited == old(self).child_exited,
    {
        self.last_stderr = Some(append_tail(&self.last_stderr, chunk, OUTPUT_TAIL_CHARS));
    }

    /// Latches the exit of the child.
    pub fn mark_exited(&mut self)
        ensures
            final(self).child_exited,
            final(self).child == old(self).child,
            final(self).last_stdout == old(self).last_stdout,
            final(self).last_stderr == old(self).last_stderr,
    {
        self.child_exited = true;
    }

    /// The child reported an error: its exit is latched and the message appended to
    /// standard error.
    pub fn record_failure(&mut self, message: &str)
        ensures
            final(self).child_exited,
            final(self).child == old(self).child,
            final(self).last_stderr.is_some(),
            final(self).last_stderr.unwrap()@ == appended(old(self).last_stderr, message@),
            final(self).last_stdout == old(self).last_stdout,
    {
        self.child_exited = true;
        self.record_stderr(message);
    }

    /// The child terminated: its exit is latched; with a status code, standard error is
    /// replaced by a notice naming it.
    pub fn record_termination(&mut self, code: Option<i32>)
        ensures
            final(self).child_exited,
            final(self).child == old(self).child,
            final(self).last_stdout == old(self).last_stdout,
            match code {
                Some(c) => final(self).last_stderr.is_some() && final(self).last_stderr.unwrap()@
                    == exit_notice("OpenCodeRouter"@, c),
                None => final(self).last_stderr == old(self).last_stderr,
            },
    {
        self.child_exited = true;
        if let Some(c) = code {
            self.last_stderr = Some(exit_notice_text("OpenCodeRouter", c));
        }
    }
}

/// The orchestration daemon's registry.
pub struct OrchestratorState<C> {
    pub child: Option<RunningChild<C>>,
    pub child_exited: bool,
    pub data_dir: Option<String>,
    pub last_stdout: Option<String>,
    pub last_stderr: Option<String>,
}

impl<C: ProcessHandle> OrchestratorState<C> {
    /// Every field at its value after a stop.
    pub open spec fn is_stopped(&self) -> bool {
        &&& self.child.is_none()
        &&& self.child_exited
        &&& self.data_dir.is_none()
        &&& self.last_stdout.is_none()
        &&& self.last_stderr.is_none()
    }

    /// An empty registry, as at application start.
    pub fn new() -> (r: Self)
        ensures
            r.child.is_none(),
            !r.child_exited,
            r.data_dir.is_none() && r.last_stdout.is_none() && r.last_stderr.is_none(),
    {
        OrchestratorState {
            child: None,
            child_exited: false,
            data_dir: None,
            last_stdout: None,
            last_stderr: None,
        }
    }

    /// Terminates the child, if any, and resets every field. Returns the data directory
    /// the daemon ran with: its persisted auth snapshot is to be cleared.
    pub fn stop_locked(&mut self) -> (r: Option<String>)
        ensures
            final(self).is_stopped(),
            r == old(self).data_dir,
    {
        let child = self.child.take();
        kill_child(child);
        let data_dir = self.data_dir.take();
        self.child_exited = true;
        self.last_stdout = None;
        self.last_stderr = None;
        data_dir
    }

    /// Installs a freshly spawned daemon run with `data_dir`; the exit latch and output
    /// are cleared.
    pub fn start_locked(&mut self, handle: C, pid: u32, data_dir: String)
        ensures
            final(self).child.is_some(),
            final(self).child.unwrap().pid == pid,
            final(self).child.unwrap().handle == handle,
            !final(self).child_exited,
            final(self).data_dir == Some(data_dir),
            final(self).last_stdout.is_none(),
            final(self).last_stderr.is_none(),
    {
        let previous = self.child.take();
        kill_child(previous);
        self.child = Some(RunningChild { handle, pid });
        self.child_exited = false;
        self.data_dir = Some(data_dir);
        self.last_stdout = None;
        self.last_stderr = None;
    }

    /// Appends standard output text, keeping the most recent characters.
    pub fn record_stdout(&mut self, chunk: &str)
        ensures
            final(self).last_stdout.is_some(),
            final(self).last_stdout.unwrap()@ == appended(old(self).last_stdout, chunk@),
            final(self).last_stderr == old(self).last_stderr,
            final(self).child == old(self).child,
            final(self).child_exited == old(self).child_exited,
            final(self).data_dir == old(self).data_dir,
    {
        self.last_stdout = Some(append_tail(&self.last_stdout, chunk, OUTPUT_TAIL_CHARS));
    }

    /// Appends standard error text, keeping the most recent characters.
    pub fn record_stderr(&mut self, chunk: &str)
        ensures
            final(self).last_stderr.is_some(),
            final(self).last_stderr.unwrap()@ == appended(old(self).last_stderr, chunk@),
            final(self).last_stdout == old(self).last_stdout,
            final(self).child == old(self).child,
            final(self).child_exited == old(self).child_exited,
            final(self).data_dir == old(self).data_dir,
    {
        self.last_stderr = Some(append_tail(&self.last_stderr, chunk, OUTPUT_TAIL_CHARS));
    }

    /// Latches the exit of the child.
    pub fn mark_exited(&mut self)
        ensures
            final(self).child_exited,
            final(self).child == old(self).child,
            final(self).data_dir == old(self).data_dir,
            final(self).last_stdout == old(self).last_stdout,
            final(self).last_stderr == old(self).last_stderr,
    {
        self.child_exited = true;
    }

    /// The child reported an error: its exit is latched and the message appended to
    /// standard error.
    pub fn record_failure(&mut self, message: &str)
        ensures
            final(self).child_exited,
            final(self).child == old(self).child,
            final(self).last_stderr.is_some(),
            final(self).last_stderr.unwrap()@ == appended(old(self).last_stderr, message@),
            final(self).last_stdout == old(self).last_stdout,
    {
        self.child_exited = true;
        self.record_stderr(message);
    }
}

} // verus!
