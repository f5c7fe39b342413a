//! The container runtime's command-line tool: container naming, candidate binaries, and
//! what its output means.

use vstd::prelude::*;
use crate::number::{i32_to_decimal, signed_decimal};
use crate::text::{
    contains, contains_seq, dedup_first, holds, is_prefix, join, join_path, join_spec, join_with,
    lines, lines_seq, starts_with, str_eq, trim, trim_seq, views,
};

verus! {

/// The namespace of containers that run a detached orchestrator.
pub const CONTAINER_NAME_PREFIX: &'static str = "openwork-orchestrator-";

/// How many characters of the run id a container name keeps.
pub const CONTAINER_ID_CHARS: usize = 24;

/// What [`lowercase`] returns: `str::to_lowercase` of its argument.
pub uninterp spec fn lower_of(s: Seq<char>) -> Seq<char>;

/// Relies on `str::to_lowercase`: Unicode lower-casing, which depends on the characters
/// alone.
#[verifier::external_body]
pub(crate) fn lowercase(s: &str) -> (r: String)
    ensures
        r@ == lower_of(s@),
{
    s.to_lowercase()
}

/// A character a container name may hold.
pub open spec fn name_char_ok(c: char) -> bool {
    ('a' <= c && c <= 'z') || ('A' <= c && c <= 'Z') || ('0' <= c && c <= '9') || c == '_' || c
        == '.' || c == '-'
}

/// `c`, or `-` when a container name may not hold it.
pub open spec fn name_char(c: char) -> char {
    if name_char_ok(c) {
        c
    } else {
        '-'
    }
}

/// The container name of a run: every character outside `[A-Za-z0-9_.-]` replaced by `-`,
/// cut to its first 24 characters, after the namespace prefix.
pub open spec fn container_name_spec(run_id: Seq<char>) -> Seq<char> {
    let cleaned = run_id.map_values(|c: char| name_char(c));
    let kept = if cleaned.len() > CONTAINER_ID_CHARS {
        cleaned.subrange(0, CONTAINER_ID_CHARS as int)
    } else {
        cleaned
    };
    CONTAINER_NAME_PREFIX@ + kept
}

/// Derives the container name of a detached run from its run id.
pub fn derive_orchestrator_container_name(run_id: &str) -> (r: String)
    ensures
        r@ == container_name_spec(run_id@),
{
    let n = run_id.unicode_len();
    let keep: usize = if n > CONTAINER_ID_CHARS {
        CONTAINER_ID_CHARS
    } else {
        n
    };
    let mut out = String::from_str(CONTAINER_NAME_PREFIX);
    let ghost cleaned = run_id@.map_values(|c: char| name_char(c));
    let dash = "-";
    proof {
        reveal_strlit("-");
    }
    let mut i: usize = 0;
    while i < keep
        invariant
            n == run_id@.len(),
            keep <= n,
            i <= keep,
            cleaned == run_id@.map_values(|c: char| name_char(c)),
            dash@ == seq!['-'],
            out@ == CONTAINER_NAME_PREFIX@ + cleaned.subrange(0, i as int),
        decreases keep - i,
    {
        let c = run_id.get_char(i);
        let ok = ('a' <= c && c <= 'z') || ('A' <= c && c <= 'Z') || ('0' <= c && c <= '9') || c
            == '_' || c == '.' || c == '-';
        if ok {
            out.append(run_id.substring_char(i, i + 1));
            assert(run_id@.subrange(i as int, i + 1) =~= seq![c]);
        } else {
            out.append(dash);
        }
        assert(cleaned.subrange(0, i + 1) =~= cleaned.subrange(0, i as int).push(name_char(c)));
        i = i + 1;
    }
    assert(cleaned.subrange(0, keep as int) =~= (if cleaned.len() > CONTAINER_ID_CHARS {
        cleaned.subrange(0, CONTAINER_ID_CHARS as int)
    } else {
        cleaned
    }));
    out
}

/// A container name is the namespace prefix, then at most 24 characters that a
/// container name may hold, exactly 24 when the run id is that long; one run id always
/// gives one name.
pub proof fn lemma_container_name_shape(run_id: Seq<char>, other: Seq<char>)
    ensures
        is_prefix(CONTAINER_NAME_PREFIX@, container_name_spec(run_id)),
        container_name_spec(run_id).len() - CONTAINER_NAME_PREFIX@.len() == if run_id.len()
            > CONTAINER_ID_CHARS {
            CONTAINER_ID_CHARS as int
        } else {
            run_id.len() as int
        },
        forall|k: int|
            CONTAINER_NAME_PREFIX@.len() <= k < container_name_spec(run_id).len() ==> name_char_ok(
                #[trigger] container_name_spec(run_id)[k],
            ),
        run_id == other ==> container_name_spec(run_id) == container_name_spec(other),
{
    let name = container_name_spec(run_id);
    let p = CONTAINER_NAME_PREFIX@;
    assert(name.subrange(0, p.len() as int) =~= p);
    assert forall|k: int| p.len() <= k < name.len() implies name_char_ok(#[trigger] name[k]) by {
        let cleaned = run_id.map_values(|c: char| name_char(c));
        assert(name[k] == cleaned[k - p.len()]);
    }
}

/// Names of containers this system manages.
pub open spec fn is_managed_spec(name: Seq<char>) -> bool {
    is_prefix("openwork-orchestrator-"@, name) || is_prefix("openwork-dev-"@, name) || is_prefix(
        "openwrk-"@,
        name,
    )
}

/// Whether a container belongs to this system, by its name's prefix.
pub fn is_openwork_managed_container(name: &str) -> (r: bool)
    ensures
        r == is_managed_spec(name@),
{
    starts_with(name, "openwork-orchestrator-") || starts_with(name, "openwork-dev-")
        || starts_with(name, "openwrk-")
}

/// Which container names may be stopped on request.
pub open spec fn stoppable_name(name: Seq<char>) -> bool {
    is_prefix("openwork-orchestrator-"@, name) && forall|k: int|
        0 <= k < name.len() ==> name_char_ok(#[trigger] name[k])
}

/// Checks a container name given for stopping: trimmed, required, in the orchestrator's
/// namespace and made of container-name characters only. Returns the trimmed name.
pub fn validate_container_name(container_name: &str) -> (r: Result<String, String>)
    ensures
        match r {
            Ok(name) => name@ == trim_seq(container_name@) && trim_seq(container_name@).len() > 0
                && stoppable_name(name@),
            Err(e) => !(trim_seq(container_name@).len() > 0 && stoppable_name(
                trim_seq(container_name@),
            )) && e@ == (if trim_seq(container_name@).len() == 0 {
                "containerName is required"@
            } else if !is_prefix("openwork-orchestrator-"@, trim_seq(container_name@)) {
                "Refusing to stop container: expected name starting with 'openwork-orchestrator-'"@
            } else {
                "containerName contains invalid characters"@
            }),
        },
{
    let name = trim(container_name);
    let n = name.unicode_len();
    if n == 0 {
        return Err(String::from_str("containerName is required"));
    }
    if !starts_with(name, "openwork-orchestrator-") {
        return Err(
            String::from_str(
                "Refusing to stop container: expected name starting with 'openwork-orchestrator-'",
            ),
        );
    }
    let mut i: usize = 0;
    while i < n
        invariant
            n == name@.len(),
            n > 0,
            name@ == trim_seq(container_name@),
            is_prefix("openwork-orchestrator-"@, name@),
            i <= n,
            forall|k: int| 0 <= k < i ==> name_char_ok(#[trigger] name@[k]),
        decreases n - i,
    {
        let c = name.get_char(i);
        let ok = ('a' <= c && c <= 'z') || ('A' <= c && c <= 'Z') || ('0' <= c && c <= '9') || c
            == '_' || c == '.' || c == '-';
        if !ok {
            assert(!name_char_ok(name@[i as int]));
            return Err(String::from_str("containerName contains invalid characters"));
        }
        i = i + 1;
    }
    Ok(String::from_str(name))
}

/// The first line of `s`, or nothing when `s` has no line.
pub open spec fn first_line(s: Seq<char>) -> Seq<char> {
    if lines_seq(s).len() > 0 {
        lines_seq(s)[0]
    } else {
        Seq::<char>::empty()
    }
}

/// The client version line of `docker --version` output: its first line, trimmed, when
/// it starts with `docker version` once lower-cased.
pub open spec fn client_version_spec(stdout: Seq<char>) -> Option<Seq<char>> {
    let line = trim_seq(first_line(stdout));
    if is_prefix("docker version"@, lower_of(line)) {
        Some(line)
    } else {
        None
    }
}

/// Reads the client version line of `docker --version` output.
pub fn parse_docker_client_version(stdout: &str) -> (r: Option<String>)
    ensures
        match r {
            Some(s) => client_version_spec(stdout@) == Some(s@),
            None => client_version_spec(stdout@).is_none(),
        },
{
    let all = lines(stdout);
    let first = if all.len() > 0 {
        all[0].clone()
    } else {
        String::new()
    };
    let line = trim(first.as_str());
    let lowered = lowercase(line);
    if !starts_with(lowered.as_str(), "docker version") {
        return None;
    }
    Some(String::from_str(line))
}

/// The value after `Server Version:` on the first line of `lines` from `i` on that has
/// a non-blank one.
pub open spec fn server_version_from(lines: Seq<Seq<char>>, i: int) -> Option<Seq<char>>
    decreases lines.len() - i,
{
    if i < 0 || i >= lines.len() {
        None
    } else {
        let t = trim_seq(lines[i]);
        let key = "Server Version:"@;
        if is_prefix(key, t) && trim_seq(t.subrange(key.len() as int, t.len() as int)).len() > 0 {
            Some(trim_seq(t.subrange(key.len() as int, t.len() as int)))
        } else {
            server_version_from(lines, i + 1)
        }
    }
}

/// Reads the server version from `docker info` output.
pub fn parse_docker_server_version(stdout: &str) -> (r: Option<String>)
    ensures
        match r {
            Some(s) => server_version_from(lines_seq(stdout@), 0) == Some(s@),
            None => server_version_from(lines_seq(stdout@), 0).is_none(),
        },
{
    let all = lines(stdout);
    let ghost ls = views(all@);
    let key = "Server Version:";
    let key_len = key.unicode_len();
    let mut i: usize = 0;
    while i < all.len()
        invariant
            ls == views(all@),
            ls == lines_seq(stdout@),
            key_len == key@.len(),
            key@ == "Server Version:"@,
            i <= all.len(),
            server_version_from(ls, 0) == server_version_from(ls, i as int),
        decreases all.len() - i,
    {
        let t = trim(all[i].as_str());
        if starts_with(t, key) {
            let rest = trim(t.substring_char(key_len, t.unicode_len()));
            if rest.unicode_len() > 0 {
                return Some(String::from_str(rest));
            }
        }
        i = i + 1;
    }
    None
}

/// The most characters of command output kept for diagnostics.
pub const DEBUG_OUTPUT_CHARS: usize = 1200;

/// Diagnostic output: trimmed, and when longer than the limit its first characters and a
/// truncation mark.
pub open spec fn debug_text(input: Seq<char>) -> Seq<char> {
    let t = trim_seq(input);
    if t.len() <= DEBUG_OUTPUT_CHARS {
        t
    } else {
        t.subrange(0, DEBUG_OUTPUT_CHARS as int) + "...[truncated]"@
    }
}

/// Trims command output and cuts it to the diagnostic limit, in characters.
pub fn truncate_for_debug(input: &str) -> (r: String)
    ensures
        r@ == debug_text(input@),
{
    let t = trim(input);
    let n = t.unicode_len();
    if n <= DEBUG_OUTPUT_CHARS {
        String::from_str(t)
    } else {
        String::from_str(t.substring_char(0, DEBUG_OUTPUT_CHARS)).concat("...[truncated]")
    }
}

/// The trimmed standard output and standard error of a command, on two lines.
pub open spec fn combined_output(stdout: Seq<char>, stderr: Seq<char>) -> Seq<char> {
    trim_seq(stdout) + "\n"@ + trim_seq(stderr)
}

fn combine_output(stdout: &str, stderr: &str) -> (r: String)
    ensures
        r@ == combined_output(stdout@, stderr@),
{
    String::from_str(trim(stdout)).concat("\n").concat(trim(stderr))
}

/// Lower-cased inspect output that says the container does not exist.
pub open spec fn missing_container_spec(lowered: Seq<char>) -> bool {
    contains_seq(lowered, "no such object"@) || contains_seq(lowered, "not found"@)
        || contains_seq(lowered, "does not exist"@)
}

/// Whether lower-cased `docker inspect` output says the container does not exist.
pub fn inspect_reports_missing(lowered: &str) -> (r: bool)
    ensures
        r == missing_container_spec(lowered@),
{
    contains(lowered, "no such object") || contains(lowered, "not found") || contains(
        lowered,
        "does not exist",
    )
}

/// The result of running the container tool once.
pub struct DockerCommandResult {
    pub status: i32,
    pub stdout: String,
    pub stderr: String,
    pub program: String,
}

/// What a failed inspection reports.
pub open spec fn inspect_error_spec(status: i32, stderr: Seq<char>, program: Seq<char>) -> Seq<
    char,
> {
    "docker inspect "@ + program + " returned status "@ + signed_decimal(status as int)
        + " (stderr: "@ + debug_text(stderr) + ")"@
}

/// The state of a container from `docker inspect -f {{.State.Status}}`: the trimmed status
/// on success (none when empty), none when the container does not exist, otherwise an
/// error.
pub fn docker_inspect_outcome(result: &DockerCommandResult) -> (r: Result<Option<String>, String>)
    ensures
        result.status == 0 ==> match r {
            Ok(Some(s)) => s@ == trim_seq(result.stdout@) && s@.len() > 0,
            Ok(None) => trim_seq(result.stdout@).len() == 0,
            Err(_) => false,
        },
        result.status != 0 && missing_container_spec(
            lower_of(combined_output(result.stdout@, result.stderr@)),
        ) ==> r.is_ok() && r.unwrap().is_none(),
        result.status != 0 && !missing_container_spec(
            lower_of(combined_output(result.stdout@, result.stderr@)),
        ) ==> r.is_err() && r.unwrap_err()@ == inspect_error_spec(
            result.status,
            result.stderr@,
            result.program@,
        ),
{
    if result.status == 0 {
        let t = trim(result.stdout.as_str());
        if t.unicode_len() == 0 {
            return Ok(None);
        }
        return Ok(Some(String::from_str(t)));
    }
    let combined = combine_output(result.stdout.as_str(), result.stderr.as_str());
    let lowered = lowercase(combined.as_str());
    if inspect_reports_missing(lowered.as_str()) {
        return Ok(None);
    }
    Err(
        String::from_str("docker inspect ").concat(result.program.as_str()).concat(
            " returned status ",
        ).concat(i32_to_decimal(result.status).as_str()).concat(" (stderr: ").concat(
            truncate_for_debug(result.stderr.as_str()).as_str(),
        ).concat(")"),
    )
}

/// The error of an inspection the tool could not run.
pub fn inspect_failure(err: &str) -> (r: String)
    ensures
        r@ == "docker inspect failed: "@ + err@,
{
    String::from_str("docker inspect failed: ").concat(err)
}

/// Lower-cased `docker info` failure output that speaks of missing permission.
pub open spec fn permission_denied_spec(lowered: Seq<char>) -> bool {
    contains_seq(lowered, "permission denied"@) || contains_seq(lowered, "got permission denied"@)
        || contains_seq(lowered, "access is denied"@)
}

/// Lower-cased `docker info` failure output that speaks of an unreachable daemon.
pub open spec fn daemon_down_spec(lowered: Seq<char>) -> bool {
    contains_seq(lowered, "cannot connect to the docker daemon"@) || contains_seq(
        lowered,
        "is the docker daemon running"@,
    ) || contains_seq(lowered, "error during connect"@) || contains_seq(
        lowered,
        "connection refused"@,
    ) || contains_seq(lowered, "failed to connect to the docker api"@) || contains_seq(
        lowered,
        "dial unix"@,
    ) || contains_seq(lowered, "connect: no such file or directory"@) || contains_seq(
        lowered,
        "no such file or directory"@,
    )
}

/// From lower-cased `docker info` failure output: whether the daemon seems to run, and
/// whether permission seems granted.
pub fn classify_info_failure(lowered: &str) -> (r: (bool, bool))
    ensures
        r.0 == !daemon_down_spec(lowered@),
        r.1 == !permission_denied_spec(lowered@),
{
    let permission_ok = !contains(lowered, "permission denied") && !contains(
        lowered,
        "got permission denied",
    ) && !contains(lowered, "access is denied");
    let daemon_running = !contains(lowered, "cannot connect to the docker daemon") && !contains(
        lowered,
        "is the docker daemon running",
    ) && !contains(lowered, "error during connect") && !contains(lowered, "connection refused")
        && !contains(lowered, "failed to connect to the docker api") && !contains(
        lowered,
        "dial unix",
    ) && !contains(lowered, "connect: no such file or directory") && !contains(
        lowered,
        "no such file or directory",
    );
    (daemon_running, permission_ok)
}

/// A command's outcome as kept for diagnostics.
pub struct SandboxDoctorCommandDebug {
    pub status: i32,
    pub stdout: String,
    pub stderr: String,
}

/// What was tried while checking the container runtime.
pub struct SandboxDoctorDebug {
    pub candidates: Vec<String>,
    pub selected_bin: Option<String>,
    pub version_command: Option<SandboxDoctorCommandDebug>,
    pub info_command: Option<SandboxDoctorCommandDebug>,
}

/// Whether the container runtime is usable, and why not.
pub struct SandboxDoctorResult {
    pub installed: bool,
    pub daemon_running: bool,
    pub permission_ok: bool,
    pub ready: bool,
    pub client_version: Option<String>,
    pub server_version: Option<String>,
    pub error: Option<String>,
    pub debug: Option<SandboxDoctorDebug>,
}

fn command_debug(result: &DockerCommandResult) -> (r: SandboxDoctorCommandDebug)
    ensures
        r.status == result.status,
        r.stdout@ == debug_text(result.stdout@),
        r.stderr@ == debug_text(result.stderr@),
{
    SandboxDoctorCommandDebug {
        status: result.status,
        stdout: truncate_for_debug(result.stdout.as_str()),
        stderr: truncate_for_debug(result.stderr.as_str()),
    }
}

/// Where a runtime check stands after `docker --version`.
pub enum DoctorProgress {
    /// The check is over.
    Done(SandboxDoctorResult),
    /// The client works; `docker info` is to be run next.
    NeedsInfo { debug: SandboxDoctorDebug, client_version: Option<String> },
}

/// Judges `docker --version`: a failure to run or a non-zero status ends the check with
/// nothing installed; otherwise the client version is read and `docker info` is next.
pub fn doctor_after_version(candidates: Vec<String>, version: Result<DockerCommandResult, String>) -> (r: DoctorProgress)
    ensures
        match version {
            Err(e) => match r {
                DoctorProgress::Done(d) => !d.installed && !d.daemon_running && !d.permission_ok
                    && !d.ready && d.error == Some(e) && d.client_version.is_none()
                    && d.server_version.is_none() && d.debug.is_some() && d.debug.unwrap().candidates
                    == candidates && d.debug.unwrap().version_command.is_none(),
                _ => false,
            },
            Ok(v) => if v.status != 0 {
                match r {
                    DoctorProgress::Done(d) => !d.installed && !d.daemon_running
                        && !d.permission_ok && !d.ready && d.error.is_some()
                        && d.error.unwrap()@ == "docker --version failed (status "@
                        + signed_decimal(v.status as int) + "): "@ + trim_seq(v.stderr@)
                        && d.client_version.is_none() && d.server_version.is_none()
                        && d.debug.is_some() && d.debug.unwrap().candidates == candidates
                        && d.debug.unwrap().selected_bin == Some(v.program),
                    _ => false,
                }
            } else {
                match r {
                    DoctorProgress::NeedsInfo { debug, client_version } => (match client_version {
                        Some(c) => client_version_spec(v.stdout@) == Some(c@),
                        None => client_version_spec(v.stdout@).is_none(),
                    }) && debug.selected_bin == Some(v.program) && debug.candidates == candidates
                        && debug.info_command.is_none() && debug.version_command.is_some()
                        && debug.version_command.unwrap().status == v.status
                        && debug.version_command.unwrap().stdout@ == debug_text(v.stdout@)
                        && debug.version_command.unwrap().stderr@ == debug_text(v.stderr@),
                    _ => false,
                }
            },
        },
{
    let mut debug = SandboxDoctorDebug {
        candidates,
        selected_bin: None,
        version_command: None,
        info_command: None,
    };
    match version {
        Err(e) => DoctorProgress::Done(
            SandboxDoctorResult {
                installed: false,
                daemon_running: false,
                permission_ok: false,
                ready: false,
                client_version: None,
                server_version: None,
                error: Some(e),
                debug: Some(debug),
            },
        ),
        Ok(v) => {
            debug.version_command = Some(command_debug(&v));
            if v.status != 0 {
                let msg = String::from_str("docker --version failed (status ").concat(
                    i32_to_decimal(v.status).as_str(),
                ).concat("): ").concat(trim(v.stderr.as_str()));
                debug.selected_bin = Some(v.program);
                return DoctorProgress::Done(
                    SandboxDoctorResult {
                        installed: false,
                        daemon_running: false,
                        permission_ok: false,
                        ready: false,
                        client_version: None,
                        server_version: None,
                        error: Some(msg),
                        debug: Some(debug),
                    },
                );
            }
            let client_version = parse_docker_client_version(v.stdout.as_str());
            debug.selected_bin = Some(v.program);
            DoctorProgress::NeedsInfo { debug, client_version }
        },
    }
}

/// Judges `docker info` after a working client: success means ready; a failure is
/// classified from its output.
pub fn doctor_after_info(
    debug: SandboxDoctorDebug,
    client_version: Option<String>,
    info: Result<DockerCommandResult, String>,
) -> (r: SandboxDoctorResult)
    ensures
        r.installed,
        r.client_version == client_version,
        r.debug.is_some(),
        r.debug.unwrap().candidates == debug.candidates,
        r.debug.unwrap().selected_bin == debug.selected_bin,
        r.debug.unwrap().version_command == debug.version_command,
        match info {
            Ok(v) => r.debug.unwrap().info_command.is_some() && r.debug.unwrap().info_command.unwrap().status
                == v.status,
            Err(_) => r.debug.unwrap().info_command == debug.info_command,
        },
        match info {
            Err(e) => !r.daemon_running && !r.permission_ok && !r.ready && r.error == Some(e)
                && r.server_version.is_none(),
            Ok(v) => if v.status == 0 {
                r.daemon_running && r.permission_ok && r.ready && r.error.is_none() && (match r.server_version {
                    Some(s) => server_version_from(lines_seq(v.stdout@), 0) == Some(s@),
                    None => server_version_from(lines_seq(v.stdout@), 0).is_none(),
                })
            } else {
                let combined = trim_seq(combined_output(v.stdout@, v.stderr@));
                &&& !r.ready
                &&& r.server_version.is_none()
                &&& r.daemon_running == !daemon_down_spec(lower_of(combined))
                &&& r.permission_ok == !permission_denied_spec(lower_of(combined))
                &&& r.error.is_some()
                &&& r.error.unwrap()@ == if combined.len() == 0 {
                    "docker info failed (status "@ + signed_decimal(v.status as int) + ")"@
                } else {
                    combined
                }
            },
        },
{
    let mut debug = debug;
    match info {
        Err(e) => SandboxDoctorResult {
            installed: true,
            daemon_running: false,
            permission_ok: false,
            ready: false,
            client_version,
            server_version: None,
            error: Some(e),
            debug: Some(debug),
        },
        Ok(v) => {
            debug.info_command = Some(command_debug(&v));
            if v.status == 0 {
                let server_version = parse_docker_server_version(v.stdout.as_str());
                return SandboxDoctorResult {
                    installed: true,
                    daemon_running: true,
                    permission_ok: true,
                    ready: true,
                    client_version,
                    server_version,
                    error: None,
                    debug: Some(debug),
                };
            }
            let both = combine_output(v.stdout.as_str(), v.stderr.as_str());
            let combined = trim(both.as_str());
            let lowered = lowercase(combined);
            let (daemon_running, permission_ok) = classify_info_failure(lowered.as_str());
            let error = if combined.unicode_len() == 0 {
                String::from_str("docker info failed (status ").concat(
                    i32_to_decimal(v.status).as_str(),
                ).concat(")")
            } else {
                String::from_str(combined)
            };
            SandboxDoctorResult {
                installed: true,
                daemon_running,
                permission_ok,
                ready: false,
                client_version,
                server_version: None,
                error: Some(error),
                debug: Some(debug),
            }
        },
    }
}

/// Code-point order of character sequences, as `String`'s `Ord` orders them.
pub open spec fn text_lt(a: Seq<char>, b: Seq<char>) -> bool
    decreases a.len(),
{
    if a.len() == 0 {
        b.len() > 0
    } else if b.len() == 0 {
        false
    } else if a[0] != b[0] {
        (a[0] as int) < (b[0] as int)
    } else {
        text_lt(a.subrange(1, a.len() as int), b.subrange(1, b.len() as int))
    }
}

proof fn lemma_text_lt_total(a: Seq<char>, b: Seq<char>)
    ensures
        a == b || text_lt(a, b) || text_lt(b, a),
        !(text_lt(a, b) && text_lt(b, a)),
        !text_lt(a, a),
    decreases a.len(),
{
    if a.len() > 0 && b.len() > 0 {
        let ta = a.subrange(1, a.len() as int);
        let tb = b.subrange(1, b.len() as int);
        lemma_text_lt_total(ta, tb);
        lemma_text_lt_total(ta, ta);
        if a[0] == b[0] && ta == tb {
            assert(a =~= seq![a[0]] + ta);
            assert(b =~= seq![b[0]] + tb);
        }
        if a[0] != b[0] {
            assert((a[0] as int) != (b[0] as int));
        }
    } else if a.len() > 0 {
        lemma_text_lt_total(a.subrange(1, a.len() as int), a.subrange(1, a.len() as int));
    } else if b.len() == 0 {
        assert(a =~= b);
    }
}

/// Whether `a` orders before `b` by code points.
pub fn text_less(a: &str, b: &str) -> (r: bool)
    ensures
        r == text_lt(a@, b@),
{
    let na = a.unicode_len();
    let nb = b.unicode_len();
    let mut i: usize = 0;
    assert(a@.subrange(0, na as int) =~= a@);
    assert(b@.subrange(0, nb as int) =~= b@);
    while i < na && i < nb && a.get_char(i) == b.get_char(i)
        invariant
            na == a@.len(),
            nb == b@.len(),
            i <= na,
            i <= nb,
            text_lt(a@, b@) == text_lt(a@.subrange(i as int, na as int), b@.subrange(i as int, nb as int)),
        decreases na - i,
    {
        proof {
            let sa = a@.subrange(i as int, na as int);
            let sb = b@.subrange(i as int, nb as int);
            assert(sa.subrange(1, sa.len() as int) =~= a@.subrange(i + 1, na as int));
            assert(sb.subrange(1, sb.len() as int) =~= b@.subrange(i + 1, nb as int));
        }
        i = i + 1;
    }
    if i == na {
        i < nb
    } else if i == nb {
        false
    } else {
        (a.get_char(i) as u32) < (b.get_char(i) as u32)
    }
}

/// Strictly increasing by code-point order, hence free of duplicates.
pub open spec fn strictly_sorted(s: Seq<Seq<char>>) -> bool {
    forall|i: int, j: int| 0 <= i < j < s.len() ==> text_lt(#[trigger] s[i], #[trigger] s[j])
}

proof fn lemma_text_lt_transitive(a: Seq<char>, b: Seq<char>, c: Seq<char>)
    requires
        text_lt(a, b),
        text_lt(b, c),
    ensures
        text_lt(a, c),
    decreases a.len(),
{
    if a.len() > 0 && b.len() > 0 && c.len() > 0 && a[0] == b[0] && b[0] == c[0] {
        lemma_text_lt_transitive(
            a.subrange(1, a.len() as int),
            b.subrange(1, b.len() as int),
            c.subrange(1, c.len() as int),
        );
    }
}

/// The names in the listing that belong to this system: each line trimmed, empty lines
/// and foreign names dropped.
pub open spec fn managed_names_in(ls: Seq<Seq<char>>) -> Set<Seq<char>> {
    Set::new(
        |x: Seq<char>|
            exists|i: int|
                0 <= i < ls.len() && x == trim_seq(#[trigger] ls[i]) && x.len() > 0
                    && is_managed_spec(x),
    )
}

/// Inserts `x` into a strictly sorted list unless it is already there.
fn insert_sorted(v: &mut Vec<String>, x: &str)
    requires
        strictly_sorted(views(old(v)@)),
    ensures
        strictly_sorted(views(final(v)@)),
        views(final(v)@).to_set() == views(old(v)@).to_set().insert(x@),
{
    let ghost before = views(v@);
    let mut i: usize = 0;
    while i < v.len() && text_less(v[i].as_str(), x)
        invariant
            i <= v.len(),
            views(v@) == before,
            strictly_sorted(before),
            forall|k: int| 0 <= k < i ==> text_lt(#[trigger] before[k], x@),
        decreases v.len() - i,
    {
        i = i + 1;
    }
    if i < v.len() && str_eq(v[i].as_str(), x) {
        assert(before.to_set() =~= before.to_set().insert(x@)) by {
            assert(before[i as int] == x@);
        }
        return;
    }
    proof {
        if i < v.len() {
            lemma_text_lt_total(before[i as int], x@);
        }
    }
    v.insert(i, String::from_str(x));
    let ghost after = views(v@);
    assert(after =~= before.insert(i as int, x@));
    assert forall|a: int, b: int| 0 <= a < b < after.len() implies text_lt(
        #[trigger] after[a],
        #[trigger] after[b],
    ) by {
        if b < i {
        } else if b == i {
            assert(after[a] == before[a]);
        } else if a < i {
            assert(after[b] == before[b - 1]);
            if i < before.len() {
                if b - 1 > i {
                    assert(text_lt(before[i as int], before[b - 1]));
                    lemma_text_lt_transitive(x@, before[i as int], before[b - 1]);
                }
                lemma_text_lt_transitive(before[a], x@, before[b - 1]);
            }
        } else if a == i {
            assert(after[b] == before[b - 1]);
            if b - 1 > i {
                assert(text_lt(before[i as int], before[b - 1]));
                lemma_text_lt_transitive(x@, before[i as int], before[b - 1]);
            }
        } else {
            assert(after[a] == before[a - 1]);
            assert(after[b] == before[b - 1]);
        }
    }
    assert(after.to_set() =~= before.to_set().insert(x@)) by {
        assert forall|y: Seq<char>| after.to_set().contains(y) implies before.to_set().insert(
            x@,
        ).contains(y) by {
            let k = choose|k: int| 0 <= k < after.len() && after[k] == y;
            if k < i {
                assert(before[k] == y);
            } else if k > i {
                assert(before[k - 1] == y);
            }
        }
        assert forall|y: Seq<char>| before.to_set().insert(x@).contains(y) implies after.to_set().contains(
            y,
        ) by {
            if y == x@ {
                assert(after[i as int] == y);
            } else {
                let k = choose|k: int| 0 <= k < before.len() && before[k] == y;
                if k < i {
                    assert(after[k] == y);
                } else {
                    assert(after[k + 1] == y);
                }
            }
        }
    }
}

/// The containers of this system in `docker ps -a --format {{.Names}}` output, sorted and
/// without duplicates.
pub fn managed_container_names(stdout: &str) -> (r: Vec<String>)
    ensures
        strictly_sorted(views(r@)),
        views(r@).to_set() == managed_names_in(lines_seq(stdout@)),
{
    let all = lines(stdout);
    let ghost ls = views(all@);
    let mut names: Vec<String> = Vec::new();
    let mut i: usize = 0;
    assert(views(names@).to_set() =~= managed_names_in(ls.subrange(0, 0)));
    while i < all.len()
        invariant
            ls == views(all@),
            i <= all.len(),
            strictly_sorted(views(names@)),
            views(names@).to_set() == managed_names_in(ls.subrange(0, i as int)),
        decreases all.len() - i,
    {
        let name = trim(all[i].as_str());
        let ghost prev = ls.subrange(0, i as int);
        let ghost next = ls.subrange(0, i + 1);
        if name.unicode_len() > 0 && is_openwork_managed_container(name) {
            insert_sorted(&mut names, name);
            assert(managed_names_in(next) =~= managed_names_in(prev).insert(name@)) by {
                assert(next[i as int] == ls[i as int]);
                assert forall|x: Seq<char>| managed_names_in(next).contains(x) implies managed_names_in(
                    prev,
                ).insert(name@).contains(x) by {
                    let k = choose|k: int|
                        0 <= k < next.len() && x == trim_seq(#[trigger] next[k]) && x.len() > 0
                            && is_managed_spec(x);
                    if k < i {
                        assert(prev[k] == next[k]);
                    }
                }
                assert forall|x: Seq<char>| managed_names_in(prev).insert(name@).contains(
                    x,
                ) implies managed_names_in(next).contains(x) by {
                    if x != name@ {
                        let k = choose|k: int|
                            0 <= k < prev.len() && x == trim_seq(#[trigger] prev[k]) && x.len()
                                > 0 && is_managed_spec(x);
                        assert(next[k] == prev[k]);
                    } else {
                        assert(next[i as int] == ls[i as int]);
                    }
                }
            }
        } else {
            assert(managed_names_in(next) =~= managed_names_in(prev)) by {
                assert forall|x: Seq<char>| managed_names_in(next).contains(x) implies managed_names_in(
                    prev,
                ).contains(x) by {
                    let k = choose|k: int|
                        0 <= k < next.len() && x == trim_seq(#[trigger] next[k]) && x.len() > 0
                            && is_managed_spec(x);
                    if k < i {
                        assert(prev[k] == next[k]);
                    } else {
                        assert(next[k] == ls[i as int]);
                    }
                }
                assert forall|x: Seq<char>| managed_names_in(prev).contains(x) implies managed_names_in(
                    next,
                ).contains(x) by {
                    let k = choose|k: int|
                        0 <= k < prev.len() && x == trim_seq(#[trigger] prev[k]) && x.len() > 0
                            && is_managed_spec(x);
                    assert(next[k] == prev[k]);
                }
            }
        }
        i = i + 1;
    }
    assert(ls.subrange(0, all.len() as int) =~= ls);
    names
}

/// The failure of `docker ps -a` with a non-zero status.
pub open spec fn list_failure_spec(status: i32, stdout: Seq<char>, stderr: Seq<char>) -> Seq<char> {
    let combined = trim_seq(combined_output(stdout, stderr));
    if combined.len() == 0 {
        "docker ps -a failed (status "@ + signed_decimal(status as int) + ")"@
    } else {
        "docker ps -a failed (status "@ + signed_decimal(status as int) + "): "@ + combined
    }
}

/// The error of a container listing that returned a non-zero status.
pub fn list_failure_message(status: i32, stdout: &str, stderr: &str) -> (r: String)
    ensures
        r@ == list_failure_spec(status, stdout@, stderr@),
{
    let both = combine_output(stdout, stderr);
    let combined = trim(both.as_str());
    let head = String::from_str("docker ps -a failed (status ").concat(i32_to_decimal(status).as_str());
    if combined.unicode_len() == 0 {
        head.concat(")")
    } else {
        head.concat("): ").concat(combined)
    }
}

/// The outcome of removing this system's containers: each name either removed or with
/// its error.
pub struct OpenworkDockerCleanupResult {
    pub candidates: Vec<String>,
    pub removed: Vec<String>,
    pub errors: Vec<String>,
}

/// The error recorded for a removal that returned a non-zero status.
pub open spec fn removal_error_spec(name: Seq<char>, status: i32, stdout: Seq<char>, stderr: Seq<char>) -> Seq<char> {
    let combined = trim_seq(combined_output(stdout, stderr));
    name + ": exit "@ + signed_decimal(status as int) + if combined.len() == 0 {
        Seq::<char>::empty()
    } else {
        ": "@ + debug_text(combined)
    }
}

impl OpenworkDockerCleanupResult {
    /// A cleanup of `candidates` with nothing done yet.
    pub fn new(candidates: Vec<String>) -> (r: Self)
        ensures
            r.candidates == candidates,
            r.removed@.len() == 0,
            r.errors@.len() == 0,
    {
        OpenworkDockerCleanupResult { candidates, removed: Vec::new(), errors: Vec::new() }
    }

    /// Records the outcome of `docker rm -f <name>`: removed on status 0, otherwise an
    /// error naming the container; one failure does not stop the others.
    pub fn record_removal(&mut self, name: &str, outcome: Result<(i32, String, String), String>)
        ensures
            final(self).candidates == old(self).candidates,
            match outcome {
                Ok((status, out, err)) => if status == 0 {
                    views(final(self).removed@) == views(old(self).removed@).push(name@)
                        && final(self).errors@ == old(self).errors@
                } else {
                    final(self).removed@ == old(self).removed@ && views(final(self).errors@)
                        == views(old(self).errors@).push(
                        removal_error_spec(name@, status, out@, err@),
                    )
                },
                Err(e) => final(self).removed@ == old(self).removed@ && views(final(self).errors@)
                    == views(old(self).errors@).push(name@ + ": "@ + e@),
            },
    {
        let ghost removed0 = views(self.removed@);
        let ghost errors0 = views(self.errors@);
        match outcome {
            Ok((status, out, err)) => {
                if status == 0 {
                    self.removed.push(String::from_str(name));
                    assert(views(self.removed@) =~= removed0.push(name@));
                } else {
                    let both = combine_output(out.as_str(), err.as_str());
                    let combined = trim(both.as_str());
                    let mut detail = String::from_str(name).concat(": exit ").concat(
                        i32_to_decimal(status).as_str(),
                    );
                    let ghost head = detail@;
                    if combined.unicode_len() > 0 {
                        detail.append(": ");
                        detail.append(truncate_for_debug(combined).as_str());
                        assert(detail@ =~= head + (": "@ + debug_text(combined@)));
                    } else {
                        assert(detail@ =~= head + Seq::<char>::empty());
                    }
                    assert(detail@ =~= removal_error_spec(name@, status, out@, err@));
                    self.errors.push(detail);
                    assert(views(self.errors@) =~= errors0.push(
                        removal_error_spec(name@, status, out@, err@),
                    ));
                }
            },
            Err(e) => {
                self.errors.push(String::from_str(name).concat(": ").concat(e.as_str()));
                assert(views(self.errors@) =~= errors0.push(name@ + ": "@ + e@));
            },
        }
    }
}

/// Appends `x` to a list kept without repeats, unless it is already there.
fn push_unique(v: &mut Vec<String>, x: String)
    ensures
        views(final(v)@) == if views(old(v)@).contains(x@) {
            views(old(v)@)
        } else {
            views(old(v)@).push(x@)
        },
{
    if !holds(v, x.as_str()) {
        let ghost before = views(v@);
        v.push(x);
        assert(views(v@) =~= before.push(x@));
    }
}

/// Fixed places where the container tool is often installed.
pub open spec fn well_known_docker_paths() -> Seq<Seq<char>> {
    seq![
        "/opt/homebrew/bin/docker"@,
        "/usr/local/bin/docker"@,
        "/Applications/Docker.app/Contents/Resources/bin/docker"@,
    ]
}

/// The non-blank override values, trimmed, in order.
pub open spec fn override_paths(overrides: Seq<Option<String>>) -> Seq<Seq<char>>
    decreases overrides.len(),
{
    if overrides.len() == 0 {
        seq![]
    } else {
        override_paths(overrides.drop_last()) + match overrides.last() {
            Some(v) => if trim_seq(v@).len() == 0 {
                seq![]
            } else {
                seq![trim_seq(v@)]
            },
            None => seq![],
        }
    }
}

/// `docker` under each directory, in order.
pub open spec fn docker_in_dirs(dirs: Seq<Seq<char>>) -> Seq<Seq<char>>
    decreases dirs.len(),
{
    if dirs.len() == 0 {
        seq![]
    } else {
        docker_in_dirs(dirs.drop_last()).push(join_spec(dirs.last(), "docker"@))
    }
}

/// Where to look for the container tool, in order of preference and without repeats:
/// override variables, the inherited `PATH`, the login shell's `PATH`, fixed places.
pub open spec fn docker_candidates_spec(
    overrides: Seq<Option<String>>,
    path_dirs: Seq<Seq<char>>,
    login_path_dirs: Seq<Seq<char>>,
) -> Seq<Seq<char>> {
    dedup_first(
        override_paths(overrides) + docker_in_dirs(path_dirs) + docker_in_dirs(login_path_dirs)
            + well_known_docker_paths(),
    )
}

proof fn lemma_dedup_push(s: Seq<Seq<char>>, x: Seq<char>)
    ensures
        dedup_first(s.push(x)) == if dedup_first(s).contains(x) {
            dedup_first(s)
        } else {
            dedup_first(s).push(x)
        },
{
    assert(s.push(x).drop_last() =~= s);
}

/// Adds each string of `items` with [`push_unique`].
fn push_all_unique(v: &mut Vec<String>, items: Vec<String>, Ghost(prefix): Ghost<Seq<Seq<char>>>)
    requires
        views(old(v)@) == dedup_first(prefix),
    ensures
        views(final(v)@) == dedup_first(prefix + views(items@)),
{
    let mut i: usize = 0;
    assert(prefix + views(items@).subrange(0, 0) =~= prefix);
    while i < items.len()
        invariant
            i <= items.len(),
            views(v@) == dedup_first(prefix + views(items@).subrange(0, i as int)),
        decreases items.len() - i,
    {
        let ghost before = prefix + views(items@).subrange(0, i as int);
        assert(prefix + views(items@).subrange(0, i + 1) =~= before.push(items[i as int]@));
        proof {
            lemma_dedup_push(before, items[i as int]@);
        }
        push_unique(v, items[i].clone());
        i = i + 1;
    }
    assert(views(items@).subrange(0, items.len() as int) =~= views(items@));
}

fn docker_under(dirs: &[String]) -> (r: Vec<String>)
    ensures
        views(r@) == docker_in_dirs(views(dirs@)),
{
    let mut out: Vec<String> = Vec::new();
    let mut i: usize = 0;
    assert(views(dirs@).subrange(0, 0) =~= Seq::<Seq<char>>::empty());
    while i < dirs.len()
        invariant
            i <= dirs.len(),
            views(out@) == docker_in_dirs(views(dirs@).subrange(0, i as int)),
        decreases dirs.len() - i,
    {
        let ghost before = views(out@);
        assert(views(dirs@).subrange(0, i + 1).drop_last() =~= views(dirs@).subrange(0, i as int));
        out.push(join_path(dirs[i].as_str(), "docker"));
        assert(views(out@) =~= before.push(join_spec(dirs[i as int]@, "docker"@)));
        i = i + 1;
    }
    assert(views(dirs@).subrange(0, dirs.len() as int) =~= views(dirs@));
    out
}

/// The places to look for the container tool, before keeping only executable files:
/// the override variables' values (`None` when unset), `docker` under each directory of
/// the inherited `PATH`, then of the login shell's `PATH`, then fixed places; each place
/// once, at its first position.
pub fn docker_candidate_paths(
    overrides: &[Option<String>],
    path_dirs: &[String],
    login_path_dirs: &[String],
) -> (r: Vec<String>)
    ensures
        views(r@) == docker_candidates_spec(overrides@, views(path_dirs@), views(login_path_dirs@)),
{
    let mut firsts: Vec<String> = Vec::new();
    let mut i: usize = 0;
    assert(overrides@.subrange(0, 0) =~= Seq::<Option<String>>::empty());
    while i < overrides.len()
        invariant
            i <= overrides.len(),
            views(firsts@) == override_paths(overrides@.subrange(0, i as int)),
        decreases overrides.len() - i,
    {
        let ghost before = views(firsts@);
        assert(overrides@.subrange(0, i + 1).drop_last() =~= overrides@.subrange(0, i as int));
        if let Some(v) = &overrides[i] {
            let t = trim(v.as_str());
            if t.unicode_len() > 0 {
                firsts.push(String::from_str(t));
                assert(views(firsts@) =~= before + seq![t@]);
            } else {
                assert(views(firsts@) =~= before + Seq::<Seq<char>>::empty());
            }
        } else {
            assert(views(firsts@) =~= before + Seq::<Seq<char>>::empty());
        }
        i = i + 1;
    }
    assert(overrides@.subrange(0, overrides.len() as int) =~= overrides@);
    let mut fixed: Vec<String> = Vec::new();
    fixed.push(String::from_str("/opt/homebrew/bin/docker"));
    fixed.push(String::from_str("/usr/local/bin/docker"));
    fixed.push(String::from_str("/Applications/Docker.app/Contents/Resources/bin/docker"));
    assert(views(fixed@) =~= well_known_docker_paths());
    let mut out: Vec<String> = Vec::new();
    assert(dedup_first(Seq::<Seq<char>>::empty()) =~= views(out@));
    let ghost a = override_paths(overrides@);
    let ghost b = docker_in_dirs(views(path_dirs@));
    let ghost c = docker_in_dirs(views(login_path_dirs@));
    push_all_unique(&mut out, firsts, Ghost(Seq::<Seq<char>>::empty()));
    assert(Seq::<Seq<char>>::empty() + a =~= a);
    push_all_unique(&mut out, docker_under(path_dirs), Ghost(a));
    push_all_unique(&mut out, docker_under(login_path_dirs), Ghost(a + b));
    push_all_unique(&mut out, fixed, Ghost(a + b + c));
    out
}

/// The programs to try in turn: each candidate, then the bare command name.
pub fn docker_programs(candidates: &Vec<String>) -> (r: Vec<String>)
    ensures
        views(r@) == views(candidates@).push("docker"@),
{
    let mut out: Vec<String> = Vec::new();
    let mut i: usize = 0;
    while i < candidates.len()
        invariant
            i <= candidates.len(),
            views(out@) == views(candidates@).subrange(0, i as int),
        decreases candidates.len() - i,
    {
        let ghost before = views(out@);
        let c = candidates[i].clone();
        assert(c@ == views(candidates@)[i as int]);
        out.push(c);
        assert(views(out@) =~= before.push(views(candidates@)[i as int]));
        assert(views(candidates@).subrange(0, i + 1) =~= views(candidates@).subrange(0, i as int).push(
            views(candidates@)[i as int],
        ));
        i = i + 1;
    }
    assert(views(out@) =~= views(candidates@));
    out.push(String::from_str("docker"));
    assert(views(out@) =~= views(candidates@).push("docker"@));
    out
}

/// The error when no program could run the container tool: every attempt's error, and
/// how to point at the binary.
pub fn docker_failure_message(errors: &Vec<String>) -> (r: String)
    ensures
        r@ == "Failed to run docker: "@ + join_with(views(errors@), "; "@)
            + " (Set OPENWORK_DOCKER_BIN (or OPENWRK_DOCKER_BIN) to your docker binary, e.g. /opt/homebrew/bin/docker)"@,
{
    String::from_str("Failed to run docker: ").concat(join(errors, "; ").as_str()).concat(
        " (Set OPENWORK_DOCKER_BIN (or OPENWRK_DOCKER_BIN) to your docker binary, e.g. /opt/homebrew/bin/docker)",
    )
}

/// The first position at or after `from` where `c` stands in `s`.
pub open spec fn index_of(s: Seq<char>, c: char, from: int) -> Option<int>
    decreases s.len() - from,
{
    if from < 0 || from >= s.len() {
        None
    } else if s[from] == c {
        Some(from)
    } else {
        index_of(s, c, from + 1)
    }
}

fn find_char(s: &str, c: char) -> (r: Option<usize>)
    ensures
        match r {
            Some(i) => index_of(s@, c, 0) == Some(i as int) && i < s@.len(),
            None => index_of(s@, c, 0).is_none(),
        },
{
    let n = s.unicode_len();
    let mut i: usize = 0;
    while i < n
        invariant
            n == s@.len(),
            i <= n,
            index_of(s@, c, 0) == index_of(s@, c, i as int),
        decreases n - i,
    {
        if s.get_char(i) == c {
            return Some(i);
        }
        i = i + 1;
    }
    None
}

/// The quoted `PATH` value of `path_helper -s` output, from line `i` on: the first line
/// that, trimmed, starts with `PATH=` and a quote gives the text up to the matching
/// quote; a `PATH=` line with nothing after it ends the search.
pub open spec fn path_export_from(ls: Seq<Seq<char>>, i: int) -> Option<Seq<char>>
    decreases ls.len() - i,
{
    if i < 0 || i >= ls.len() {
        None
    } else {
        let t = trim_seq(ls[i]);
        let key = "PATH="@;
        if !is_prefix(key, t) {
            path_export_from(ls, i + 1)
        } else {
            let after = trim_seq(t.subrange(key.len() as int, t.len() as int));
            if after.len() == 0 {
                None
            } else if after[0] != '"' && after[0] != '\'' {
                path_export_from(ls, i + 1)
            } else {
                let rest = after.subrange(1, after.len() as int);
                match index_of(rest, after[0], 0) {
                    Some(e) => Some(rest.subrange(0, e)),
                    None => path_export_from(ls, i + 1),
                }
            }
        }
    }
}

/// Reads the `PATH` value that `path_helper -s` prints as a shell export.
pub fn parse_path_export_value(output: &str) -> (r: Option<String>)
    ensures
        match r {
            Some(v) => path_export_from(lines_seq(output@), 0) == Some(v@),
            None => path_export_from(lines_seq(output@), 0).is_none(),
        },
{
    let all = lines(output);
    let ghost ls = views(all@);
    let key = "PATH=";
    let key_len = key.unicode_len();
    let mut i: usize = 0;
    while i < all.len()
        invariant
            ls == views(all@),
            ls == lines_seq(output@),
            key@ == "PATH="@,
            key_len == key@.len(),
            i <= all.len(),
            path_export_from(ls, 0) == path_export_from(ls, i as int),
        decreases all.len() - i,
    {
        let t = trim(all[i].as_str());
        if starts_with(t, key) {
            let after = trim(t.substring_char(key_len, t.unicode_len()));
            let n = after.unicode_len();
            if n == 0 {
                return None;
            }
            let quote = after.get_char(0);
            if quote == '"' || quote == '\'' {
                let rest = after.substring_char(1, n);
                if let Some(end) = find_char(rest, quote) {
                    return Some(String::from_str(rest.substring_char(0, end)));
                }
            }
        }
        i = i + 1;
    }
    None
}

} // verus!
