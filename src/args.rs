//! Argument builders: the ordered command line of each subsystem, from its configuration.

use vstd::prelude::*;
use crate::number::{decimal, u64_to_decimal};
use crate::text::{is_blank, is_blank_seq, opt_view, text_view, trim, trim_seq, views};

verus! {

/// The engine's command line.
pub open spec fn engine_args(bind_host: Seq<char>, port: u16) -> Seq<Seq<char>> {
    seq![
        "serve"@,
        "--hostname"@,
        bind_host,
        "--port"@,
        decimal(port as nat),
        "--cors"@,
        "*"@,
    ]
}

/// `n` written in decimal, as a `String`.
pub fn port_text(n: u16) -> (r: String)
    ensures
        r@ == decimal(n as nat),
{
    u64_to_decimal(n as u64)
}

/// The engine's command line: serve on `bind_host:port`, accepting every origin.
pub fn build_engine_args(bind_host: &str, port: u16) -> (r: Vec<String>)
    ensures
        views(r@) == engine_args(bind_host@, port),
{
    let mut v: Vec<String> = Vec::new();
    v.push(String::from_str("serve"));
    v.push(String::from_str("--hostname"));
    v.push(String::from_str(bind_host));
    v.push(String::from_str("--port"));
    v.push(port_text(port));
    v.push(String::from_str("--cors"));
    v.push(String::from_str("*"));
    assert(views(v@) =~= engine_args(bind_host@, port));
    v
}

/// How many entries of `s` equal `x`.
pub open spec fn count_of(s: Seq<Seq<char>>, x: Seq<char>) -> nat
    decreases s.len(),
{
    if s.len() == 0 {
        0
    } else {
        count_of(s.drop_last(), x) + if s.last() == x {
            1nat
        } else {
            0nat
        }
    }
}

proof fn lemma_decimal_starts_with_digit(n: nat)
    ensures
        decimal(n).len() > 0,
        decimal(n)[0] != '-',
    decreases n,
{
    if n >= 10 {
        lemma_decimal_starts_with_digit(n / 10);
    }
}

/// An engine started on a port carries `--port` exactly once, followed by that port
/// in decimal, unless the host itself is spelled `--port`.
pub proof fn lemma_engine_args_single_port(bind_host: Seq<char>, port: u16)
    requires
        bind_host != "--port"@,
    ensures
        count_of(engine_args(bind_host, port), "--port"@) == 1,
        engine_args(bind_host, port)[3] == "--port"@,
        engine_args(bind_host, port)[4] == decimal(port as nat),
{
    reveal_strlit("--port");
    reveal_strlit("serve");
    reveal_strlit("--hostname");
    reveal_strlit("--cors");
    reveal_strlit("*");
    lemma_decimal_starts_with_digit(port as nat);
    let a = engine_args(bind_host, port);
    let p = "--port"@;
    assert("serve"@ != p) by {
        assert("serve"@.len() != p.len());
    }
    assert("--hostname"@ != p) by {
        assert("--hostname"@.len() != p.len());
    }
    assert("--cors"@ != p) by {
        assert("--cors"@[2] != p[2]);
    }
    assert("*"@ != p) by {
        assert("*"@.len() != p.len());
    }
    assert(decimal(port as nat) != p) by {
        assert(decimal(port as nat)[0] != p[0]);
    }
    assert(a.subrange(0, 0).len() == 0);
    assert(a.subrange(0, 1).drop_last() =~= a.subrange(0, 0));
    assert(a.subrange(0, 2).drop_last() =~= a.subrange(0, 1));
    assert(a.subrange(0, 3).drop_last() =~= a.subrange(0, 2));
    assert(a.subrange(0, 4).drop_last() =~= a.subrange(0, 3));
    assert(a.subrange(0, 5).drop_last() =~= a.subrange(0, 4));
    assert(a.subrange(0, 6).drop_last() =~= a.subrange(0, 5));
    assert(a.drop_last() =~= a.subrange(0, 6));
    assert(count_of(a.subrange(0, 0), p) == 0);
    assert(count_of(a.subrange(0, 1), p) == 0);
    assert(count_of(a.subrange(0, 2), p) == 0);
    assert(count_of(a.subrange(0, 3), p) == 0);
    assert(count_of(a.subrange(0, 4), p) == 1);
    assert(count_of(a.subrange(0, 5), p) == 1);
    assert(count_of(a.subrange(0, 6), p) == 1);
}

/// The relay server's `--workspace` flags: one pair per non-blank path, in order.
pub open spec fn workspace_flags(paths: Seq<Seq<char>>) -> Seq<Seq<char>>
    decreases paths.len(),
{
    if paths.len() == 0 {
        seq![]
    } else if is_blank_seq(paths.last()) {
        workspace_flags(paths.drop_last())
    } else {
        workspace_flags(paths.drop_last()) + seq!["--workspace"@, paths.last()]
    }
}

/// A flag followed by its value, when the value is present and not blank.
pub open spec fn optional_flag(flag: Seq<char>, value: Option<Seq<char>>) -> Seq<Seq<char>> {
    match value {
        Some(v) => if is_blank_seq(v) {
            seq![]
        } else {
            seq![flag, v]
        },
        None => seq![],
    }
}

/// The relay server's command line.
pub open spec fn openwork_args(
    host: Seq<char>,
    port: u16,
    paths: Seq<Seq<char>>,
    token: Seq<char>,
    host_token: Seq<char>,
    base_url: Option<Seq<char>>,
    directory: Option<Seq<char>>,
) -> Seq<Seq<char>> {
    seq![
        "--host"@,
        host,
        "--port"@,
        decimal(port as nat),
        "--token"@,
        token,
        "--host-token"@,
        host_token,
        "--cors"@,
        "*"@,
        "--approval"@,
        "auto"@,
    ] + workspace_flags(paths) + optional_flag("--opencode-base-url"@, base_url) + optional_flag(
        "--opencode-directory"@,
        directory,
    )
}

/// Appends `flag` and `value` when the value is present and not blank.
fn push_optional_flag(args: &mut Vec<String>, flag: &str, value: Option<&str>)
    ensures
        views(final(args)@) == views(old(args)@) + optional_flag(flag@, opt_view(value)),
{
    let ghost before = views(args@);
    if let Some(v) = value {
        if !is_blank(v) {
            args.push(String::from_str(flag));
            args.push(String::from_str(v));
            assert(views(args@) =~= before + optional_flag(flag@, opt_view(value)));
            return;
        }
    }
    assert(views(args@) =~= before + optional_flag(flag@, opt_view(value)));
}

/// The relay server's command line: bind address, tokens, every origin, automatic
/// approval, one `--workspace` per non-blank path, then the engine's URL and directory
/// when given and not blank.
pub fn build_openwork_args(
    host: &str,
    port: u16,
    workspace_paths: &[String],
    token: &str,
    host_token: &str,
    opencode_base_url: Option<&str>,
    opencode_directory: Option<&str>,
) -> (r: Vec<String>)
    ensures
        views(r@) == openwork_args(
            host@,
            port,
            views(workspace_paths@),
            token@,
            host_token@,
            opt_view(opencode_base_url),
            opt_view(opencode_directory),
        ),
{
    let mut args: Vec<String> = Vec::new();
    args.push(String::from_str("--host"));
    args.push(String::from_str(host));
    args.push(String::from_str("--port"));
    args.push(port_text(port));
    args.push(String::from_str("--token"));
    args.push(String::from_str(token));
    args.push(String::from_str("--host-token"));
    args.push(String::from_str(host_token));
    args.push(String::from_str("--cors"));
    args.push(String::from_str("*"));
    args.push(String::from_str("--approval"));
    args.push(String::from_str("auto"));
    let ghost head = views(args@);
    let ghost paths = views(workspace_paths@);
    assert(paths.subrange(0, 0) =~= Seq::<Seq<char>>::empty());
    assert(views(args@) =~= head + workspace_flags(paths.subrange(0, 0)));
    let mut i: usize = 0;
    while i < workspace_paths.len()
        invariant
            i <= workspace_paths.len(),
            paths == views(workspace_paths@),
            views(args@) == head + workspace_flags(paths.subrange(0, i as int)),
        decreases workspace_paths.len() - i,
    {
        let p = workspace_paths[i].as_str();
        assert(paths.subrange(0, i + 1).drop_last() =~= paths.subrange(0, i as int));
        assert(paths.subrange(0, i + 1).last() == p@);
        if !is_blank(p) {
            let ghost before = views(args@);
            assert(workspace_flags(paths.subrange(0, i + 1)) == workspace_flags(
                paths.subrange(0, i as int),
            ) + seq!["--workspace"@, p@]);
            args.push(String::from_str("--workspace"));
            args.push(String::from_str(p));
            assert(views(args@) =~= before + seq!["--workspace"@, p@]);
        }
        i = i + 1;
    }
    assert(paths.subrange(0, workspace_paths.len() as int) =~= paths);
    push_optional_flag(&mut args, "--opencode-base-url", opencode_base_url);
    push_optional_flag(&mut args, "--opencode-directory", opencode_directory);
    assert(views(args@) =~= openwork_args(
        host@,
        port,
        paths,
        token@,
        host_token@,
        opt_view(opencode_base_url),
        opt_view(opencode_directory),
    ));
    args
}

/// The bridge's command line.
pub open spec fn router_args(workspace_path: Seq<char>, opencode_url: Option<Seq<char>>) -> Seq<
    Seq<char>,
> {
    seq!["serve"@, workspace_path] + match opencode_url {
        Some(u) => if trim_seq(u).len() == 0 {
            seq![]
        } else {
            seq!["--opencode-url"@, trim_seq(u)]
        },
        None => seq![],
    }
}

/// The bridge's command line: serve the workspace, pointing at the engine's URL (trimmed)
/// when one is given and not blank.
pub fn build_opencode_router_args(workspace_path: &str, opencode_url: Option<&str>) -> (r: Vec<
    String,
>)
    ensures
        views(r@) == router_args(workspace_path@, opt_view(opencode_url)),
{
    let mut args: Vec<String> = Vec::new();
    args.push(String::from_str("serve"));
    args.push(String::from_str(workspace_path));
    if let Some(url) = opencode_url {
        let trimmed = trim(url);
        if trimmed.unicode_len() > 0 {
            args.push(String::from_str("--opencode-url"));
            args.push(String::from_str(trimmed));
        }
    }
    assert(views(args@) =~= router_args(workspace_path@, opt_view(opencode_url)));
    args
}

/// How the orchestration daemon is to be started.
pub struct OrchestratorSpawnOptions {
    pub data_dir: String,
    pub daemon_host: String,
    pub daemon_port: u16,
    pub opencode_bin: String,
    pub opencode_host: String,
    pub opencode_workdir: String,
    pub opencode_port: Option<u16>,
    pub opencode_username: Option<String>,
    pub opencode_password: Option<String>,
    pub cors: Option<String>,
}

/// The daemon's command line.
pub open spec fn daemon_args(o: OrchestratorSpawnOptions) -> Seq<Seq<char>> {
    seq![
        "daemon"@,
        "run"@,
        "--data-dir"@,
        o.data_dir@,
        "--daemon-host"@,
        o.daemon_host@,
        "--daemon-port"@,
        decimal(o.daemon_port as nat),
        "--opencode-bin"@,
        o.opencode_bin@,
        "--opencode-host"@,
        o.opencode_host@,
        "--opencode-workdir"@,
        o.opencode_workdir@,
        "--allow-external"@,
    ] + match o.opencode_port {
        Some(p) => seq!["--opencode-port"@, decimal(p as nat)],
        None => seq![],
    } + optional_flag("--opencode-username"@, text_view(o.opencode_username)) + optional_flag(
        "--opencode-password"@,
        text_view(o.opencode_password),
    ) + optional_flag("--cors"@, text_view(o.cors))
}

fn as_opt_str(o: &Option<String>) -> (r: Option<&str>)
    ensures
        opt_view(r) == text_view(*o),
{
    match o {
        Some(s) => Some(s.as_str()),
        None => None,
    }
}

/// The daemon's command line: its data directory and address, then how it is to run the
/// engine; port, credentials and allowed origins only when given (and not blank).
pub fn build_orchestrator_daemon_args(options: &OrchestratorSpawnOptions) -> (r: Vec<String>)
    ensures
        views(r@) == daemon_args(*options),
{
    let mut args: Vec<String> = Vec::new();
    args.push(String::from_str("daemon"));
    args.push(String::from_str("run"));
    args.push(String::from_str("--data-dir"));
    args.push(options.data_dir.clone());
    args.push(String::from_str("--daemon-host"));
    args.push(options.daemon_host.clone());
    args.push(String::from_str("--daemon-port"));
    args.push(port_text(options.daemon_port));
    args.push(String::from_str("--opencode-bin"));
    args.push(options.opencode_bin.clone());
    args.push(String::from_str("--opencode-host"));
    args.push(options.opencode_host.clone());
    args.push(String::from_str("--opencode-workdir"));
    args.push(options.opencode_workdir.clone());
    args.push(String::from_str("--allow-external"));
    if let Some(port) = options.opencode_port {
        args.push(String::from_str("--opencode-port"));
        args.push(port_text(port));
    }
    push_optional_flag(&mut args, "--opencode-username", as_opt_str(&options.opencode_username));
    push_optional_flag(&mut args, "--opencode-password", as_opt_str(&options.opencode_password));
    push_optional_flag(&mut args, "--cors", as_opt_str(&options.cors));
    assert(views(args@) =~= daemon_args(*options));
    args
}

/// The command line of a detached sandbox host.
pub open spec fn detached_args(
    workspace_path: Seq<char>,
    port: u16,
    token: Seq<char>,
    host_token: Seq<char>,
    run_id: Seq<char>,
    wants_docker: bool,
) -> Seq<Seq<char>> {
    seq![
        "start"@,
        "--workspace"@,
        workspace_path,
        "--approval"@,
        "auto"@,
        "--no-opencode-auth"@,
        "--opencode-router"@,
        "true"@,
        "--detach"@,
        "--openwork-host"@,
        "0.0.0.0"@,
        "--openwork-port"@,
        decimal(port as nat),
        "--openwork-token"@,
        token,
        "--openwork-host-token"@,
        host_token,
        "--run-id"@,
        run_id,
    ] + if wants_docker {
        seq!["--sandbox"@, "docker"@]
    } else {
        seq![]
    }
}

/// The command line of a detached sandbox host: the full stack for one workspace on an
/// explicit port with explicit tokens, in a container when asked.
pub fn build_detached_args(
    workspace_path: &str,
    port: u16,
    token: &str,
    host_token: &str,
    run_id: &str,
    wants_docker: bool,
) -> (r: Vec<String>)
    ensures
        views(r@) == detached_args(workspace_path@, port, token@, host_token@, run_id@, wants_docker),
{
    let mut args: Vec<String> = Vec::new();
    args.push(String::from_str("start"));
    args.push(String::from_str("--workspace"));
    args.push(String::from_str(workspace_path));
    args.push(String::from_str("--approval"));
    args.push(String::from_str("auto"));
    args.push(String::from_str("--no-opencode-auth"));
    args.push(String::from_str("--opencode-router"));
    args.push(String::from_str("true"));
    args.push(String::from_str("--detach"));
    args.push(String::from_str("--openwork-host"));
    args.push(String::from_str("0.0.0.0"));
    args.push(String::from_str("--openwork-port"));
    args.push(port_text(port));
    args.push(String::from_str("--openwork-token"));
    args.push(String::from_str(token));
    args.push(String::from_str("--openwork-host-token"));
    args.push(String::from_str(host_token));
    args.push(String::from_str("--run-id"));
    args.push(String::from_str(run_id));
    if wants_docker {
        args.push(String::from_str("--sandbox"));
        args.push(String::from_str("docker"));
    }
    assert(views(args@) =~= detached_args(
        workspace_path@,
        port,
        token@,
        host_token@,
        run_id@,
        wants_docker,
    ));
    args
}

/// One environment variable and its value.
pub open spec fn env_view(p: (String, String)) -> (Seq<char>, Seq<char>) {
    (p.0@, p.1@)
}

pub open spec fn env_views(v: Seq<(String, String)>) -> Seq<(Seq<char>, Seq<char>)> {
    v.map_values(|p: (String, String)| env_view(p))
}

/// Credentials handed to a child through its environment, each only when present and
/// not blank.
pub open spec fn credential_pairs(
    user_key: Seq<char>,
    pass_key: Seq<char>,
    username: Option<Seq<char>>,
    password: Option<Seq<char>>,
) -> Seq<(Seq<char>, Seq<char>)> {
    (match username {
        Some(u) => if is_blank_seq(u) {
            Seq::<(Seq<char>, Seq<char>)>::empty()
        } else {
            seq![(user_key, u)]
        },
        None => Seq::<(Seq<char>, Seq<char>)>::empty(),
    }) + (match password {
        Some(p) => if is_blank_seq(p) {
            Seq::<(Seq<char>, Seq<char>)>::empty()
        } else {
            seq![(pass_key, p)]
        },
        None => Seq::<(Seq<char>, Seq<char>)>::empty(),
    })
}

/// Appends the credential variables to `env`.
pub fn push_credentials(
    env: &mut Vec<(String, String)>,
    user_key: &str,
    pass_key: &str,
    username: Option<&str>,
    password: Option<&str>,
)
    ensures
        env_views(final(env)@) == env_views(old(env)@) + credential_pairs(
            user_key@,
            pass_key@,
            opt_view(username),
            opt_view(password),
        ),
{
    let ghost start = env_views(env@);
    if let Some(u) = username {
        if !is_blank(u) {
            env.push((String::from_str(user_key), String::from_str(u)));
        }
    }
    let ghost mid = env_views(env@);
    assert(mid =~= start + match opt_view(username) {
        Some(u) => if is_blank_seq(u) {
            Seq::<(Seq<char>, Seq<char>)>::empty()
        } else {
            seq![(user_key@, u)]
        },
        None => Seq::<(Seq<char>, Seq<char>)>::empty(),
    });
    if let Some(p) = password {
        if !is_blank(p) {
            env.push((String::from_str(pass_key), String::from_str(p)));
        }
    }
    assert(env_views(env@) =~= start + credential_pairs(
        user_key@,
        pass_key@,
        opt_view(username),
        opt_view(password),
    ));
}

/// The engine's own environment: it is told who launched it, then gets its credentials.
pub fn engine_env(username: Option<&str>, password: Option<&str>) -> (r: Vec<(String, String)>)
    ensures
        env_views(r@) == seq![("OPENCODE_CLIENT"@, "openwork"@), ("OPENWORK"@, "1"@)]
            + credential_pairs(
            "OPENCODE_SERVER_USERNAME"@,
            "OPENCODE_SERVER_PASSWORD"@,
            opt_view(username),
            opt_view(password),
        ),
{
    let mut env: Vec<(String, String)> = Vec::new();
    env.push((String::from_str("OPENCODE_CLIENT"), String::from_str("openwork")));
    env.push((String::from_str("OPENWORK"), String::from_str("1")));
    assert(env_views(env@) =~= seq![("OPENCODE_CLIENT"@, "openwork"@), ("OPENWORK"@, "1"@)]);
    push_credentials(&mut env, "OPENCODE_SERVER_USERNAME", "OPENCODE_SERVER_PASSWORD", username, password);
    env
}

/// The relay server's environment: the engine's credentials under its own names.
pub fn relay_env(username: Option<&str>, password: Option<&str>) -> (r: Vec<(String, String)>)
    ensures
        env_views(r@) == credential_pairs(
            "DOWHAT_OPENCODE_USERNAME"@,
            "DOWHAT_OPENCODE_PASSWORD"@,
            opt_view(username),
            opt_view(password),
        ),
{
    let mut env: Vec<(String, String)> = Vec::new();
    assert(env_views(env@) =~= Seq::<(Seq<char>, Seq<char>)>::empty());
    push_credentials(&mut env, "DOWHAT_OPENCODE_USERNAME", "DOWHAT_OPENCODE_PASSWORD", username, password);
    assert(env_views(env@) =~= Seq::<(Seq<char>, Seq<char>)>::empty() + credential_pairs(
        "DOWHAT_OPENCODE_USERNAME"@,
        "DOWHAT_OPENCODE_PASSWORD"@,
        opt_view(username),
        opt_view(password),
    ));
    env
}

/// The bridge's environment: its health port, then the engine's credentials.
pub fn router_env(health_port: u16, username: Option<&str>, password: Option<&str>) -> (r: Vec<(String, String)>)
    ensures
        env_views(r@) == seq![("OPENCODE_ROUTER_HEALTH_PORT"@, decimal(health_port as nat))]
            + credential_pairs(
            "OPENCODE_SERVER_USERNAME"@,
            "OPENCODE_SERVER_PASSWORD"@,
            opt_view(username),
            opt_view(password),
        ),
{
    let mut env: Vec<(String, String)> = Vec::new();
    env.push((String::from_str("OPENCODE_ROUTER_HEALTH_PORT"), port_text(health_port)));
    assert(env_views(env@) =~= seq![("OPENCODE_ROUTER_HEALTH_PORT"@, decimal(health_port as nat))]);
    push_credentials(&mut env, "OPENCODE_SERVER_USERNAME", "OPENCODE_SERVER_PASSWORD", username, password);
    env
}

/// The address the engine binds: a configured one unless blank, else every interface.
pub fn engine_bind_host(configured: Option<&str>) -> (r: String)
    ensures
        r@ == match configured {
            Some(h) => if is_blank_seq(h@) {
                "0.0.0.0"@
            } else {
                h@
            },
            None => "0.0.0.0"@,
        },
{
    match configured {
        Some(h) => if is_blank(h) {
            String::from_str("0.0.0.0")
        } else {
            String::from_str(h)
        },
        None => String::from_str("0.0.0.0"),
    }
}

} // verus!
