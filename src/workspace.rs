//! Small workspace-side helpers the supervisor relies on: the engine's executable name,
//! its configuration file, command names, plugin lists and the workspace config record.

use vstd::prelude::*;
use crate::paths::add_missing;
use crate::text::{holds, join_path, join_spec, opt_view, str_eq, trim, trim_seq, views};

verus! {

/// The engine's executable file name.
pub fn opencode_executable_name() -> (r: &'static str)
    ensures
        r@ == "opencode"@,
{
    "opencode"
}

/// `s` without its leading slashes.
pub open spec fn strip_leading_slashes(s: Seq<char>) -> Seq<char>
    decreases s.len(),
{
    if s.len() > 0 && s[0] == '/' {
        strip_leading_slashes(s.subrange(1, s.len() as int))
    } else {
        s
    }
}

/// A character a command name keeps.
pub open spec fn command_char(c: char) -> bool {
    ('a' <= c && c <= 'z') || ('A' <= c && c <= 'Z') || ('0' <= c && c <= '9') || c == '_' || c
        == '-'
}

/// The characters of `s` that a command name keeps, in order.
pub open spec fn command_chars(s: Seq<char>) -> Seq<char>
    decreases s.len(),
{
    if s.len() == 0 {
        seq![]
    } else if command_char(s.last()) {
        command_chars(s.drop_last()).push(s.last())
    } else {
        command_chars(s.drop_last())
    }
}

/// A command name: trimmed, leading slashes dropped, only ASCII letters, digits, `_` and
/// `-` kept; none when nothing is left.
pub open spec fn command_name_spec(raw: Seq<char>) -> Option<Seq<char>> {
    let kept = command_chars(strip_leading_slashes(trim_seq(raw)));
    if kept.len() == 0 {
        None
    } else {
        Some(kept)
    }
}

/// Normalises a command name.
pub fn sanitize_command_name(raw: &str) -> (r: Option<String>)
    ensures
        match r {
            Some(s) => command_name_spec(raw@) == Some(s@),
            None => command_name_spec(raw@).is_none(),
        },
{
    let t = trim(raw);
    let n = t.unicode_len();
    let mut start: usize = 0;
    assert(t@.subrange(0, n as int) =~= t@);
    while start < n && t.get_char(start) == '/'
        invariant
            n == t@.len(),
            start <= n,
            strip_leading_slashes(t@) == strip_leading_slashes(t@.subrange(start as int, n as int)),
        decreases n - start,
    {
        let ghost rest = t@.subrange(start as int, n as int);
        assert(rest.subrange(1, rest.len() as int) =~= t@.subrange(start + 1, n as int));
        start = start + 1;
    }
    let ghost body = t@.subrange(start as int, n as int);
    assert(strip_leading_slashes(body) == body);
    let mut out = String::new();
    let mut i: usize = start;
    assert(t@.subrange(start as int, start as int) =~= Seq::<char>::empty());
    while i < n
        invariant
            n == t@.len(),
            start <= i <= n,
            body == t@.subrange(start as int, n as int),
            out@ == command_chars(t@.subrange(start as int, i as int)),
        decreases n - i,
    {
        let c = t.get_char(i);
        let ghost prev = t@.subrange(start as int, i as int);
        assert(t@.subrange(start as int, i + 1) =~= prev.push(c));
        assert(prev.push(c).drop_last() =~= prev);
        if ('a' <= c && c <= 'z') || ('A' <= c && c <= 'Z') || ('0' <= c && c <= '9') || c == '_'
            || c == '-' {
            out.append(t.substring_char(i, i + 1));
            assert(t@.subrange(i as int, i + 1) =~= seq![c]);
        }
        i = i + 1;
    }
    if out.as_str().unicode_len() == 0 {
        None
    } else {
        Some(out)
    }
}

/// Adds each required plugin that the list does not hold yet, in order.
pub fn merge_plugins(existing: Vec<String>, required: &[&str]) -> (r: Vec<String>)
    ensures
        views(r@) == add_missing(views(existing@), required@.map_values(|p: &str| p@)),
{
    let mut out = existing;
    let ghost base = views(out@);
    let ghost req = required@.map_values(|p: &str| p@);
    let mut i: usize = 0;
    assert(req.subrange(0, 0) =~= Seq::<Seq<char>>::empty());
    while i < required.len()
        invariant
            i <= required.len(),
            req == required@.map_values(|p: &str| p@),
            views(out@) == add_missing(base, req.subrange(0, i as int)),
        decreases required.len() - i,
    {
        assert(req.subrange(0, i + 1).drop_last() =~= req.subrange(0, i as int));
        let p = required[i];
        if !holds(&out, p) {
            let ghost before = views(out@);
            out.push(String::from_str(p));
            assert(views(out@) =~= before.push(p@));
        }
        i = i + 1;
    }
    assert(req.subrange(0, required.len() as int) =~= req);
    out
}

/// Where a configuration scope's files may be: `opencode.jsonc` then `opencode.json`.
pub open spec fn config_candidates_spec(
    scope: Seq<char>,
    project_dir: Seq<char>,
    xdg_config_home: Option<Seq<char>>,
    home: Option<Seq<char>>,
) -> Result<(Seq<char>, Seq<char>), Seq<char>> {
    if scope == "project"@ {
        if trim_seq(project_dir).len() == 0 {
            Err("projectDir is required"@)
        } else {
            Ok((join_spec(project_dir, "opencode.jsonc"@), join_spec(project_dir, "opencode.json"@)))
        }
    } else if scope == "global"@ {
        match xdg_config_home {
            Some(x) => {
                let root = join_spec(x, "opencode"@);
                Ok((join_spec(root, "opencode.jsonc"@), join_spec(root, "opencode.json"@)))
            },
            None => match home {
                Some(h) => {
                    let root = join_spec(join_spec(h, ".config"@), "opencode"@);
                    Ok((join_spec(root, "opencode.jsonc"@), join_spec(root, "opencode.json"@)))
                },
                None => Err("Unable to resolve config directory"@),
            },
        }
    } else {
        Err("scope must be 'project' or 'global'"@)
    }
}

/// The two candidate configuration files of a scope, given the values of
/// `XDG_CONFIG_HOME` and `HOME` (`None` when unset).
pub fn opencode_config_candidates(
    scope: &str,
    project_dir: &str,
    xdg_config_home: Option<&str>,
    home: Option<&str>,
) -> (r: Result<(String, String), String>)
    ensures
        match r {
            Ok((a, b)) => config_candidates_spec(scope@, project_dir@, opt_view(xdg_config_home), opt_view(home))
                == Ok::<(Seq<char>, Seq<char>), Seq<char>>((a@, b@)),
            Err(e) => config_candidates_spec(scope@, project_dir@, opt_view(xdg_config_home), opt_view(home))
                == Err::<(Seq<char>, Seq<char>), Seq<char>>(e@),
        },
{
    if str_eq(scope, "project") {
        if trim(project_dir).unicode_len() == 0 {
            return Err(String::from_str("projectDir is required"));
        }
        return Ok((join_path(project_dir, "opencode.jsonc"), join_path(project_dir, "opencode.json")));
    }
    if str_eq(scope, "global") {
        let root = match xdg_config_home {
            Some(x) => join_path(x, "opencode"),
            None => match home {
                Some(h) => join_path(join_path(h, ".config").as_str(), "opencode"),
                None => return Err(String::from_str("Unable to resolve config directory")),
            },
        };
        return Ok((join_path(root.as_str(), "opencode.jsonc"), join_path(root.as_str(), "opencode.json")));
    }
    Err(String::from_str("scope must be 'project' or 'global'"))
}

/// The configuration file to use: the `.jsonc` one if it exists, else the `.json` one if
/// it exists, else the `.jsonc` one.
pub fn resolve_opencode_config_path(candidates: (String, String), jsonc_exists: bool, json_exists: bool) -> (r: String)
    ensures
        r == if !jsonc_exists && json_exists {
            candidates.1
        } else {
            candidates.0
        },
{
    let (jsonc, json) = candidates;
    if jsonc_exists {
        jsonc
    } else if json_exists {
        json
    } else {
        jsonc
    }
}

/// A configuration file as read.
pub struct OpencodeConfigFile {
    pub path: String,
    pub exists: bool,
    pub content: Option<String>,
}

/// Reload preferences of a workspace.
pub struct WorkspaceDoWhatReload {
    pub auto: Option<bool>,
    pub resume: Option<bool>,
}

/// A workspace's own description.
pub struct WorkspaceDoWhatWorkspace {
    pub name: Option<String>,
    pub created_at: Option<u64>,
    pub preset: Option<String>,
}

/// The configuration record kept in a workspace.
pub struct WorkspaceDoWhatConfig {
    pub version: u32,
    pub workspace: Option<WorkspaceDoWhatWorkspace>,
    pub authorized_roots: Vec<String>,
    pub reload: Option<WorkspaceDoWhatReload>,
}

/// The path's segments, without empty and `.` ones.
pub open spec fn segments(s: Seq<char>) -> Seq<Seq<char>>
    decreases s.len(),
{
    if s.len() == 0 {
        seq![]
    } else {
        let prev = segments_state(s).0;
        let cur = segments_state(s).1;
        if cur.len() == 0 || cur == "."@ {
            prev
        } else {
            prev.push(cur)
        }
    }
}

/// Segments finished so far, and the one in progress.
pub open spec fn segments_state(s: Seq<char>) -> (Seq<Seq<char>>, Seq<char>)
    decreases s.len(),
{
    if s.len() == 0 {
        (seq![], seq![])
    } else {
        let p = segments_state(s.drop_last());
        if s.last() == '/' {
            if p.1.len() == 0 || p.1 == "."@ {
                (p.0, seq![])
            } else {
                (p.0.push(p.1), seq![])
            }
        } else {
            (p.0, p.1.push(s.last()))
        }
    }
}

/// The last segment of a path, as `Path::file_name` gives it: none when there is no
/// segment or the last one is `..`.
pub open spec fn file_name_spec(path: Seq<char>) -> Option<Seq<char>> {
    let segs = segments(path);
    if segs.len() == 0 || segs.last() == ".."@ {
        None
    } else {
        Some(segs.last())
    }
}

fn is_dot(s: &String) -> (r: bool)
    ensures
        r == (s@ == "."@),
{
    str_eq(s.as_str(), ".")
}

/// The file name of a path.
pub fn file_name(path: &str) -> (r: Option<String>)
    ensures
        match r {
            Some(s) => file_name_spec(path@) == Some(s@),
            None => file_name_spec(path@).is_none(),
        },
{
    let n = path.unicode_len();
    let mut segs: Vec<String> = Vec::new();
    let mut cur = String::new();
    let mut i: usize = 0;
    assert(path@.subrange(0, 0) =~= Seq::<char>::empty());
    while i < n
        invariant
            n == path@.len(),
            i <= n,
            (views(segs@), cur@) == segments_state(path@.subrange(0, i as int)),
        decreases n - i,
    {
        let c = path.get_char(i);
        let ghost before = path@.subrange(0, i as int);
        assert(path@.subrange(0, i + 1).drop_last() =~= before);
        assert(path@.subrange(0, i + 1).last() == c);
        if c == '/' {
            if cur.as_str().unicode_len() == 0 || is_dot(&cur) {
                cur = String::new();
            } else {
                let ghost prev = views(segs@);
                segs.push(cur);
                assert(views(segs@) =~= prev.push(segments_state(before).1));
                cur = String::new();
            }
        } else {
            cur.append(path.substring_char(i, i + 1));
            assert(path@.subrange(i as int, i + 1) =~= seq![c]);
        }
        i = i + 1;
    }
    assert(path@.subrange(0, n as int) =~= path@);
    if !(cur.as_str().unicode_len() == 0 || is_dot(&cur)) {
        let ghost prev = views(segs@);
        segs.push(cur);
        assert(views(segs@) =~= prev.push(segments_state(path@).1));
    }
    assert(views(segs@) == segments(path@));
    let k = segs.len();
    if k == 0 {
        return None;
    }
    let last = segs[k - 1].clone();
    assert(last@ == segments(path@).last());
    if str_eq(last.as_str(), "..") {
        None
    } else {
        Some(last)
    }
}

impl WorkspaceDoWhatConfig {
    /// A new workspace's record: named after the path's last segment (`Workspace` when it
    /// has none), created now with `preset`, its only authorised root the path itself.
    pub fn new(workspace_path: &str, preset: &str, now_ms: u64) -> (r: Self)
        ensures
            r.version == 1,
            r.reload.is_none(),
            views(r.authorized_roots@) == seq![workspace_path@],
            r.workspace.is_some(),
            r.workspace.unwrap().created_at == Some(now_ms),
            r.workspace.unwrap().preset.is_some() && r.workspace.unwrap().preset.unwrap()@ == preset@,
            r.workspace.unwrap().name.is_some() && r.workspace.unwrap().name.unwrap()@ == match file_name_spec(workspace_path@) {
                Some(n) => n,
                None => "Workspace"@,
            },
    {
        let name = match file_name(workspace_path) {
            Some(n) => n,
            None => String::from_str("Workspace"),
        };
        let mut roots: Vec<String> = Vec::new();
        roots.push(String::from_str(workspace_path));
        assert(views(roots@) =~= seq![workspace_path@]);
        WorkspaceDoWhatConfig {
            version: 1,
            workspace: Some(
                WorkspaceDoWhatWorkspace {
                    name: Some(name),
                    created_at: Some(now_ms),
                    preset: Some(String::from_str(preset)),
                },
            ),
            authorized_roots: roots,
            reload: None,
        }
    }
}

} // verus!
