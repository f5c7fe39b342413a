//! Finding the engine binary: an explicit override, a bundled sidecar, `PATH`, then
//! well-known install locations, with a note for every place looked at.

use vstd::prelude::*;
use crate::output::{tail, truncate_output};
use crate::text::{join_path, join_spec, opt_view, text_view, trim, trim_seq, views};
use crate::types::EngineDoctorResult;

verus! {

/// A place looked at, and whether a file is there.
pub struct Probe {
    pub path: String,
    pub is_file: bool,
}

pub open spec fn probe_view(p: Probe) -> (Seq<char>, bool) {
    (p.path@, p.is_file)
}

/// The first place with a file, and the notes of the search up to it: `hit` before the
/// found path, `miss` before each path looked at in vain.
pub open spec fn scan_spec(probes: Seq<(Seq<char>, bool)>, hit: Seq<char>, miss: Seq<char>) -> (Option<Seq<char>>, Seq<Seq<char>>)
    decreases probes.len(),
{
    if probes.len() == 0 {
        (None, seq![])
    } else if probes[0].1 {
        (Some(probes[0].0), seq![hit + probes[0].0])
    } else {
        let rest = scan_spec(probes.subrange(1, probes.len() as int), hit, miss);
        (rest.0, seq![miss + probes[0].0] + rest.1)
    }
}

/// Looks through `probes` in order; appends a note per place looked at and returns the
/// first place with a file.
pub fn scan_probes(probes: &[Probe], hit: &str, miss: &str, notes: &mut Vec<String>) -> (r: Option<String>)
    ensures
        r.is_some() == scan_spec(probes@.map_values(|p: Probe| probe_view(p)), hit@, miss@).0.is_some(),
        r.is_some() ==> r.unwrap()@ == scan_spec(probes@.map_values(|p: Probe| probe_view(p)), hit@, miss@).0.unwrap(),
        views(final(notes)@) == views(old(notes)@) + scan_spec(
            probes@.map_values(|p: Probe| probe_view(p)),
            hit@,
            miss@,
        ).1,
{
    let ghost all = probes@.map_values(|p: Probe| probe_view(p));
    let ghost start = views(notes@);
    let mut i: usize = 0;
    assert(all.subrange(0, all.len() as int) =~= all);
    while i < probes.len()
        invariant
            i <= probes.len(),
            all == probes@.map_values(|p: Probe| probe_view(p)),
            start == views(old(notes)@),
            scan_spec(all.subrange(i as int, all.len() as int), hit@, miss@).0 == scan_spec(all, hit@, miss@).0,
            views(notes@) + scan_spec(all.subrange(i as int, all.len() as int), hit@, miss@).1 == start
                + scan_spec(all, hit@, miss@).1,
        decreases probes.len() - i,
    {
        let ghost rest = all.subrange(i as int, all.len() as int);
        let ghost after = all.subrange(i + 1, all.len() as int);
        assert(rest.subrange(1, rest.len() as int) =~= after);
        assert(rest[0] == probe_view(probes@[i as int]));
        let p = &probes[i];
        let ghost before = views(notes@);
        if p.is_file {
            notes.push(String::from_str(hit).concat(p.path.as_str()));
            assert(views(notes@) =~= before + seq![hit@ + p.path@]);
            assert(scan_spec(rest, hit@, miss@).1 == seq![hit@ + p.path@]);
            assert(scan_spec(rest, hit@, miss@).0 == Some(p.path@));
            return Some(p.path.clone());
        }
        notes.push(String::from_str(miss).concat(p.path.as_str()));
        assert(views(notes@) + scan_spec(after, hit@, miss@).1 =~= before + scan_spec(rest, hit@, miss@).1);
        i = i + 1;
    }
    assert(all.subrange(i as int, all.len() as int) =~= Seq::<(Seq<char>, bool)>::empty());
    assert(views(notes@) + Seq::<Seq<char>>::empty() =~= views(notes@));
    None
}

/// Where a bundled engine may be: beside the running binary, in the resource
/// directory's `sidecars`, in the resource directory, then in the development tree.
pub open spec fn sidecar_binaries_spec(resource_dir: Option<Seq<char>>, current_bin_dir: Option<Seq<char>>) -> Seq<Seq<char>> {
    (match current_bin_dir {
        Some(b) => seq![join_spec(b, "opencode"@)],
        None => Seq::<Seq<char>>::empty(),
    }) + (match resource_dir {
        Some(r) => seq![join_spec(join_spec(r, "sidecars"@), "opencode"@), join_spec(r, "opencode"@)],
        None => Seq::<Seq<char>>::empty(),
    }) + seq![join_spec("src-tauri/sidecars"@, "opencode"@)]
}

/// The places a bundled engine may be, in order.
pub fn sidecar_binary_candidates(resource_dir: Option<&str>, current_bin_dir: Option<&str>) -> (r: Vec<String>)
    ensures
        views(r@) == sidecar_binaries_spec(opt_view(resource_dir), opt_view(current_bin_dir)),
{
    let mut out: Vec<String> = Vec::new();
    if let Some(b) = current_bin_dir {
        out.push(join_path(b, "opencode"));
    }
    if let Some(r) = resource_dir {
        out.push(join_path(join_path(r, "sidecars").as_str(), "opencode"));
        out.push(join_path(r, "opencode"));
    }
    out.push(join_path("src-tauri/sidecars", "opencode"));
    assert(views(out@) =~= sidecar_binaries_spec(opt_view(resource_dir), opt_view(current_bin_dir)));
    out
}

/// Well-known install locations of the engine.
pub open spec fn known_locations_spec(home: Option<Seq<char>>) -> Seq<Seq<char>> {
    (match home {
        Some(h) => seq![join_spec(join_spec(join_spec(h, ".opencode"@), "bin"@), "opencode"@)],
        None => Seq::<Seq<char>>::empty(),
    }) + seq![
        "/opt/homebrew/bin/opencode"@,
        "/usr/local/bin/opencode"@,
        "/usr/bin/opencode"@,
        "/usr/local/bin/opencode"@,
    ]
}

/// Well-known install locations of the engine, in order.
pub fn candidate_opencode_paths(home: Option<&str>) -> (r: Vec<String>)
    ensures
        views(r@) == known_locations_spec(opt_view(home)),
{
    let mut out: Vec<String> = Vec::new();
    if let Some(h) = home {
        let dot = join_path(h, ".opencode");
        let bin = join_path(dot.as_str(), "bin");
        out.push(join_path(bin.as_str(), "opencode"));
    }
    out.push(String::from_str("/opt/homebrew/bin/opencode"));
    out.push(String::from_str("/usr/local/bin/opencode"));
    out.push(String::from_str("/usr/bin/opencode"));
    out.push(String::from_str("/usr/local/bin/opencode"));
    assert(views(out@) =~= known_locations_spec(opt_view(home)));
    out
}

/// The outcome of looking for the engine: where it is, whether it was found on `PATH`,
/// and a note for every place looked at.
pub struct EngineResolution {
    pub resolved: Option<String>,
    pub in_path: bool,
    pub notes: Vec<String>,
}

pub open spec fn probes_view(p: Seq<Probe>) -> Seq<(Seq<char>, bool)> {
    p.map_values(|x: Probe| probe_view(x))
}

/// The first file on `PATH`, with no notes of its own.
pub open spec fn first_file(probes: Seq<(Seq<char>, bool)>) -> Option<Seq<char>> {
    scan_spec(probes, seq![], seq![]).0
}

/// Looks for a file named like the engine in each `PATH` directory, in order.
pub fn resolve_in_path(path_probes: &[Probe]) -> (r: Option<String>)
    ensures
        r.is_some() == first_file(probes_view(path_probes@)).is_some(),
        r.is_some() ==> r.unwrap()@ == first_file(probes_view(path_probes@)).unwrap(),
{
    let mut scratch: Vec<String> = Vec::new();
    let nothing = "";
    proof {
        reveal_strlit("");
        assert(nothing@ =~= Seq::<char>::empty());
    }
    scan_probes(path_probes, nothing, nothing, &mut scratch)
}

/// The search without an override: `PATH` first (noted as found there), then the
/// well-known locations.
pub open spec fn without_override_spec(
    path_probes: Seq<(Seq<char>, bool)>,
    known: Seq<(Seq<char>, bool)>,
) -> (Option<Seq<char>>, bool, Seq<Seq<char>>) {
    match first_file(path_probes) {
        Some(p) => (Some(p), true, seq!["Found in PATH: "@ + p]),
        None => {
            let s = scan_spec(known, "Found at "@, "Missing: "@);
            (s.0, false, seq!["Not found on PATH"@] + s.1)
        },
    }
}

/// Searches `PATH`, then the well-known locations, noting each step after `notes`.
pub fn resolve_opencode_executable_without_override(
    notes: Vec<String>,
    path_probes: &[Probe],
    known_probes: &[Probe],
) -> (r: EngineResolution)
    ensures
        ({
            let s = without_override_spec(probes_view(path_probes@), probes_view(known_probes@));
            &&& r.resolved.is_some() == s.0.is_some()
            &&& r.resolved.is_some() ==> r.resolved.unwrap()@ == s.0.unwrap()
            &&& r.in_path == s.1
            &&& views(r.notes@) == views(notes@) + s.2
        }),
{
    let mut notes = notes;
    let ghost start = views(notes@);
    if let Some(p) = resolve_in_path(path_probes) {
        notes.push(String::from_str("Found in PATH: ").concat(p.as_str()));
        assert(views(notes@) =~= start + seq!["Found in PATH: "@ + p@]);
        return EngineResolution { resolved: Some(p), in_path: true, notes };
    }
    notes.push(String::from_str("Not found on PATH"));
    let found = scan_probes(known_probes, "Found at ", "Missing: ", &mut notes);
    assert(views(notes@) =~= start + (seq!["Not found on PATH"@] + scan_spec(
        probes_view(known_probes@),
        "Found at "@,
        "Missing: "@,
    ).1));
    EngineResolution { resolved: found, in_path: false, notes }
}

/// The override check: a non-blank override is used when a file is there, otherwise
/// noted as missing.
pub open spec fn override_spec(override_probe: Option<(Seq<char>, bool)>) -> (Option<Seq<char>>, Seq<Seq<char>>) {
    match override_probe {
        Some((p, is_file)) => if trim_seq(p).len() == 0 {
            (None, seq![])
        } else if is_file {
            (Some(trim_seq(p)), seq!["Using OPENCODE_BIN_PATH: "@ + trim_seq(p)])
        } else {
            (None, seq!["OPENCODE_BIN_PATH set but missing: "@ + trim_seq(p)])
        },
        None => (None, seq![]),
    }
}

pub open spec fn opt_probe_view(p: Option<Probe>) -> Option<(Seq<char>, bool)> {
    match p {
        Some(x) => Some(probe_view(x)),
        None => None,
    }
}

fn check_override(override_probe: Option<Probe>) -> (r: (Option<String>, Vec<String>))
    ensures
        r.0.is_some() == override_spec(opt_probe_view(override_probe)).0.is_some(),
        r.0.is_some() ==> r.0.unwrap()@ == override_spec(opt_probe_view(override_probe)).0.unwrap(),
        views(r.1@) == override_spec(opt_probe_view(override_probe)).1,
{
    let mut notes: Vec<String> = Vec::new();
    match override_probe {
        Some(p) => {
            let t = trim(p.path.as_str());
            if t.unicode_len() == 0 {
                assert(views(notes@) =~= Seq::<Seq<char>>::empty());
                (None, notes)
            } else if p.is_file {
                notes.push(String::from_str("Using OPENCODE_BIN_PATH: ").concat(t));
                assert(views(notes@) =~= seq!["Using OPENCODE_BIN_PATH: "@ + t@]);
                (Some(String::from_str(t)), notes)
            } else {
                notes.push(String::from_str("OPENCODE_BIN_PATH set but missing: ").concat(t));
                assert(views(notes@) =~= seq!["OPENCODE_BIN_PATH set but missing: "@ + t@]);
                (None, notes)
            }
        },
        None => {
            assert(views(notes@) =~= Seq::<Seq<char>>::empty());
            (None, notes)
        },
    }
}

/// The engine found from the override (whose probe is given when it is set), else by
/// the search of [`resolve_opencode_executable_without_override`], noting every step.
pub fn resolve_opencode_executable(
    override_probe: Option<Probe>,
    path_probes: &[Probe],
    known_probes: &[Probe],
) -> (r: EngineResolution)
    ensures
        ({
            let o = override_spec(opt_probe_view(override_probe));
            let s = without_override_spec(probes_view(path_probes@), probes_view(known_probes@));
            if o.0.is_some() {
                &&& r.resolved.is_some() && r.resolved.unwrap()@ == o.0.unwrap()
                &&& !r.in_path
                &&& views(r.notes@) == o.1
            } else {
                &&& r.resolved.is_some() == s.0.is_some()
                &&& r.resolved.is_some() ==> r.resolved.unwrap()@ == s.0.unwrap()
                &&& r.in_path == s.1
                &&& views(r.notes@) == o.1 + s.2
            }
        }),
{
    let (found, notes) = check_override(override_probe);
    if let Some(p) = found {
        return EngineResolution { resolved: Some(p), in_path: false, notes };
    }
    resolve_opencode_executable_without_override(notes, path_probes, known_probes)
}

/// Looks for a bundled engine when sidecars are preferred, noting each place looked at.
pub fn resolve_sidecar_candidate(prefer_sidecar: bool, probes: &[Probe]) -> (r: (Option<String>, Vec<String>))
    ensures
        !prefer_sidecar ==> r.0.is_none() && r.1@.len() == 0,
        prefer_sidecar ==> ({
            let s = scan_spec(probes_view(probes@), "Using bundled sidecar: "@, "Sidecar missing: "@);
            &&& r.0.is_some() == s.0.is_some()
            &&& r.0.is_some() ==> r.0.unwrap()@ == s.0.unwrap()
            &&& views(r.1@) == s.1
        }),
{
    let mut notes: Vec<String> = Vec::new();
    if !prefer_sidecar {
        return (None, notes);
    }
    let found = scan_probes(probes, "Using bundled sidecar: ", "Sidecar missing: ", &mut notes);
    assert(views(notes@) =~= Seq::<Seq<char>>::empty() + scan_spec(
        probes_view(probes@),
        "Using bundled sidecar: "@,
        "Sidecar missing: "@,
    ).1);
    (found, notes)
}

/// The engine to run: without a sidecar preference, the plain search; with it, the
/// override first, then a bundled sidecar, then `PATH` and the well-known locations.
pub fn resolve_engine_path(
    prefer_sidecar: bool,
    override_probe: Option<Probe>,
    sidecar_probes: &[Probe],
    path_probes: &[Probe],
    known_probes: &[Probe],
) -> (r: EngineResolution)
    ensures
        ({
            let o = override_spec(opt_probe_view(override_probe));
            let side = scan_spec(probes_view(sidecar_probes@), "Using bundled sidecar: "@, "Sidecar missing: "@);
            let s = without_override_spec(probes_view(path_probes@), probes_view(known_probes@));
            if o.0.is_some() {
                r.resolved.is_some() && r.resolved.unwrap()@ == o.0.unwrap() && !r.in_path
                    && views(r.notes@) == o.1
            } else if !prefer_sidecar {
                &&& r.resolved.is_some() == s.0.is_some()
                &&& r.resolved.is_some() ==> r.resolved.unwrap()@ == s.0.unwrap()
                &&& r.in_path == s.1
                &&& views(r.notes@) == o.1 + s.2
            } else if side.0.is_some() {
                r.resolved.is_some() && r.resolved.unwrap()@ == side.0.unwrap() && !r.in_path
                    && views(r.notes@) == o.1 + side.1
            } else {
                &&& r.resolved.is_some() == s.0.is_some()
                &&& r.resolved.is_some() ==> r.resolved.unwrap()@ == s.0.unwrap()
                &&& r.in_path == s.1
                &&& views(r.notes@) == o.1 + side.1 + s.2
            }
        }),
{
    if !prefer_sidecar {
        return resolve_opencode_executable(override_probe, path_probes, known_probes);
    }
    let (found, mut notes) = check_override(override_probe);
    if let Some(p) = found {
        return EngineResolution { resolved: Some(p), in_path: false, notes };
    }
    let ghost o = views(notes@);
    let (sidecar, side_notes) = resolve_sidecar_candidate(true, sidecar_probes);
    let mut i: usize = 0;
    while i < side_notes.len()
        invariant
            i <= side_notes.len(),
            views(notes@) == o + views(side_notes@).subrange(0, i as int),
        decreases side_notes.len() - i,
    {
        let ghost before = views(notes@);
        notes.push(side_notes[i].clone());
        assert(views(notes@) =~= before.push(side_notes[i as int]@));
        assert(views(side_notes@).subrange(0, i + 1) =~= views(side_notes@).subrange(0, i as int).push(side_notes[i as int]@));
        i = i + 1;
    }
    assert(views(side_notes@).subrange(0, side_notes.len() as int) =~= views(side_notes@));
    match sidecar {
        Some(p) => EngineResolution { resolved: Some(p), in_path: false, notes },
        None => resolve_opencode_executable_without_override(notes, path_probes, known_probes),
    }
}

/// The XDG directory to hand to the engine: none when the variable is already set;
/// otherwise the first candidate directory that holds the marker file (each probe tells
/// whether its directory does).
pub fn maybe_infer_xdg_home(var_is_set: bool, candidates: &[Probe]) -> (r: Option<String>)
    ensures
        var_is_set ==> r.is_none(),
        !var_is_set ==> r.is_some() == first_file(probes_view(candidates@)).is_some(),
        !var_is_set && r.is_some() ==> r.unwrap()@ == first_file(probes_view(candidates@)).unwrap(),
{
    if var_is_set {
        return None;
    }
    resolve_in_path(candidates)
}

/// The version an engine prints: its standard output trimmed, else its standard error
/// trimmed, else none.
pub fn version_from_output(stdout: &str, stderr: &str) -> (r: Option<String>)
    ensures
        text_view(r) == if trim_seq(stdout@).len() > 0 {
            Some(trim_seq(stdout@))
        } else if trim_seq(stderr@).len() > 0 {
            Some(trim_seq(stderr@))
        } else {
            None
        },
{
    let out = trim(stdout);
    if out.unicode_len() > 0 {
        return Some(String::from_str(out));
    }
    let err = trim(stderr);
    if err.unicode_len() > 0 {
        return Some(String::from_str(err));
    }
    None
}

/// How many characters of `serve --help` output are kept.
pub const HELP_OUTPUT_CHARS: usize = 4000;

/// Help output as kept: trimmed, cut to its last characters, none when blank.
pub fn help_text(output: &str) -> (r: Option<String>)
    ensures
        text_view(r) == if trim_seq(output@).len() == 0 {
            None
        } else {
            Some(tail(trim_seq(output@), HELP_OUTPUT_CHARS as nat))
        },
{
    let t = trim(output);
    if t.unicode_len() == 0 {
        None
    } else {
        Some(truncate_output(t, HELP_OUTPUT_CHARS))
    }
}

/// What running `serve --help` showed: whether it succeeded, its status and its output.
pub struct ServeHelp {
    pub ok: bool,
    pub status: Option<i32>,
    pub stdout: String,
    pub stderr: String,
}

/// The engine check's report: where the engine is, its version, and whether it can serve;
/// `version` and `help` are what running the found engine showed (none when it was not
/// found or could not be run).
pub fn engine_doctor_report(resolution: EngineResolution, version: Option<String>, help: Option<ServeHelp>) -> (r: EngineDoctorResult)
    ensures
        r.found == resolution.resolved.is_some(),
        r.in_path == resolution.in_path,
        r.resolved_path == resolution.resolved,
        r.notes == resolution.notes,
        r.version == (if resolution.resolved.is_some() { version } else { None }),
        resolution.resolved.is_none() || help.is_none() ==> !r.supports_serve && r.serve_help_status.is_none()
            && r.serve_help_stdout.is_none() && r.serve_help_stderr.is_none(),
        resolution.resolved.is_some() && help.is_some() ==> {
            let h = help.unwrap();
            &&& r.supports_serve == h.ok
            &&& r.serve_help_status == h.status
            &&& text_view(r.serve_help_stdout) == if trim_seq(h.stdout@).len() == 0 {
                None
            } else {
                Some(tail(trim_seq(h.stdout@), HELP_OUTPUT_CHARS as nat))
            }
            &&& text_view(r.serve_help_stderr) == if trim_seq(h.stderr@).len() == 0 {
                None
            } else {
                Some(tail(trim_seq(h.stderr@), HELP_OUTPUT_CHARS as nat))
            }
        },
{
    let found = resolution.resolved.is_some();
    let (supports_serve, serve_help_status, serve_help_stdout, serve_help_stderr) = match (found, help) {
        (true, Some(h)) => (h.ok, h.status, help_text(h.stdout.as_str()), help_text(h.stderr.as_str())),
        _ => (false, None, None, None),
    };
    EngineDoctorResult {
        found,
        in_path: resolution.in_path,
        resolved_path: resolution.resolved,
        version: if found { version } else { None },
        supports_serve,
        notes: resolution.notes,
        serve_help_status,
        serve_help_stdout,
        serve_help_stderr,
    }
}

} // verus!
