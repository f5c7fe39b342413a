//! Where things are looked for: the home directory, XDG candidates, bundled sidecars,
//! the daemon's data directory and the `PATH` handed to children.

use vstd::prelude::*;
use crate::text::{dedup_first, holds, is_blank, is_blank_seq, join_path, join_spec, opt_view, views};

verus! {

/// The home directory: `HOME` unless blank, else `USERPROFILE` unless blank.
pub open spec fn home_spec(home: Option<Seq<char>>, profile: Option<Seq<char>>) -> Option<Seq<char>> {
    match home {
        Some(h) if !is_blank_seq(h) => Some(h),
        _ => match profile {
            Some(p) if !is_blank_seq(p) => Some(p),
            _ => None,
        },
    }
}

/// The home directory from the values of `HOME` and `USERPROFILE` (`None` when unset).
pub fn home_dir(home: Option<&str>, user_profile: Option<&str>) -> (r: Option<String>)
    ensures
        match r {
            Some(s) => home_spec(opt_view(home), opt_view(user_profile)) == Some(s@),
            None => home_spec(opt_view(home), opt_view(user_profile)).is_none(),
        },
{
    if let Some(h) = home {
        if !is_blank(h) {
            return Some(String::from_str(h));
        }
    }
    if let Some(p) = user_profile {
        if !is_blank(p) {
            return Some(String::from_str(p));
        }
    }
    None
}

/// Where an engine's data directory may already be: under the home directory, plus the
/// application support directory on macOS.
pub fn candidate_xdg_data_dirs(home: Option<&str>, macos: bool) -> (r: Vec<String>)
    ensures
        match home {
            None => r@.len() == 0,
            Some(h) => views(r@) == seq![
                join_spec(join_spec(h@, ".local"@), "share"@),
                join_spec(h@, ".config"@),
            ] + if macos {
                seq![join_spec(h@, "Library/Application Support"@)]
            } else {
                Seq::<Seq<char>>::empty()
            },
        },
{
    let mut out: Vec<String> = Vec::new();
    if let Some(h) = home {
        let local = join_path(h, ".local");
        out.push(join_path(local.as_str(), "share"));
        out.push(join_path(h, ".config"));
        if macos {
            out.push(join_path(h, "Library/Application Support"));
        }
        assert(views(out@) =~= seq![
            join_spec(join_spec(h@, ".local"@), "share"@),
            join_spec(h@, ".config"@),
        ] + if macos {
            seq![join_spec(h@, "Library/Application Support"@)]
        } else {
            Seq::<Seq<char>>::empty()
        });
    }
    out
}

/// Where an engine's configuration directory may already be.
pub fn candidate_xdg_config_dirs(home: Option<&str>, macos: bool) -> (r: Vec<String>)
    ensures
        match home {
            None => r@.len() == 0,
            Some(h) => views(r@) == seq![join_spec(h@, ".config"@)] + if macos {
                seq![join_spec(h@, "Library/Application Support"@)]
            } else {
                Seq::<Seq<char>>::empty()
            },
        },
{
    let mut out: Vec<String> = Vec::new();
    if let Some(h) = home {
        out.push(join_path(h, ".config"));
        if macos {
            out.push(join_path(h, "Library/Application Support"));
        }
        assert(views(out@) =~= seq![join_spec(h@, ".config"@)] + if macos {
            seq![join_spec(h@, "Library/Application Support"@)]
        } else {
            Seq::<Seq<char>>::empty()
        });
    }
    out
}

/// The directories where bundled sidecars may be, in order, before keeping those that
/// exist.
pub open spec fn sidecar_candidates_spec(resource_dir: Option<Seq<char>>, current_bin_dir: Option<Seq<char>>) -> Seq<Seq<char>> {
    dedup_first(
        (match current_bin_dir {
            Some(b) => seq![b],
            None => Seq::<Seq<char>>::empty(),
        }) + (match resource_dir {
            Some(r) => seq![join_spec(r, "sidecars"@), r],
            None => Seq::<Seq<char>>::empty(),
        }) + seq!["src-tauri/sidecars"@],
    )
}

/// Where bundled sidecars may be: beside the running binary, in the resource directory's
/// `sidecars`, the resource directory, then the development tree; each once. Callers keep
/// those that are directories.
pub fn sidecar_path_candidates(resource_dir: Option<&str>, current_bin_dir: Option<&str>) -> (r: Vec<String>)
    ensures
        views(r@) == sidecar_candidates_spec(opt_view(resource_dir), opt_view(current_bin_dir)),
{
    let mut all: Vec<String> = Vec::new();
    if let Some(b) = current_bin_dir {
        all.push(String::from_str(b));
    }
    if let Some(r) = resource_dir {
        all.push(join_path(r, "sidecars"));
        all.push(String::from_str(r));
    }
    all.push(String::from_str("src-tauri/sidecars"));
    assert(views(all@) =~= (match opt_view(current_bin_dir) {
        Some(b) => seq![b],
        None => Seq::<Seq<char>>::empty(),
    }) + (match opt_view(resource_dir) {
        Some(r) => seq![join_spec(r, "sidecars"@), r],
        None => Seq::<Seq<char>>::empty(),
    }) + seq!["src-tauri/sidecars"@]);
    unique_in_order(&all)
}

/// `items` without later repeats.
pub fn unique_in_order(items: &Vec<String>) -> (r: Vec<String>)
    ensures
        views(r@) == dedup_first(views(items@)),
{
    let mut out: Vec<String> = Vec::new();
    let mut i: usize = 0;
    assert(views(items@).subrange(0, 0) =~= Seq::<Seq<char>>::empty());
    while i < items.len()
        invariant
            i <= items.len(),
            views(out@) == dedup_first(views(items@).subrange(0, i as int)),
        decreases items.len() - i,
    {
        let ghost prefix = views(items@).subrange(0, i as int);
        assert(views(items@).subrange(0, i + 1).drop_last() =~= prefix);
        if !holds(&out, items[i].as_str()) {
            let ghost before = views(out@);
            out.push(items[i].clone());
            assert(views(out@) =~= before.push(items[i as int]@));
        }
        i = i + 1;
    }
    assert(views(items@).subrange(0, items.len() as int) =~= views(items@));
    out
}

/// The daemon's data directory: an explicit setting first (the newer variable, then the
/// older, each unless blank); else under the home directory, the older layout only when
/// it alone exists; else a relative default.
pub fn orchestrator_data_dir(
    dowhat_data_dir: Option<&str>,
    openwork_data_dir: Option<&str>,
    home: Option<&str>,
    legacy_exists: bool,
    current_exists: bool,
) -> (r: String)
    ensures
        match opt_view(dowhat_data_dir) {
            Some(d) if !is_blank_seq(d) => r@ == d,
            _ => match opt_view(openwork_data_dir) {
                Some(o) if !is_blank_seq(o) => r@ == o,
                _ => match opt_view(home) {
                    Some(h) => if legacy_exists && !current_exists {
                        r@ == join_spec(join_spec(h, ".openwork"@), "openwork-orchestrator"@)
                    } else {
                        r@ == join_spec(join_spec(h, ".do-what"@), "do-what-orchestrator"@)
                    },
                    None => r@ == ".do-what/do-what-orchestrator"@,
                },
            },
        },
{
    if let Some(d) = dowhat_data_dir {
        if !is_blank(d) {
            return String::from_str(d);
        }
    }
    if let Some(o) = openwork_data_dir {
        if !is_blank(o) {
            return String::from_str(o);
        }
    }
    match home {
        Some(h) => if legacy_exists && !current_exists {
            join_path(join_path(h, ".openwork").as_str(), "openwork-orchestrator")
        } else {
            join_path(join_path(h, ".do-what").as_str(), "do-what-orchestrator")
        },
        None => String::from_str(".do-what/do-what-orchestrator"),
    }
}

/// Where the daemon keeps its state file.
pub fn orchestrator_state_path(data_dir: &str) -> (r: String)
    ensures
        r@ == join_spec(data_dir@, "openwork-orchestrator-state.json"@),
{
    join_path(data_dir, "openwork-orchestrator-state.json")
}

/// Where the auth snapshot of an orchestrated run is kept.
pub fn orchestrator_auth_path(data_dir: &str) -> (r: String)
    ensures
        r@ == join_spec(data_dir@, "openwork-orchestrator-auth.json"@),
{
    join_path(data_dir, "openwork-orchestrator-auth.json")
}

/// `items` added in order to `base`, each unless already there.
pub open spec fn add_missing(base: Seq<Seq<char>>, items: Seq<Seq<char>>) -> Seq<Seq<char>>
    decreases items.len(),
{
    if items.len() == 0 {
        base
    } else {
        let prev = add_missing(base, items.drop_last());
        if prev.contains(items.last()) {
            prev
        } else {
            prev.push(items.last())
        }
    }
}

fn append_missing(entries: &mut Vec<String>, items: &[String])
    ensures
        views(final(entries)@) == add_missing(views(old(entries)@), views(items@)),
{
    let ghost base = views(entries@);
    let mut i: usize = 0;
    assert(views(items@).subrange(0, 0) =~= Seq::<Seq<char>>::empty());
    while i < items.len()
        invariant
            i <= items.len(),
            views(entries@) == add_missing(base, views(items@).subrange(0, i as int)),
        decreases items.len() - i,
    {
        assert(views(items@).subrange(0, i + 1).drop_last() =~= views(items@).subrange(0, i as int));
        if !holds(entries, items[i].as_str()) {
            let ghost before = views(entries@);
            entries.push(items[i].clone());
            assert(views(entries@) =~= before.push(items[i as int]@));
        }
        i = i + 1;
    }
    assert(views(items@).subrange(0, items.len() as int) =~= views(items@));
}

/// The `PATH` entries handed to children: the sidecar directories first (all kept), then
/// the common tool directories and the inherited entries not already present; none when
/// there is nothing at all. Callers pass only directories that exist.
pub fn prepended_path_entries(prefixes: &[String], tool_dirs: &[String], inherited: &[String]) -> (r: Option<Vec<String>>)
    ensures
        match r {
            Some(v) => views(v@) == add_missing(add_missing(views(prefixes@), views(tool_dirs@)), views(inherited@))
                && v@.len() > 0,
            None => add_missing(add_missing(views(prefixes@), views(tool_dirs@)), views(inherited@)).len() == 0,
        },
{
    let mut entries: Vec<String> = Vec::new();
    let mut i: usize = 0;
    while i < prefixes.len()
        invariant
            i <= prefixes.len(),
            views(entries@) == views(prefixes@).subrange(0, i as int),
        decreases prefixes.len() - i,
    {
        let ghost before = views(entries@);
        entries.push(prefixes[i].clone());
        assert(views(entries@) =~= before.push(prefixes[i as int]@));
        assert(views(prefixes@).subrange(0, i + 1) =~= views(prefixes@).subrange(0, i as int).push(prefixes[i as int]@));
        i = i + 1;
    }
    assert(views(prefixes@).subrange(0, prefixes.len() as int) =~= views(prefixes@));
    append_missing(&mut entries, tool_dirs);
    append_missing(&mut entries, inherited);
    if entries.len() == 0 {
        None
    } else {
        Some(entries)
    }
}

/// Common places of user-installed tools, in order.
pub open spec fn tool_paths_spec(home: Option<Seq<char>>, macos: bool) -> Seq<Seq<char>> {
    (if macos {
        seq!["/opt/homebrew/bin"@, "/opt/homebrew/sbin"@]
    } else {
        Seq::<Seq<char>>::empty()
    }) + seq!["/usr/local/bin"@, "/usr/local/sbin"@] + match home {
        Some(h) => seq![
            join_spec(h, ".nvm/current/bin"@),
            join_spec(h, ".fnm/current/bin"@),
            join_spec(h, ".volta/bin"@),
            if macos {
                join_spec(h, "Library/pnpm"@)
            } else {
                join_spec(h, ".local/share/pnpm"@)
            },
            join_spec(h, ".bun/bin"@),
            join_spec(h, ".cargo/bin"@),
            join_spec(h, ".pyenv/shims"@),
            join_spec(h, ".local/bin"@),
        ],
        None => Seq::<Seq<char>>::empty(),
    }
}

/// Common places of user-installed tools that a GUI-launched process may not inherit on
/// `PATH` (macOS or Linux layout).
pub fn common_tool_paths(home: Option<&str>, macos: bool) -> (r: Vec<String>)
    ensures
        views(r@) == tool_paths_spec(opt_view(home), macos),
{
    let mut paths: Vec<String> = Vec::new();
    if macos {
        paths.push(String::from_str("/opt/homebrew/bin"));
        paths.push(String::from_str("/opt/homebrew/sbin"));
    }
    paths.push(String::from_str("/usr/local/bin"));
    paths.push(String::from_str("/usr/local/sbin"));
    if let Some(h) = home {
        paths.push(join_path(h, ".nvm/current/bin"));
        paths.push(join_path(h, ".fnm/current/bin"));
        paths.push(join_path(h, ".volta/bin"));
        if macos {
            paths.push(join_path(h, "Library/pnpm"));
        } else {
            paths.push(join_path(h, ".local/share/pnpm"));
        }
        paths.push(join_path(h, ".bun/bin"));
        paths.push(join_path(h, ".cargo/bin"));
        paths.push(join_path(h, ".pyenv/shims"));
        paths.push(join_path(h, ".local/bin"));
    }
    assert(views(paths@) =~= tool_paths_spec(opt_view(home), macos));
    paths
}

} // verus!
