//! The install / uninstall lifecycle over the file store: overwrite policy,
//! side-file writes, counterpart removal, and the search-path check.

use vstd::prelude::*;
use crate::strutil::{first_at, find_char, chars_of, string_from_chars, subvec, eq_chars};
use crate::paths::{joined, with_extension_spec, hidden_file_with_ext, join_path, with_extension_vec, hidden_path_vec};
use crate::errors::InstallerError;
use crate::flags::{Flags, Platform, argsv, extrasv};
use crate::fsys::FileSys;
use crate::shim::{
    InstallFlags, Env, ShimData, ShimView, ResolveOutcome, resolve_outcome, matches_outcome,
    resolve_shim_data, get_installer_root, env_root_spec, home_var_name, opt_string_view,
};
use crate::render::{generate_executable_file, rendered_map};

verus! {

/// The store after the staged side files are written, in order, none of
/// them executable.
pub open spec fn write_extras_map(
    m: Map<Seq<char>, (Seq<char>, bool)>,
    extras: Seq<(Seq<char>, Seq<char>)>,
) -> Map<Seq<char>, (Seq<char>, bool)>
    decreases extras.len(),
{
    if extras.len() == 0 {
        m
    } else {
        write_extras_map(m, extras.drop_last()).insert(
            extras.last().0,
            (extras.last().1, false),
        )
    }
}

/// The store after a whole install: launcher files, then side files.
pub open spec fn installed_map(
    m: Map<Seq<char>, (Seq<char>, bool)>,
    sv: ShimView,
    platform: Platform,
) -> Map<Seq<char>, (Seq<char>, bool)> {
    write_extras_map(rendered_map(m, sv.args, sv.file_path, platform), sv.extra_files)
}

/// What an install run reports and leaves on the store: every resolution
/// failure leaves it untouched; over a resolved descriptor, a file standing
/// where the directory belongs or an unforced overwrite also leaves it
/// untouched, and otherwise exactly the descriptor's files are written.
pub open spec fn matches_install(
    r: Result<ShimData, InstallerError>,
    o: ResolveOutcome,
    m0: Map<Seq<char>, (Seq<char>, bool)>,
    m1: Map<Seq<char>, (Seq<char>, bool)>,
    force: bool,
    platform: Platform,
) -> bool {
    match o {
        ResolveOutcome::Resolved(sv) => if m0.contains_key(sv.installation_dir) {
            (r matches Err(InstallerError::PathNotDirectory)) && m1 == m0
        } else if m0.contains_key(sv.file_path) && !force {
            (r matches Err(InstallerError::AlreadyInstalled)) && m1 == m0
        } else {
            matches_outcome(r, o) && m1 == installed_map(m0, sv, platform)
        },
        _ => matches_outcome(r, o) && m1 == m0,
    }
}

/// Install the shim: resolve the descriptor, refuse to overwrite an
/// existing shim unless forced, then render the launcher and write every
/// side file. An existing installation without `force` changes nothing and
/// fails; with `force` the files are overwritten with the new arguments.
pub fn create_install_shim(
    flags: &Flags,
    install_flags: &InstallFlags,
    env: &Env,
    fsys: &mut FileSys,
    platform: Platform,
) -> (r: Result<ShimData, InstallerError>)
    requires
        old(fsys).wf(),
    ensures
        final(fsys).wf(),
        matches_install(
            r,
            resolve_outcome(*flags, *install_flags, *env, old(fsys)@, platform),
            old(fsys)@,
            final(fsys)@,
            install_flags.force,
            platform,
        ),
{
    let shim_data = match resolve_shim_data(flags, install_flags, env, fsys, platform) {
        Ok(sd) => sd,
        Err(e) => {
            return Err(e);
        },
    };
    if fsys.has_file(shim_data.installation_dir.as_str()) {
        return Err(InstallerError::PathNotDirectory);
    }
    if fsys.has_file(shim_data.file_path.as_str()) && !install_flags.force {
        return Err(InstallerError::AlreadyInstalled);
    }
    generate_executable_file(&shim_data, platform, fsys);
    let ghost m_rendered = fsys@;
    let ghost extras = extrasv(shim_data.extra_files);
    let mut i: usize = 0;
    proof {
        reveal(crate::flags::extrasv);
        assert(extras.take(0) =~= Seq::<(Seq<char>, Seq<char>)>::empty());
    }
    while i < shim_data.extra_files.len()
        invariant
            fsys.wf(),
            i <= shim_data.extra_files@.len(),
            extras == extrasv(shim_data.extra_files),
            extras.len() == shim_data.extra_files@.len(),
            extras == shim_data.extra_files.deep_view(),
            fsys@ == write_extras_map(m_rendered, extras.take(i as int)),
        decreases shim_data.extra_files@.len() - i,
    {
        let path = shim_data.extra_files[i].0.clone();
        let content = shim_data.extra_files[i].1.clone();
        fsys.write(path.as_str(), content, false);
        proof {
            reveal(crate::flags::extrasv);
            assert(extras.take(i + 1 as int).drop_last() =~= extras.take(i as int));
            assert(extras.take(i + 1 as int).last() == extras[i as int]);
            assert(extras[i as int] == (shim_data.extra_files@[i as int].0@,
            shim_data.extra_files@[i as int].1@));
        }
        i = i + 1;
    }
    proof {
        assert(extras.take(extras.len() as int) =~= extras);
    }
    Ok(shim_data)
}

/// The store after an uninstall of the shim at `fp`: the launcher, its
/// batch variant where the platform has one, and the known side files —
/// both the hidden dot-prefixed paths an install writes and the plain
/// legacy-named ones.
pub open spec fn uninstalled_map(
    m: Map<Seq<char>, (Seq<char>, bool)>,
    fp: Seq<char>,
    platform: Platform,
) -> Map<Seq<char>, (Seq<char>, bool)> {
    let m1 = m.remove(fp);
    let m2 = if platform is Windows {
        m1.remove(with_extension_spec(fp, "cmd"@))
    } else {
        m1
    };
    m2.remove(with_extension_spec(fp, "tsconfig.json"@)).remove(
        with_extension_spec(fp, "deno.json"@),
    ).remove(with_extension_spec(fp, "lock.json"@)).remove(
        hidden_file_with_ext(fp, "tsconfig.json"@),
    ).remove(hidden_file_with_ext(fp, "deno.json"@)).remove(hidden_file_with_ext(fp, "lock.json"@))
}

/// Whether a shim of this name is present: the main file, or on Windows
/// its batch variant.
pub open spec fn shim_present(
    m: Map<Seq<char>, (Seq<char>, bool)>,
    fp: Seq<char>,
    platform: Platform,
) -> bool {
    m.contains_key(fp) || (platform is Windows && m.contains_key(with_extension_spec(fp, "cmd"@)))
}

/// What an uninstall run reports and leaves on the store.
pub open spec fn matches_uninstall(
    r: Result<(), InstallerError>,
    name: Seq<char>,
    root_o: Option<Seq<char>>,
    m0: Map<Seq<char>, (Seq<char>, bool)>,
    m1: Map<Seq<char>, (Seq<char>, bool)>,
    platform: Platform,
) -> bool {
    match root_o {
        None => (r matches Err(InstallerError::HomeNotDefined { var }) && var@ == home_var_name(
            platform,
        )) && m1 == m0,
        Some(root) => {
            let dir = root + "/bin"@;
            if m0.contains_key(dir) {
                (r matches Err(InstallerError::PathNotDirectory)) && m1 == m0
            } else {
                let fp = joined(dir, name);
                m1 == uninstalled_map(m0, fp, platform) && (if shim_present(m0, fp, platform) {
                    r is Ok
                } else {
                    r matches Err(InstallerError::NotInstalled { name: n }) && n@ == name
                })
            }
        },
    }
}

/// Remove the shim of this name: the main file, on Windows the batch
/// variant, and every known side file — the hidden dot-prefixed config and
/// lock snapshots an install writes, and the plain legacy-named variants —
/// even when only some exist. A name with none of the launcher files
/// present fails, after the side files were still cleaned up.
pub fn uninstall(
    name: String,
    root: Option<String>,
    env: &Env,
    fsys: &mut FileSys,
    platform: Platform,
) -> (r: Result<(), InstallerError>)
    requires
        old(fsys).wf(),
    ensures
        final(fsys).wf(),
        matches_uninstall(
            r,
            name@,
            (match root {
                Some(rt) => Some(rt@),
                None => env_root_spec(*env, platform),
            }),
            old(fsys)@,
            final(fsys)@,
            platform,
        ),
{
    let root_dir: String = match &root {
        Some(rt) => rt.clone(),
        None => {
            match get_installer_root(env, platform) {
                Ok(rt) => rt,
                Err(e) => {
                    return Err(e);
                },
            }
        },
    };
    let mut dir = root_dir.clone();
    vstd::string::StringExecFns::append(&mut dir, "/bin");
    if fsys.has_file(dir.as_str()) {
        return Err(InstallerError::PathNotDirectory);
    }
    let dirv = chars_of(dir.as_str());
    let namev = chars_of(name.as_str());
    let fpv = join_path(&dirv, &namev);
    let file_path = string_from_chars(&fpv);

    let mut removed = false;
    if fsys.has_file(file_path.as_str()) {
        fsys.remove(file_path.as_str());
        removed = true;
    } else {
        proof {
            assert(fsys@ =~= old(fsys)@.remove(fpv@));
        }
        fsys.remove(file_path.as_str());
    }
    if matches!(platform, Platform::Windows) {
        let cmd_ext = chars_of("cmd");
        let cmdv = with_extension_vec(&fpv, &cmd_ext);
        let cmd_path = string_from_chars(&cmdv);
        if fsys.has_file(cmd_path.as_str()) {
            fsys.remove(cmd_path.as_str());
            removed = true;
        } else {
            fsys.remove(cmd_path.as_str());
        }
    }
    let ts_ext = chars_of("tsconfig.json");
    let tsv = with_extension_vec(&fpv, &ts_ext);
    let ts_path = string_from_chars(&tsv);
    fsys.remove(ts_path.as_str());
    let dj_ext = chars_of("deno.json");
    let djv = with_extension_vec(&fpv, &dj_ext);
    let dj_path = string_from_chars(&djv);
    fsys.remove(dj_path.as_str());
    let lj_ext = chars_of("lock.json");
    let ljv = with_extension_vec(&fpv, &lj_ext);
    let lj_path = string_from_chars(&ljv);
    fsys.remove(lj_path.as_str());
    let hts = hidden_path_vec(&fpv, &ts_ext);
    let hts_path = string_from_chars(&hts);
    fsys.remove(hts_path.as_str());
    let hdj = hidden_path_vec(&fpv, &dj_ext);
    let hdj_path = string_from_chars(&hdj);
    fsys.remove(hdj_path.as_str());
    let hlj = hidden_path_vec(&fpv, &lj_ext);
    let hlj_path = string_from_chars(&hlj);
    fsys.remove(hlj_path.as_str());

    if !removed {
        return Err(InstallerError::NotInstalled { name });
    }
    Ok(())
}

/// The search-path separator of the platform.
pub open spec fn path_sep(platform: Platform) -> char {
    if platform is Windows {
        ';'
    } else {
        ':'
    }
}

/// Whether `d` stands among the separator-split entries of `pv`. The first
/// occurrence an index yields always lies in range, so the guard only
/// serves the termination argument.
pub open spec fn in_path_list(pv: Seq<char>, sep: char, d: Seq<char>) -> bool
    decreases pv.len(),
{
    match first_at(pv, sep) {
        None => pv == d,
        Some(i) => if 0 <= i && i < pv.len() {
            pv.take(i) == d || in_path_list(pv.skip(i + 1), sep, d)
        } else {
            false
        },
    }
}

/// Whether the installation directory stands on the search path.
pub fn is_in_path(dir: &str, path_var: Option<&str>, platform: Platform) -> (r: bool)
    ensures
        r == (match path_var {
            Some(pv) => in_path_list(pv@, path_sep(platform), dir@),
            None => false,
        }),
{
    let pv = match path_var {
        Some(p) => p,
        None => {
            return false;
        },
    };
    let sep = if matches!(platform, Platform::Windows) {
        ';'
    } else {
        ':'
    };
    let dv = chars_of(dir);
    let mut cur = chars_of(pv);
    loop
        invariant
            path_var == Some(pv),
            in_path_list(pv@, sep, dv@) == in_path_list(cur@, sep, dv@),
            dv@ == dir@,
            sep == path_sep(platform),
        decreases cur@.len(),
    {
        let n = cur.len();
        match find_char(&cur, sep) {
            None => {
                return eq_chars(&cur, &dv);
            },
            Some(i) => {
                let seg = subvec(&cur, 0, i);
                if eq_chars(&seg, &dv) {
                    return true;
                }
                let rest = subvec(&cur, i + 1, n);
                proof {
                    assert(rest@ =~= cur@.skip(i + 1));
                }
                cur = rest;
            },
        }
    }
}

/// A package-reference install with locking on and no explicit lock stages
/// exactly one side file, the literal empty object at the hidden
/// dot-prefixed lock path, and the argument vector carries `--lock`
/// followed by exactly that path.
pub proof fn law_package_lock_side_file(
    f: Flags,
    iflags: InstallFlags,
    env: Env,
    fsmap: Map<Seq<char>, (Seq<char>, bool)>,
    platform: Platform,
    sv: ShimView,
    href: Seq<char>,
)
    requires
        resolve_outcome(f, iflags, env, fsmap, platform) == ResolveOutcome::Resolved(sv),
        !f.no_lock,
        f.lock is None,
        f.config_flag is Discover,
        crate::shim::resolve_spec(iflags.module_url@, opt_string_view(env.cwd)) == Some(href),
        crate::name::npm_parse(href) is Some,
    ensures
        sv.extra_files == seq![
            (crate::paths::hidden_file_with_ext(sv.file_path, "lock.json"@), "{}"@),
        ],
        exists|i: int|
            0 <= i && i + 1 < sv.args.len() && #[trigger] sv.args[i] == "--lock"@ && sv.args[i + 1]
                == crate::paths::hidden_file_with_ext(sv.file_path, "lock.json"@),
{
    reveal(crate::shim::args_outcome);
    let fp = sv.file_path;
    let hid = crate::paths::hidden_file_with_ext(fp, "lock.json"@);
    let cwd = crate::shim::env_cwd(env);
    let npe = env.no_prompt_env;
    assert(sv.extra_files == crate::shim::extras_spec(f, fsmap, fp, href));
    assert(crate::shim::extras_spec(f, fsmap, fp, href) =~= seq![(hid, "{}"@)]);
    // The argument vector: locate the `--lock` pair inside the lock section.
    reveal(crate::shim::opts_args_c);
    let base = seq!["run"@] + crate::flags::perm_args(f) + crate::shim::opts_args_a(f, npe)
        + crate::shim::opts_args_b(f);
    let imp = crate::shim::import_map_args(f, cwd);
    let cfg = crate::shim::config_args(f, fp);
    let lock = crate::shim::lock_args(f, fp, href);
    assert(lock == seq!["--lock"@, hid]);
    let trailing = argsv(iflags.args);
    assert(sv.args == base + (imp + cfg + lock) + seq![href] + trailing);
    let i = base.len() + imp.len() + cfg.len();
    assert(sv.args[i as int] == "--lock"@);
    assert(sv.args[i as int + 1] == hid);
}

} // verus!
