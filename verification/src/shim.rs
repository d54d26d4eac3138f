//! Building a shim descriptor from a flag set and an install request: root
//! and specifier resolution, name choice, and the deterministic argument
//! vector with its staged side files.

use vstd::prelude::*;
use vstd::string::StringExecFns;
use crate::strutil::{
    first_at, find_char, chars_of, string_from_chars, dec_str, u64_to_string,
};
use crate::paths::{joined, with_extension_spec, hidden_file_with_ext, join_path, with_extension_vec, hidden_path_vec};
use crate::urlwrap::{url_ok, url_href, file_url_ok, file_url_of, parse_url, path_to_file_url};
use crate::errors::InstallerError;
use crate::flags::{Flags, CaData, ConfigFlag, TypeCheckMode, LogLevel, Platform, perm_args, join_char, argsv, extrasv};
use crate::name::{
    name_start_char, valid_name, validate_name, npm_parse, infer_url_spec, infer_name_from_url,
    parse_package_ref, opt_str_view,
};
use crate::fsys::FileSys;

verus! {

/// What an install request names beyond the flag set.
#[derive(Debug, Clone, PartialEq, Eq)]
pub struct InstallFlags {
    pub module_url: String,
    pub args: Vec<String>,
    pub name: Option<String>,
    pub root: Option<String>,
    pub force: bool,
}

/// The ambient environment, injected so resolution is deterministic.
#[derive(Debug, Clone, PartialEq, Eq)]
pub struct Env {
    /// The installer-root override variable, when set.
    pub install_root: Option<String>,
    /// The home directory variable, when set.
    pub home: Option<String>,
    /// The current working directory, for relative specifiers.
    pub cwd: Option<String>,
    /// The executable search path variable, when set.
    pub path_var: Option<String>,
    /// Whether the ambient no-prompt toggle is on.
    pub no_prompt_env: bool,
    /// The final URL one redirect resolution produced for a root-path
    /// specifier, when the caller performed one.
    pub redirect: Option<String>,
}

/// The view of an optional string.
pub open spec fn opt_string_view(o: Option<String>) -> Option<Seq<char>> {
    match o {
        Some(s) => Some(s@),
        None => None,
    }
}

/// The descriptor an install renders: everything the shim and its side
/// files hold.
#[derive(Debug, Clone, PartialEq, Eq)]
pub struct ShimData {
    pub name: String,
    pub installation_dir: String,
    pub file_path: String,
    pub args: Vec<String>,
    pub extra_files: Vec<(String, String)>,
}

/// The descriptor at the specification level.
pub struct ShimView {
    pub name: Seq<char>,
    pub installation_dir: Seq<char>,
    pub file_path: Seq<char>,
    pub args: Seq<Seq<char>>,
    pub extra_files: Seq<(Seq<char>, Seq<char>)>,
}

// ---------------------------------------------------------------------------
// Specifier resolution: URL or filesystem path.
// ---------------------------------------------------------------------------

/// A character allowed inside a URI scheme after its first letter.
pub open spec fn scheme_char(c: char) -> bool {
    name_start_char(c) || ('0' <= c && c <= '9') || c == '+' || c == '-' || c == '.'
}

/// Whether the text opens with a URI scheme followed by `:`. A scheme of a
/// single letter is read as a drive letter, not a scheme.
pub open spec fn has_uri_scheme(s: Seq<char>) -> bool {
    match first_at(s, ':') {
        Some(i) => i >= 2 && name_start_char(s[0]) && forall|j: int| 1 <= j < i ==> scheme_char(s[j]),
        None => false,
    }
}

/// The absolute path a specifier denotes: itself when rooted, else the
/// working directory joined with it, else nothing.
pub open spec fn abs_path_of(s: Seq<char>, cwd: Option<Seq<char>>) -> Option<Seq<char>> {
    if s.len() > 0 && s[0] == '/' {
        Some(s)
    } else if cwd is Some {
        Some(cwd->0 + seq!['/'] + s)
    } else {
        None
    }
}

/// The URL a specifier resolves to: parsed directly when it carries a URI
/// scheme, else converted from its absolute path form.
pub open spec fn resolve_spec(s: Seq<char>, cwd: Option<Seq<char>>) -> Option<Seq<char>> {
    if has_uri_scheme(s) {
        if url_ok(s) {
            Some(url_href(s))
        } else {
            None
        }
    } else {
        match abs_path_of(s, cwd) {
            Some(a) => if file_url_ok(a) {
                Some(file_url_of(a))
            } else {
                None
            },
            None => None,
        }
    }
}

/// Whether the text opens with a URI scheme.
fn detect_uri_scheme(s: &Vec<char>) -> (r: bool)
    ensures
        r == has_uri_scheme(s@),
{
    match find_char(s, ':') {
        Some(i) => {
            if i < 2 {
                return false;
            }
            let c0 = s[0];
            if !(('a' <= c0 && c0 <= 'z') || ('A' <= c0 && c0 <= 'Z')) {
                return false;
            }
            let mut j: usize = 1;
            while j < i
                invariant
                    1 <= j <= i < s@.len(),
                    first_at(s@, ':') == Some(i as int),
                    name_start_char(s@[0]),
                    forall|l: int| 1 <= l < j ==> scheme_char(s@[l]),
                decreases i - j,
            {
                let c = s[j];
                if !(('a' <= c && c <= 'z') || ('A' <= c && c <= 'Z') || ('0' <= c && c <= '9')
                    || c == '+' || c == '-' || c == '.') {
                    return false;
                }
                j = j + 1;
            }
            true
        },
        None => false,
    }
}

/// Resolve a specifier to a URL: text with a URI scheme parses as a URL,
/// anything else is taken as a filesystem path, made absolute against the
/// working directory when needed.
pub fn resolve_url_or_path(specifier: &str, cwd: Option<&str>) -> (r: Option<String>)
    ensures
        match r {
            Some(h) => resolve_spec(specifier@, opt_str_view(cwd)) == Some(h@),
            None => resolve_spec(specifier@, opt_str_view(cwd)) is None,
        },
{
    let sv = chars_of(specifier);
    if detect_uri_scheme(&sv) {
        match parse_url(specifier) {
            Some(parts) => Some(parts.href),
            None => None,
        }
    } else {
        if sv.len() > 0 && sv[0] == '/' {
            path_to_file_url(specifier)
        } else {
            match cwd {
                Some(c) => {
                    let mut abs = c.to_owned();
                    abs.append("/");
                    abs.append(specifier);
                    proof {
                        reveal_strlit("/");
                        assert(abs@ =~= c@ + seq!['/'] + specifier@);
                    }
                    path_to_file_url(abs.as_str())
                },
                None => None,
            }
        }
    }
}

// ---------------------------------------------------------------------------
// Root resolution.
// ---------------------------------------------------------------------------

/// The name of the home directory variable on this platform.
pub open spec fn home_var_name(platform: Platform) -> Seq<char> {
    if platform is Windows {
        "USERPROFILE"@
    } else {
        "HOME"@
    }
}

/// The installation root the environment yields: the non-empty root
/// override, else the home directory with `/.deno`; nothing without a home.
pub open spec fn env_root_spec(env: Env, platform: Platform) -> Option<Seq<char>> {
    if env.install_root is Some && env.install_root->0@.len() > 0 {
        Some(env.install_root->0@)
    } else if env.home is Some {
        Some(env.home->0@ + "/.deno"@)
    } else {
        None
    }
}

/// The installation root an install resolves: an explicit root wins, then
/// the environment's.
pub open spec fn root_spec(explicit: Option<Seq<char>>, env: Env, platform: Platform) -> Option<
    Seq<char>,
> {
    if explicit is Some {
        Some(explicit->0)
    } else {
        env_root_spec(env, platform)
    }
}

/// Resolve the installation root from the environment alone.
pub fn get_installer_root(env: &Env, platform: Platform) -> (r: Result<String, InstallerError>)
    ensures
        match r {
            Ok(p) => env_root_spec(*env, platform) == Some(p@),
            Err(e) => env_root_spec(*env, platform) is None && (e
                matches InstallerError::HomeNotDefined { var } && var@ == home_var_name(platform)),
        },
{
    if let Some(dir) = &env.install_root {
        if dir.as_str().unicode_len() > 0 {
            return Ok(dir.clone());
        }
    }
    match &env.home {
        Some(h) => {
            let mut root = h.clone();
            root.append("/.deno");
            Ok(root)
        },
        None => {
            let var = if matches!(platform, Platform::Windows) {
                "USERPROFILE".to_owned()
            } else {
                "HOME".to_owned()
            };
            Err(InstallerError::HomeNotDefined { var })
        },
    }
}

// ---------------------------------------------------------------------------
// The argument vector, section by section, in its fixed order.
// ---------------------------------------------------------------------------

/// The verbosity flags a log level expands to.
pub open spec fn level_args(l: LogLevel) -> Seq<Seq<char>> {
    match l {
        LogLevel::Error => seq!["--quiet"@],
        LogLevel::Debug => seq!["--log-level"@, "debug"@],
        LogLevel::Info => seq!["--log-level"@, "info"@],
        _ => Seq::empty(),
    }
}

/// A level the vector cannot express.
pub open spec fn bad_log_level(f: Flags) -> bool {
    f.log_level matches Some(LogLevel::Warn) || f.log_level matches Some(LogLevel::Trace)
}

/// The display text of a log level.
pub open spec fn log_level_text(l: LogLevel) -> Seq<char> {
    match l {
        LogLevel::Trace => "TRACE"@,
        LogLevel::Debug => "DEBUG"@,
        LogLevel::Info => "INFO"@,
        LogLevel::Warn => "WARN"@,
        LogLevel::Error => "ERROR"@,
    }
}

/// The verbosity section of the vector.
pub open spec fn log_args(f: Flags) -> Seq<Seq<char>> {
    match f.log_level {
        Some(l) => level_args(l),
        None => Seq::empty(),
    }
}

/// The type-check section.
pub open spec fn check_args(f: Flags) -> Seq<Seq<char>> {
    match f.type_check_mode {
        TypeCheckMode::All => seq!["--check=all"@],
        TypeCheckMode::NoCheck => Seq::empty(),
        TypeCheckMode::Local => seq!["--check"@],
    }
}

/// A flag present exactly when its toggle is on.
pub open spec fn toggle_arg(b: bool, s: Seq<char>) -> Seq<Seq<char>> {
    if b {
        seq![s]
    } else {
        Seq::empty()
    }
}

/// The feature toggles, in fixed order.
#[verifier::opaque]
pub open spec fn toggles_args(f: Flags, no_prompt_env: bool) -> Seq<Seq<char>> {
    toggle_arg(f.unstable, "--unstable"@) + toggle_arg(f.no_remote, "--no-remote"@) + toggle_arg(
        f.no_npm,
        "--no-npm"@,
    ) + toggle_arg(f.lock_write, "--lock-write"@) + toggle_arg(f.cached_only, "--cached-only"@)
        + toggle_arg(f.no_prompt || no_prompt_env, "--no-prompt"@)
}

/// The location override section.
pub open spec fn location_args(f: Flags) -> Seq<Seq<char>> {
    match f.location {
        Some(u) => seq!["--location"@, u@],
        None => Seq::empty(),
    }
}

/// The certificate section: only a file-based authority is forwarded.
pub open spec fn ca_args(f: Flags) -> Seq<Seq<char>> {
    match f.ca_data {
        Some(CaData::File(p)) => seq!["--cert"@, p@],
        _ => Seq::empty(),
    }
}

/// The passthrough engine flags, joined into one combined flag.
pub open spec fn v8_args(f: Flags) -> Seq<Seq<char>> {
    if f.v8_flags@.len() > 0 {
        seq!["--v8-flags="@ + join_char(f.v8_flags.deep_view(), ',')]
    } else {
        Seq::empty()
    }
}

/// The deterministic-seed section.
pub open spec fn seed_args(f: Flags) -> Seq<Seq<char>> {
    match f.seed {
        Some(n) => seq!["--seed"@, dec_str(n as nat)],
        None => Seq::empty(),
    }
}

/// The inspector sections.
pub open spec fn inspect_args(f: Flags) -> Seq<Seq<char>> {
    (match f.inspect {
        Some(h) => seq!["--inspect="@ + h@],
        None => Seq::empty(),
    }) + (match f.inspect_brk {
        Some(h) => seq!["--inspect-brk="@ + h@],
        None => Seq::empty(),
    })
}

/// The import-map section, with the path resolved to a URL.
pub open spec fn import_map_args(f: Flags, cwd: Option<Seq<char>>) -> Seq<Seq<char>> {
    match f.import_map_path {
        Some(p) => seq!["--import-map"@, resolve_spec(p@, cwd)->0],
        None => Seq::empty(),
    }
}

/// The config section: an explicit config is pinned into a hidden side file
/// beside the shim, anything else turns config discovery off.
pub open spec fn config_args(f: Flags, fp: Seq<char>) -> Seq<Seq<char>> {
    match f.config_flag {
        ConfigFlag::Path(_) => seq!["--config"@, hidden_file_with_ext(fp, "deno.json"@)],
        ConfigFlag::Discover => seq!["--no-config"@],
    }
}

/// Whether a lock side file is pinned: an explicit lock, or a package
/// reference, unless locking is off.
pub open spec fn lock_needed(f: Flags, href: Seq<char>) -> bool {
    !f.no_lock && (f.lock is Some || npm_parse(href) is Some)
}

/// The lock section.
pub open spec fn lock_args(f: Flags, fp: Seq<char>, href: Seq<char>) -> Seq<Seq<char>> {
    if f.no_lock {
        seq!["--no-lock"@]
    } else if lock_needed(f, href) {
        seq!["--lock"@, hidden_file_with_ext(fp, "lock.json"@)]
    } else {
        Seq::empty()
    }
}

/// The whole argument vector, in its fixed order: the run directive, the
/// permission flags, each option section, the module URL, and the trailing
/// passthrough arguments.
pub open spec fn built_args(
    f: Flags,
    no_prompt_env: bool,
    cwd: Option<Seq<char>>,
    href: Seq<char>,
    fp: Seq<char>,
    trailing: Seq<Seq<char>>,
) -> Seq<Seq<char>> {
    seq!["run"@] + perm_args(f) + opts_args_a(f, no_prompt_env) + opts_args_b(f) + opts_args_c(
        f,
        cwd,
        fp,
        href,
    ) + seq![href] + trailing
}

/// The side files an install stages: the pinned config copy, then the
/// pinned lock copy (the literal empty object when no explicit lock exists).
pub open spec fn extras_spec(
    f: Flags,
    fsmap: Map<Seq<char>, (Seq<char>, bool)>,
    fp: Seq<char>,
    href: Seq<char>,
) -> Seq<(Seq<char>, Seq<char>)> {
    (match f.config_flag {
        ConfigFlag::Path(cp) => seq![(hidden_file_with_ext(fp, "deno.json"@), fsmap[cp@].0)],
        ConfigFlag::Discover => Seq::empty(),
    }) + (if f.no_lock {
        Seq::empty()
    } else {
        match f.lock {
            Some(lp) => seq![(hidden_file_with_ext(fp, "lock.json"@), fsmap[lp@].0)],
            None => if npm_parse(href) is Some {
                seq![(hidden_file_with_ext(fp, "lock.json"@), "{}"@)]
            } else {
                Seq::empty()
            },
        }
    })
}

// ---------------------------------------------------------------------------
// The outcome of resolving a shim descriptor.
// ---------------------------------------------------------------------------

/// What resolving a descriptor yields: the descriptor, or the first failure
/// in resolution order.
pub enum ResolveOutcome {
    NoRoot(Seq<char>),
    NoModule(Seq<char>),
    NoName,
    BadName(Seq<char>),
    BadLogLevel(Seq<char>),
    BadImportMap(Seq<char>),
    NoConfigFile(Seq<char>),
    NoLockFile(Seq<char>),
    Resolved(ShimView),
}

/// The working directory the environment provides.
pub open spec fn env_cwd(env: Env) -> Option<Seq<char>> {
    opt_string_view(env.cwd)
}

/// The redirect target the environment provides.
pub open spec fn env_redirect(env: Env) -> Option<Seq<char>> {
    opt_string_view(env.redirect)
}

/// The explicit config path, where one is set.
pub open spec fn config_missing(f: Flags, fsmap: Map<Seq<char>, (Seq<char>, bool)>) -> bool {
    match f.config_flag {
        ConfigFlag::Path(cp) => !fsmap.contains_key(cp@),
        ConfigFlag::Discover => false,
    }
}

/// The config path payload for a read failure.
pub open spec fn config_path_of(f: Flags) -> Seq<char> {
    match f.config_flag {
        ConfigFlag::Path(cp) => cp@,
        ConfigFlag::Discover => Seq::empty(),
    }
}

/// Whether the explicit lock file is named but absent.
pub open spec fn lock_missing(f: Flags, fsmap: Map<Seq<char>, (Seq<char>, bool)>) -> bool {
    !f.no_lock && (match f.lock {
        Some(lp) => !fsmap.contains_key(lp@),
        None => false,
    })
}

/// The outcome once root, module URL and a valid name stand: the first
/// argument-building failure, or the finished descriptor.
#[verifier::opaque]
pub open spec fn args_outcome(
    f: Flags,
    iflags: InstallFlags,
    env: Env,
    fsmap: Map<Seq<char>, (Seq<char>, bool)>,
    name: Seq<char>,
    dir: Seq<char>,
    fp: Seq<char>,
    href: Seq<char>,
) -> ResolveOutcome {
    if bad_log_level(f) {
        ResolveOutcome::BadLogLevel(log_level_text(f.log_level->0))
    } else if f.import_map_path is Some && resolve_spec(f.import_map_path->0@, env_cwd(env))
        is None {
        ResolveOutcome::BadImportMap(f.import_map_path->0@)
    } else if config_missing(f, fsmap) {
        ResolveOutcome::NoConfigFile(config_path_of(f))
    } else if lock_missing(f, fsmap) {
        ResolveOutcome::NoLockFile(f.lock->0@)
    } else {
        ResolveOutcome::Resolved(
            ShimView {
                name: name,
                installation_dir: dir,
                file_path: fp,
                args: built_args(
                    f,
                    env.no_prompt_env,
                    env_cwd(env),
                    href,
                    fp,
                    argsv(iflags.args),
                ),
                extra_files: extras_spec(f, fsmap, fp, href),
            },
        )
    }
}

/// How a shim descriptor resolves from a flag set, an install request, the
/// environment and the file store: each stage in order, stopping at the
/// first failure.
pub open spec fn resolve_outcome(
    f: Flags,
    iflags: InstallFlags,
    env: Env,
    fsmap: Map<Seq<char>, (Seq<char>, bool)>,
    platform: Platform,
) -> ResolveOutcome {
    match root_spec(opt_string_view(iflags.root), env, platform) {
        None => ResolveOutcome::NoRoot(home_var_name(platform)),
        Some(root) => {
            let dir = root + "/bin"@;
            match resolve_spec(iflags.module_url@, env_cwd(env)) {
                None => ResolveOutcome::NoModule(iflags.module_url@),
                Some(href) => {
                    let name_opt = match iflags.name {
                        Some(n) => Some(n@),
                        None => infer_url_spec(href, env_redirect(env)),
                    };
                    match name_opt {
                        None => ResolveOutcome::NoName,
                        Some(name) => {
                            if !valid_name(name) {
                                ResolveOutcome::BadName(name)
                            } else {
                                let fp0 = joined(dir, name);
                                let fp = if platform is Windows {
                                    with_extension_spec(fp0, "cmd"@)
                                } else {
                                    fp0
                                };
                                args_outcome(f, iflags, env, fsmap, name, dir, fp, href)
                            }
                        },
                    }
                },
            }
        },
    }
}

/// Whether the function result reports exactly the given outcome, error
/// payloads included.
pub open spec fn matches_outcome(r: Result<ShimData, InstallerError>, o: ResolveOutcome) -> bool {
    match o {
        ResolveOutcome::NoRoot(var) => r matches Err(InstallerError::HomeNotDefined { var: v })
            && v@ == var,
        ResolveOutcome::NoModule(sp) => r matches Err(
            InstallerError::ModuleResolveFailed { specifier },
        ) && specifier@ == sp,
        ResolveOutcome::NoName => r matches Err(InstallerError::NoNameInferred),
        ResolveOutcome::BadName(nm) => r matches Err(InstallerError::InvalidName { name }) && name@
            == nm,
        ResolveOutcome::BadLogLevel(t) => r matches Err(InstallerError::InvalidLogLevel { level })
            && level@ == t,
        ResolveOutcome::BadImportMap(p) => r matches Err(
            InstallerError::ImportMapResolveFailed { path },
        ) && path@ == p,
        ResolveOutcome::NoConfigFile(p) => r matches Err(InstallerError::ConfigReadFailed { path })
            && path@ == p,
        ResolveOutcome::NoLockFile(p) => r matches Err(InstallerError::LockReadFailed { path })
            && path@ == p,
        ResolveOutcome::Resolved(sv) => r matches Ok(sd) && sd.name@ == sv.name
            && sd.installation_dir@ == sv.installation_dir && sd.file_path@ == sv.file_path
            && argsv(sd.args) == sv.args && extrasv(sd.extra_files) == sv.extra_files,
    }
}

// ---------------------------------------------------------------------------
// Building the descriptor.
// ---------------------------------------------------------------------------

/// Append a literal argument.
fn push_lit(args: &mut Vec<String>, s: &str)
    ensures
        argsv(*final(args)) == argsv(*old(args)) + seq![s@],
{
    args.push(s.to_owned());
    proof {
        reveal(argsv);
        assert(argsv(*args) =~= argsv(*old(args)) + seq![s@]);
    }
}

/// Append a computed argument.
fn push_string(args: &mut Vec<String>, s: String)
    ensures
        argsv(*final(args)) == argsv(*old(args)) + seq![s@],
{
    let ghost sv = s@;
    args.push(s);
    proof {
        reveal(argsv);
        assert(argsv(*args) =~= argsv(*old(args)) + seq![sv]);
    }
}

/// Stage one side file.
fn push_extra(extras: &mut Vec<(String, String)>, path: String, content: String)
    ensures
        extrasv(*final(extras)) == extrasv(*old(extras)) + seq![(path@, content@)],
{
    let ghost pv = path@;
    let ghost cv = content@;
    extras.push((path, content));
    proof {
        reveal(extrasv);
        assert(extrasv(*extras) =~= extrasv(*old(extras)) + seq![(pv, cv)]);
    }
}

/// Append a copy of every string in `src`.
fn append_strings(dst: &mut Vec<String>, src: &Vec<String>)
    ensures
        argsv(*final(dst)) == argsv(*old(dst)) + argsv(*src),
{
    proof {
        reveal(argsv);
    }
    let mut i: usize = 0;
    while i < src.len()
        invariant
            i <= src@.len(),
            argsv(*src).len() == src@.len(),
            argsv(*src) == src.deep_view(),
            argsv(*dst) == argsv(*old(dst)) + argsv(*src).take(i as int),
        decreases src@.len() - i,
    {
        proof {
            reveal(argsv);
        }
        let s = src[i].clone();
        let ghost sv = s@;
        let ghost prev_dv = dst.deep_view();
        let ghost prev_v = dst@;
        dst.push(s);
        proof {
            assert(src.deep_view()[i as int] == src@[i as int].deep_view());
            assert(sv == src.deep_view()[i as int]);
            assert(forall|j: int| 0 <= j < prev_v.len() ==> prev_dv[j] == prev_v[j].deep_view());
            assert(dst.deep_view() =~= prev_dv + seq![sv]);
            assert(src.deep_view().take(i + 1 as int) =~= src.deep_view().take(i as int).push(sv));
            assert(dst.deep_view() =~= old(dst).deep_view() + src.deep_view().take(i + 1 as int));
        }
        i = i + 1;
    }
    proof {
        reveal(argsv);
        assert(src.deep_view().take(src@.len() as int) =~= src.deep_view());
    }
}

/// The option sections between the permissions and the engine flags.
#[verifier::opaque]
pub open spec fn opts_args_a(f: Flags, no_prompt_env: bool) -> Seq<Seq<char>> {
    location_args(f) + ca_args(f) + log_args(f) + check_args(f) + toggles_args(f, no_prompt_env)
}

/// The engine-flag, seed and inspector sections.
#[verifier::opaque]
pub open spec fn opts_args_b(f: Flags) -> Seq<Seq<char>> {
    v8_args(f) + seed_args(f) + inspect_args(f)
}

/// The import-map, config and lock sections.
#[verifier::opaque]
pub open spec fn opts_args_c(f: Flags, cwd: Option<Seq<char>>, fp: Seq<char>, href: Seq<char>) -> Seq<
    Seq<char>,
> {
    import_map_args(f, cwd) + config_args(f, fp) + lock_args(f, fp, href)
}

/// Whether the import map is named but does not resolve.
pub open spec fn import_map_missing(f: Flags, cwd: Option<Seq<char>>) -> bool {
    f.import_map_path is Some && resolve_spec(f.import_map_path->0@, cwd) is None
}

/// Concatenating the empty sequence on the right changes nothing.
proof fn lemma_seq_add_empty<A>(x: Seq<A>)
    ensures
        x + Seq::<A>::empty() == x,
{
    assert(x + Seq::<A>::empty() =~= x);
}

/// Concatenating the empty sequence on the left changes nothing.
proof fn lemma_seq_empty_add<A>(x: Seq<A>)
    ensures
        Seq::<A>::empty() + x == x,
{
    assert(Seq::<A>::empty() + x =~= x);
}

/// Two appended singletons form one two-element tail.
proof fn lemma_seq_concat2<A>(x: Seq<A>, a: A, b: A)
    ensures
        x + seq![a] + seq![b] == x + seq![a, b],
{
    assert(x + seq![a] + seq![b] =~= x + seq![a, b]);
}

/// Regrouping two appended parts.
proof fn lemma_seq_group2<A>(x: Seq<A>, p1: Seq<A>, p2: Seq<A>)
    ensures
        x + p1 + p2 == x + (p1 + p2),
{
    assert(x + p1 + p2 =~= x + (p1 + p2));
}

/// Regrouping three appended parts.
proof fn lemma_seq_group3<A>(x: Seq<A>, p1: Seq<A>, p2: Seq<A>, p3: Seq<A>)
    ensures
        x + p1 + p2 + p3 == x + (p1 + p2 + p3),
{
    assert(x + p1 + p2 + p3 =~= x + (p1 + p2 + p3));
}

/// Regrouping five appended parts.
proof fn lemma_seq_group5<A>(x: Seq<A>, p1: Seq<A>, p2: Seq<A>, p3: Seq<A>, p4: Seq<A>, p5: Seq<A>)
    ensures
        x + p1 + p2 + p3 + p4 + p5 == x + (p1 + p2 + p3 + p4 + p5),
{
    assert(x + p1 + p2 + p3 + p4 + p5 =~= x + (p1 + p2 + p3 + p4 + p5));
}

/// Regrouping six appended parts.
proof fn lemma_seq_group6<A>(
    x: Seq<A>,
    p1: Seq<A>,
    p2: Seq<A>,
    p3: Seq<A>,
    p4: Seq<A>,
    p5: Seq<A>,
    p6: Seq<A>,
)
    ensures
        x + p1 + p2 + p3 + p4 + p5 + p6 == x + (p1 + p2 + p3 + p4 + p5 + p6),
{
    assert(x + p1 + p2 + p3 + p4 + p5 + p6 =~= x + (p1 + p2 + p3 + p4 + p5 + p6));
}


/// Append the feature toggles in their fixed order.
fn push_toggles(args: &mut Vec<String>, flags: &Flags, no_prompt_env: bool)
    ensures
        argsv(*final(args)) == argsv(*old(args)) + toggles_args(*flags, no_prompt_env),
{
    let ghost f = *flags;
    let ghost a4 = argsv(*old(args));
    if flags.unstable {
        push_lit(args, "--unstable");
    } else {
        proof {
            lemma_seq_add_empty(a4);
        }
    }
    let ghost t1 = a4 + toggle_arg(f.unstable, "--unstable"@);
    proof {
        assert(argsv(*args) == t1);
    }
    if flags.no_remote {
        push_lit(args, "--no-remote");
    } else {
        proof {
            lemma_seq_add_empty(t1);
        }
    }
    let ghost t2 = t1 + toggle_arg(f.no_remote, "--no-remote"@);
    proof {
        assert(argsv(*args) == t2);
    }
    if flags.no_npm {
        push_lit(args, "--no-npm");
    } else {
        proof {
            lemma_seq_add_empty(t2);
        }
    }
    let ghost t3 = t2 + toggle_arg(f.no_npm, "--no-npm"@);
    proof {
        assert(argsv(*args) == t3);
    }
    if flags.lock_write {
        push_lit(args, "--lock-write");
    } else {
        proof {
            lemma_seq_add_empty(t3);
        }
    }
    let ghost t4 = t3 + toggle_arg(f.lock_write, "--lock-write"@);
    proof {
        assert(argsv(*args) == t4);
    }
    if flags.cached_only {
        push_lit(args, "--cached-only");
    } else {
        proof {
            lemma_seq_add_empty(t4);
        }
    }
    let ghost t5 = t4 + toggle_arg(f.cached_only, "--cached-only"@);
    proof {
        assert(argsv(*args) == t5);
    }
    if flags.resolve_no_prompt(no_prompt_env) {
        push_lit(args, "--no-prompt");
    } else {
        proof {
            lemma_seq_add_empty(t5);
        }
    }
    let ghost t6 = t5 + toggle_arg(f.no_prompt || no_prompt_env, "--no-prompt"@);
    proof {
        reveal(toggles_args);
        assert(argsv(*args) == t6);
        lemma_seq_group6(
            a4,
            toggle_arg(f.unstable, "--unstable"@),
            toggle_arg(f.no_remote, "--no-remote"@),
            toggle_arg(f.no_npm, "--no-npm"@),
            toggle_arg(f.lock_write, "--lock-write"@),
            toggle_arg(f.cached_only, "--cached-only"@),
            toggle_arg(f.no_prompt || no_prompt_env, "--no-prompt"@),
        );
        assert(argsv(*args) == a4 + toggles_args(f, no_prompt_env));
    }
}

/// Append the location, certificate, verbosity, type-check and toggle
/// sections; an inexpressible log level aborts.
#[verifier::rlimit(100)]
fn push_args_a(args: &mut Vec<String>, flags: &Flags, no_prompt_env: bool) -> (r: Result<
    (),
    InstallerError,
>)
    ensures
        match r {
            Ok(_) => !bad_log_level(*flags) && argsv(*final(args)) == argsv(*old(args))
                + opts_args_a(*flags, no_prompt_env),
            Err(e) => bad_log_level(*flags) && (e matches InstallerError::InvalidLogLevel { level }
                && level@ == log_level_text(flags.log_level->0)),
        },
{
    let ghost f = *flags;
    let ghost a0 = argsv(*old(args));
    if let Some(u) = &flags.location {
        push_lit(args, "--location");
        push_string(args, u.clone());
        proof {
            lemma_seq_concat2(a0, "--location"@, u@);
        }
    } else {
        proof {
            lemma_seq_add_empty(a0);
        }
    }
    let ghost a1 = a0 + location_args(f);
    proof {
        assert(argsv(*args) == a1);
    }
    if let Some(CaData::File(ca_file)) = &flags.ca_data {
        push_lit(args, "--cert");
        push_string(args, ca_file.clone());
        proof {
            lemma_seq_concat2(a1, "--cert"@, ca_file@);
        }
    } else {
        proof {
            lemma_seq_add_empty(a1);
        }
    }
    let ghost a2 = a1 + ca_args(f);
    proof {
        assert(argsv(*args) == a2);
    }
    match &flags.log_level {
        Some(level) => match level {
            LogLevel::Error => push_lit(args, "--quiet"),
            LogLevel::Debug => {
                push_lit(args, "--log-level");
                push_lit(args, "debug");
                proof {
                    lemma_seq_concat2(a2, "--log-level"@, "debug"@);
                }
            },
            LogLevel::Info => {
                push_lit(args, "--log-level");
                push_lit(args, "info");
                proof {
                    lemma_seq_concat2(a2, "--log-level"@, "info"@);
                }
            },
            LogLevel::Warn => {
                return Err(InstallerError::InvalidLogLevel { level: "WARN".to_owned() });
            },
            LogLevel::Trace => {
                return Err(InstallerError::InvalidLogLevel { level: "TRACE".to_owned() });
            },
        },
        None => {
            proof {
                lemma_seq_add_empty(a2);
            }
        },
    }
    let ghost a3 = a2 + log_args(f);
    proof {
        assert(argsv(*args) == a3);
    }
    match flags.type_check_mode {
        TypeCheckMode::All => push_lit(args, "--check=all"),
        TypeCheckMode::NoCheck => {
            proof {
                lemma_seq_add_empty(a3);
            }
        },
        TypeCheckMode::Local => push_lit(args, "--check"),
    }
    let ghost a4 = a3 + check_args(f);
    proof {
        assert(argsv(*args) == a4);
    }
    push_toggles(args, flags, no_prompt_env);
    proof {
        reveal(opts_args_a);
        lemma_seq_group5(
            a0,
            location_args(f),
            ca_args(f),
            log_args(f),
            check_args(f),
            toggles_args(f, no_prompt_env),
        );
        assert(argsv(*args) == a0 + opts_args_a(f, no_prompt_env));
    }
    Ok(())
}

/// Append the engine-flag, seed and inspector sections.
fn push_args_b(args: &mut Vec<String>, flags: &Flags)
    ensures
        argsv(*final(args)) == argsv(*old(args)) + opts_args_b(*flags),
{
    let ghost f = *flags;
    let ghost a0 = argsv(*old(args));
    if flags.v8_flags.len() > 0 {
        let mut combined = "--v8-flags=".to_owned();
        let joined_flags = crate::flags::join_strings(&flags.v8_flags, ',');
        combined.append(string_from_chars(&joined_flags).as_str());
        push_string(args, combined);
    } else {
        proof {
            assert(f.v8_flags@.len() == 0);
            lemma_seq_add_empty(a0);
        }
    }
    let ghost a1 = a0 + v8_args(f);
    proof {
        assert(argsv(*args) == a1);
    }
    if let Some(seed) = &flags.seed {
        push_lit(args, "--seed");
        push_string(args, u64_to_string(*seed));
        proof {
            lemma_seq_concat2(a1, "--seed"@, dec_str(*seed as nat));
        }
    } else {
        proof {
            lemma_seq_add_empty(a1);
        }
    }
    let ghost a2 = a1 + seed_args(f);
    proof {
        assert(argsv(*args) == a2);
    }
    if let Some(host) = &flags.inspect {
        let mut s = "--inspect=".to_owned();
        s.append(host.as_str());
        push_string(args, s);
    } else {
        proof {
            lemma_seq_add_empty(a2);
        }
    }
    let ghost i1 = a2 + (match f.inspect {
        Some(h) => seq!["--inspect="@ + h@],
        None => Seq::<Seq<char>>::empty(),
    });
    proof {
        assert(argsv(*args) == i1);
    }
    if let Some(host) = &flags.inspect_brk {
        let mut s = "--inspect-brk=".to_owned();
        s.append(host.as_str());
        push_string(args, s);
    } else {
        proof {
            lemma_seq_add_empty(i1);
        }
    }
    proof {
        let insp1 = (match f.inspect {
            Some(h) => seq!["--inspect="@ + h@],
            None => Seq::<Seq<char>>::empty(),
        });
        let insp2 = (match f.inspect_brk {
            Some(h) => seq!["--inspect-brk="@ + h@],
            None => Seq::<Seq<char>>::empty(),
        });
        assert(argsv(*args) == i1 + insp2);
        lemma_seq_group2(a2, insp1, insp2);
        assert(argsv(*args) == a2 + inspect_args(f));
        reveal(opts_args_b);
        lemma_seq_group3(a0, v8_args(f), seed_args(f), inspect_args(f));
        assert(argsv(*args) == a0 + opts_args_b(f));
    }
}

/// Append the import-map, config and lock sections, staging the side files;
/// a missing import map, config or lock source aborts, in that order.
fn push_args_c(
    args: &mut Vec<String>,
    extra_files: &mut Vec<(String, String)>,
    flags: &Flags,
    env: &Env,
    fsys: &FileSys,
    fpv: &Vec<char>,
    hrefv: &Vec<char>,
) -> (r: Result<(), InstallerError>)
    requires
        fsys.wf(),
        old(extra_files)@.len() == 0,
    ensures
        match r {
            Ok(_) => !import_map_missing(*flags, env_cwd(*env)) && !config_missing(*flags, fsys@)
                && !lock_missing(*flags, fsys@) && argsv(*final(args)) == argsv(*old(args))
                + opts_args_c(*flags, env_cwd(*env), fpv@, hrefv@) && extrasv(*final(extra_files))
                == extras_spec(*flags, fsys@, fpv@, hrefv@),
            Err(e) => (if import_map_missing(*flags, env_cwd(*env)) {
                e matches InstallerError::ImportMapResolveFailed { path } && path@
                    == flags.import_map_path->0@
            } else if config_missing(*flags, fsys@) {
                e matches InstallerError::ConfigReadFailed { path } && path@ == config_path_of(
                    *flags,
                )
            } else {
                lock_missing(*flags, fsys@) && (e matches InstallerError::LockReadFailed { path }
                    && path@ == flags.lock->0@)
            }),
        },
{
    let ghost f = *flags;
    let ghost fp = fpv@;
    let ghost href = hrefv@;
    let ghost cwd = env_cwd(*env);
    let cwd_ref: Option<&str> = match &env.cwd {
        Some(c) => Some(c.as_str()),
        None => None,
    };
    proof {
        assert(opt_str_view(cwd_ref) == env_cwd(*env));
    }
    let ghost a0 = argsv(*old(args));
    let ghost e0 = extrasv(*old(extra_files));
    proof {
        reveal(extrasv);
        assert(e0 =~= Seq::<(Seq<char>, Seq<char>)>::empty());
    }
    if let Some(import_map_path) = &flags.import_map_path {
        match resolve_url_or_path(import_map_path.as_str(), cwd_ref) {
            Some(h) => {
                push_lit(args, "--import-map");
                let ghost hv = h@;
                push_string(args, h);
                proof {
                    lemma_seq_concat2(a0, "--import-map"@, hv);
                }
            },
            None => {
                return Err(
                    InstallerError::ImportMapResolveFailed { path: import_map_path.clone() },
                );
            },
        }
    } else {
        proof {
            lemma_seq_add_empty(a0);
        }
    }
    let ghost a1 = a0 + import_map_args(f, cwd);
    proof {
        assert(argsv(*args) == a1);
    }
    match &flags.config_flag {
        ConfigFlag::Path(config_path) => {
            let ext = chars_of("deno.json");
            let copyv = hidden_path_vec(fpv, &ext);
            let copy_path = string_from_chars(&copyv);
            push_lit(args, "--config");
            push_string(args, copy_path.clone());
            proof {
                lemma_seq_concat2(a1, "--config"@, hidden_file_with_ext(fp, "deno.json"@));
            }
            match fsys.read(config_path.as_str()) {
                Some(content) => {
                    push_extra(extra_files, copy_path, content);
                    proof {
                        lemma_seq_empty_add(extrasv(*extra_files));
                    }
                },
                None => {
                    return Err(InstallerError::ConfigReadFailed { path: config_path.clone() });
                },
            }
        },
        ConfigFlag::Discover => {
            push_lit(args, "--no-config");
        },
    }
    let ghost a2 = a1 + config_args(f, fp);
    let ghost ec = (match f.config_flag {
        ConfigFlag::Path(cp) => seq![(hidden_file_with_ext(fp, "deno.json"@), fsys@[cp@].0)],
        ConfigFlag::Discover => Seq::<(Seq<char>, Seq<char>)>::empty(),
    });
    proof {
        assert(argsv(*args) == a2);
        lemma_seq_empty_add(ec);
        assert(extrasv(*extra_files) == ec);
    }
    if flags.no_lock {
        push_lit(args, "--no-lock");
        proof {
            lemma_seq_add_empty(ec);
        }
    } else {
        let is_pkg = match parse_package_ref(hrefv) {
            Some(_) => true,
            None => false,
        };
        if flags.lock.is_some() || is_pkg {
            let ext = chars_of("lock.json");
            let copyv = hidden_path_vec(fpv, &ext);
            let copy_path = string_from_chars(&copyv);
            push_lit(args, "--lock");
            push_string(args, copy_path.clone());
            proof {
                lemma_seq_concat2(a2, "--lock"@, hidden_file_with_ext(fp, "lock.json"@));
            }
            match &flags.lock {
                Some(lock_path) => {
                    match fsys.read(lock_path.as_str()) {
                        Some(content) => {
                            push_extra(extra_files, copy_path, content);
                        },
                        None => {
                            return Err(
                                InstallerError::LockReadFailed { path: lock_path.clone() },
                            );
                        },
                    }
                },
                None => {
                    push_extra(extra_files, copy_path, "{}".to_owned());
                },
            }
        } else {
            proof {
                lemma_seq_add_empty(a2);
                lemma_seq_add_empty(ec);
            }
        }
    }
    proof {
        assert(argsv(*args) == a2 + lock_args(f, fp, href));
        assert(extrasv(*extra_files) == extras_spec(f, fsys@, fp, href));
        reveal(opts_args_c);
        lemma_seq_group3(a0, import_map_args(f, cwd), config_args(f, fp), lock_args(f, fp, href));
        assert(argsv(*args) == a0 + opts_args_c(f, cwd, fp, href));
    }
    Ok(())
}

/// Whether the pair result reports exactly the argument-stage outcome.
pub open spec fn matches_args_outcome(
    r: Result<(Vec<String>, Vec<(String, String)>), InstallerError>,
    o: ResolveOutcome,
) -> bool {
    match o {
        ResolveOutcome::BadLogLevel(t) => r matches Err(InstallerError::InvalidLogLevel { level })
            && level@ == t,
        ResolveOutcome::BadImportMap(p) => r matches Err(
            InstallerError::ImportMapResolveFailed { path },
        ) && path@ == p,
        ResolveOutcome::NoConfigFile(p) => r matches Err(InstallerError::ConfigReadFailed { path })
            && path@ == p,
        ResolveOutcome::NoLockFile(p) => r matches Err(InstallerError::LockReadFailed { path })
            && path@ == p,
        ResolveOutcome::Resolved(sv) => r matches Ok(p) && argsv(p.0) == sv.args && extrasv(p.1)
            == sv.extra_files,
        _ => false,
    }
}

/// Build the argument vector and the staged side files for a resolved shim
/// path and module URL.
#[verifier::rlimit(100)]
fn build_shim_args(
    flags: &Flags,
    install_flags: &InstallFlags,
    env: &Env,
    fsys: &FileSys,
    fpv: &Vec<char>,
    module_href: &String,
    Ghost(g_name): Ghost<Seq<char>>,
    Ghost(g_dir): Ghost<Seq<char>>,
) -> (r: Result<(Vec<String>, Vec<(String, String)>), InstallerError>)
    requires
        fsys.wf(),
    ensures
        matches_args_outcome(
            r,
            args_outcome(*flags, *install_flags, *env, fsys@, g_name, g_dir, fpv@, module_href@),
        ),
{
    let ghost f = *flags;
    let ghost fp = fpv@;
    let ghost href = module_href@;
    let ghost cwd = env_cwd(*env);
    let ghost npe = env.no_prompt_env;
    let hrefv = chars_of(module_href.as_str());
    let mut args: Vec<String> = Vec::new();
    let mut extra_files: Vec<(String, String)> = Vec::new();
    proof {
        reveal(argsv);
        assert(argsv(args) =~= Seq::<Seq<char>>::empty());
        lemma_seq_empty_add(seq!["run"@]);
    }
    push_lit(&mut args, "run");
    let ghost a1: Seq<Seq<char>> = seq!["run"@];
    proof {
        assert(argsv(args) == a1);
    }
    let perms = flags.to_permission_args();
    append_strings(&mut args, &perms);
    let ghost a2 = a1 + perm_args(f);
    proof {
        assert(argsv(args) == a2);
    }
    match push_args_a(&mut args, flags, env.no_prompt_env) {
        Ok(_) => {},
        Err(e) => {
            proof {
                reveal(args_outcome);
            }
            return Err(e);
        },
    }
    let ghost a3 = a2 + opts_args_a(f, npe);
    push_args_b(&mut args, flags);
    let ghost a4 = a3 + opts_args_b(f);
    match push_args_c(&mut args, &mut extra_files, flags, env, fsys, fpv, &hrefv) {
        Ok(_) => {},
        Err(e) => {
            proof {
                reveal(args_outcome);
            }
            return Err(e);
        },
    }
    let ghost a5 = a4 + opts_args_c(f, cwd, fp, href);
    push_string(&mut args, module_href.clone());
    let ghost a6 = a5 + seq![href];
    append_strings(&mut args, &install_flags.args);
    proof {
        reveal(args_outcome);
        assert(argsv(args) == a6 + argsv(install_flags.args));
        assert(built_args(f, npe, cwd, href, fp, argsv(install_flags.args)) == a6 + argsv(
            install_flags.args,
        ));
        assert(argsv(args) == built_args(f, npe, cwd, href, fp, argsv(install_flags.args)));
    }
    Ok((args, extra_files))
}

/// Resolve the full shim descriptor: root and directory, module URL, name,
/// shim path, the deterministic argument vector, and the staged side files.
/// Nothing is written; the descriptor carries the writes to come.
#[verifier::rlimit(100)]
pub fn resolve_shim_data(
    flags: &Flags,
    install_flags: &InstallFlags,
    env: &Env,
    fsys: &FileSys,
    platform: Platform,
) -> (r: Result<ShimData, InstallerError>)
    requires
        fsys.wf(),
    ensures
        matches_outcome(r, resolve_outcome(*flags, *install_flags, *env, fsys@, platform)),
{
    let root: String = match &install_flags.root {
        Some(rt) => rt.clone(),
        None => {
            match get_installer_root(env, platform) {
                Ok(rt) => rt,
                Err(e) => {
                    return Err(e);
                },
            }
        },
    };
    let mut dir = root.clone();
    dir.append("/bin");
    let cwd_ref: Option<&str> = match &env.cwd {
        Some(c) => Some(c.as_str()),
        None => None,
    };
    proof {
        assert(opt_str_view(cwd_ref) == env_cwd(*env));
    }
    let module_href: String = match resolve_url_or_path(install_flags.module_url.as_str(), cwd_ref)
        {
        Some(h) => h,
        None => {
            return Err(
                InstallerError::ModuleResolveFailed {
                    specifier: install_flags.module_url.clone(),
                },
            );
        },
    };
    let redirect_ref: Option<&str> = match &env.redirect {
        Some(t) => Some(t.as_str()),
        None => None,
    };
    proof {
        assert(opt_str_view(redirect_ref) == env_redirect(*env));
    }
    let name: String = match &install_flags.name {
        Some(n) => n.clone(),
        None => {
            match infer_name_from_url(module_href.as_str(), redirect_ref) {
                Some(n) => n,
                None => {
                    return Err(InstallerError::NoNameInferred);
                },
            }
        },
    };
    match validate_name(name.as_str()) {
        Ok(()) => {},
        Err(e) => {
            return Err(e);
        },
    }
    let dirv = chars_of(dir.as_str());
    let namev = chars_of(name.as_str());
    let mut fpv = join_path(&dirv, &namev);
    if matches!(platform, Platform::Windows) {
        let ext = chars_of("cmd");
        fpv = with_extension_vec(&fpv, &ext);
    }
    let file_path = string_from_chars(&fpv);
    proof {
        reveal(args_outcome);
    }
    match build_shim_args(
        flags,
        install_flags,
        env,
        fsys,
        &fpv,
        &module_href,
        Ghost(name@),
        Ghost(dir@),
    ) {
        Ok((args, extra_files)) => Ok(
            ShimData { name, installation_dir: dir, file_path, args, extra_files },
        ),
        Err(e) => Err(e),
    }
}

} // verus!
