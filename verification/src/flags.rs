//! The flag set an install request carries, and its expansion into
//! canonical permission arguments.

use vstd::prelude::*;
use vstd::string::StringExecFns;
use crate::strutil::string_from_chars;

verus! {

/// A certificate-authority source; only the file-based variant is forwarded
/// to the shim.
#[derive(Debug, Clone, PartialEq, Eq)]
pub enum CaData {
    File(String),
    Bytes(Vec<u8>),
}

/// How a config file is chosen.
#[derive(Debug, Clone, PartialEq, Eq)]
pub enum ConfigFlag {
    Discover,
    Path(String),
}

/// How much type checking the shim asks for.
#[derive(Debug, Clone, Copy, PartialEq, Eq, Structural)]
pub enum TypeCheckMode {
    All,
    NoCheck,
    Local,
}

/// Log verbosity carried by the flag set.
#[derive(Debug, Clone, Copy, PartialEq, Eq, Structural)]
pub enum LogLevel {
    Trace,
    Debug,
    Info,
    Warn,
    Error,
}

/// The platform the shim is rendered for.
#[derive(Debug, Clone, Copy, PartialEq, Eq, Structural)]
pub enum Platform {
    Posix,
    Windows,
}

/// The flag set reconstructed into the shim's argument vector.
#[derive(Debug, Clone, PartialEq, Eq)]
pub struct Flags {
    pub allow_all: bool,
    pub allow_read: Option<Vec<String>>,
    pub allow_net: Option<Vec<String>>,
    pub location: Option<String>,
    pub ca_data: Option<CaData>,
    pub log_level: Option<LogLevel>,
    pub type_check_mode: TypeCheckMode,
    pub unstable: bool,
    pub no_remote: bool,
    pub no_npm: bool,
    pub lock_write: bool,
    pub cached_only: bool,
    pub no_prompt: bool,
    pub v8_flags: Vec<String>,
    pub seed: Option<u64>,
    pub inspect: Option<String>,
    pub inspect_brk: Option<String>,
    pub import_map_path: Option<String>,
    pub config_flag: ConfigFlag,
    pub no_lock: bool,
    pub lock: Option<String>,
}

impl Default for Flags {
    /// The empty flag set.
    fn default() -> (r: Flags)
        ensures
            r.allow_all == false,
            r.allow_read is None,
            r.allow_net is None,
            r.location is None,
            r.ca_data is None,
            r.log_level is None,
            r.type_check_mode == TypeCheckMode::NoCheck,
            r.unstable == false,
            r.no_remote == false,
            r.no_npm == false,
            r.lock_write == false,
            r.cached_only == false,
            r.no_prompt == false,
            r.v8_flags@ == Seq::<String>::empty(),
            r.seed is None,
            r.inspect is None,
            r.inspect_brk is None,
            r.import_map_path is None,
            r.config_flag == ConfigFlag::Discover,
            r.no_lock == false,
            r.lock is None,
    {
        Flags {
            allow_all: false,
            allow_read: None,
            allow_net: None,
            location: None,
            ca_data: None,
            log_level: None,
            type_check_mode: TypeCheckMode::NoCheck,
            unstable: false,
            no_remote: false,
            no_npm: false,
            lock_write: false,
            cached_only: false,
            no_prompt: false,
            v8_flags: Vec::new(),
            seed: None,
            inspect: None,
            inspect_brk: None,
            import_map_path: None,
            config_flag: ConfigFlag::Discover,
            no_lock: false,
            lock: None,
        }
    }
}

/// The texts of a vector of argument strings. Kept opaque so argument
/// chains reason by the contracts of the push helpers alone.
#[verifier::opaque]
pub open spec fn argsv(v: Vec<String>) -> Seq<Seq<char>> {
    v.deep_view()
}

/// The path-and-content pairs of a vector of staged side files, kept opaque
/// for the same reason.
#[verifier::opaque]
pub open spec fn extrasv(v: Vec<(String, String)>) -> Seq<(Seq<char>, Seq<char>)> {
    v.deep_view()
}

/// The separator-joined text of a list of strings.
pub open spec fn join_char(parts: Seq<Seq<char>>, sep: char) -> Seq<char>
    decreases parts.len(),
{
    if parts.len() == 0 {
        Seq::empty()
    } else if parts.len() == 1 {
        parts[0]
    } else {
        join_char(parts.drop_last(), sep) + seq![sep] + parts.last()
    }
}

/// Join the strings in `parts` with `sep`.
pub fn join_strings(parts: &Vec<String>, sep: char) -> (r: Vec<char>)
    ensures
        r@ == join_char(parts.deep_view(), sep),
{
    let mut r: Vec<char> = Vec::new();
    let mut i: usize = 0;
    while i < parts.len()
        invariant
            i <= parts@.len(),
            parts.deep_view().len() == parts@.len(),
            r@ == join_char(parts.deep_view().take(i as int), sep),
        decreases parts@.len() - i,
    {
        if i > 0 {
            r.push(sep);
        }
        crate::strutil::append_str(&mut r, parts[i].as_str());
        proof {
            let dv = parts.deep_view();
            assert(dv.take(i + 1 as int).drop_last() =~= dv.take(i as int));
            assert(dv.take(i + 1 as int).last() == dv[i as int]);
            assert(dv[i as int] == parts@[i as int]@);
        }
        i = i + 1;
    }
    proof {
        assert(parts.deep_view().take(parts@.len() as int) =~= parts.deep_view());
    }
    r
}

/// A permission flag such as `--allow-read`, with its value list appended
/// after `=` when the list is non-empty.
pub open spec fn allow_list_flag(prefix: Seq<char>, list: Seq<Seq<char>>) -> Seq<char> {
    if list.len() == 0 {
        prefix
    } else {
        prefix + seq!['='] + join_char(list, ',')
    }
}

/// The canonical permission arguments: `--allow-all` alone wins; otherwise
/// read then net, each with its optional value list.
pub open spec fn perm_args(f: Flags) -> Seq<Seq<char>> {
    if f.allow_all {
        seq!["--allow-all"@]
    } else {
        (match f.allow_read {
            Some(l) => seq![allow_list_flag("--allow-read"@, l.deep_view())],
            None => Seq::empty(),
        }) + (match f.allow_net {
            Some(l) => seq![allow_list_flag("--allow-net"@, l.deep_view())],
            None => Seq::empty(),
        })
    }
}

/// Build one permission flag string.
fn build_allow_flag(prefix: &str, list: &Vec<String>) -> (r: String)
    ensures
        r@ == allow_list_flag(prefix@, list.deep_view()),
{
    if list.len() == 0 {
        proof {
            assert(list.deep_view().len() == 0);
        }
        prefix.to_owned()
    } else {
        proof {
            assert(list.deep_view().len() == list@.len());
        }
        let mut s = prefix.to_owned();
        s.append("=");
        let joined = join_strings(list, ',');
        s.append(string_from_chars(&joined).as_str());
        proof {
            reveal_strlit("=");
            assert(s@ =~= allow_list_flag(prefix@, list.deep_view()));
        }
        s
    }
}

impl Flags {
    /// Expand the permission-related flags into their canonical ordered
    /// command-line form.
    pub fn to_permission_args(&self) -> (r: Vec<String>)
        ensures
            argsv(r) == perm_args(*self),
    {
        let mut r: Vec<String> = Vec::new();
        if self.allow_all {
            r.push("--allow-all".to_owned());
            proof {
                reveal(argsv);
                assert(argsv(r) =~= perm_args(*self));
            }
            return r;
        }
        if let Some(l) = &self.allow_read {
            r.push(build_allow_flag("--allow-read", l));
        }
        if let Some(l) = &self.allow_net {
            r.push(build_allow_flag("--allow-net", l));
        }
        proof {
            reveal(argsv);
            assert(argsv(r) =~= perm_args(*self));
        }
        r
    }

    /// The effective no-prompt policy: the explicit flag or the ambient
    /// environment toggle.
    pub fn resolve_no_prompt(&self, env_no_prompt: bool) -> (r: bool)
        ensures
            r == (self.no_prompt || env_no_prompt),
    {
        self.no_prompt || env_no_prompt
    }
}

} // verus!
