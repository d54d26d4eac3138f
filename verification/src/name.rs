//! Executable-name handling: validation of user-supplied names, parsing of
//! package-reference specifiers, and inference of a name from a module URL.

use vstd::prelude::*;
use crate::strutil::{
    first_at, last_at, lemma_first_at_is, lemma_first_at_none, find_char, subvec, chars_of,
    string_from_chars, eq_str,
};
use crate::paths::{path_file_name, path_parent_seg, stem_of, file_name_vec, parent_seg_vec, stem_vec};
use crate::urlwrap::{url_ok, url_href, url_path, parse_url, UrlParts};
use crate::errors::InstallerError;

verus! {

/// A name must open with an ASCII letter.
pub open spec fn name_start_char(c: char) -> bool {
    ('a' <= c && c <= 'z') || ('A' <= c && c <= 'Z')
}

/// After the first character: letters, digits, underscore or hyphen.
pub open spec fn name_tail_char(c: char) -> bool {
    name_start_char(c) || ('0' <= c && c <= '9') || c == '_' || c == '-'
}

/// The executable-name pattern: a letter, then letters, digits, `_` or `-`.
pub open spec fn valid_name(s: Seq<char>) -> bool {
    s.len() > 0 && name_start_char(s[0]) && forall|i: int|
        1 <= i < s.len() ==> name_tail_char(s[i])
}

/// Accept exactly the names that match the executable-name pattern.
pub fn validate_name(exec_name: &str) -> (r: Result<(), InstallerError>)
    ensures
        r is Ok <==> valid_name(exec_name@),
        r is Err ==> (r->Err_0 matches InstallerError::InvalidName { name } && name@
            == exec_name@),
{
    let v = chars_of(exec_name);
    if v.len() == 0 {
        return Err(InstallerError::InvalidName { name: exec_name.to_owned() });
    }
    let c0 = v[0];
    if !(('a' <= c0 && c0 <= 'z') || ('A' <= c0 && c0 <= 'Z')) {
        return Err(InstallerError::InvalidName { name: exec_name.to_owned() });
    }
    let mut i: usize = 1;
    while i < v.len()
        invariant
            1 <= i <= v@.len(),
            v@ == exec_name@,
            forall|j: int| 1 <= j < i ==> name_tail_char(v@[j]),
        decreases v@.len() - i,
    {
        let c = v[i];
        if !(('a' <= c && c <= 'z') || ('A' <= c && c <= 'Z') || ('0' <= c && c <= '9') || c == '_'
            || c == '-') {
            return Err(InstallerError::InvalidName { name: exec_name.to_owned() });
        }
        i = i + 1;
    }
    Ok(())
}

/// A name that does not open with a letter never validates; digits,
/// underscores and hyphens are rejected in first position.
pub proof fn law_name_needs_letter_start(s: Seq<char>)
    requires
        s.len() > 0,
        !name_start_char(s[0]),
    ensures
        !valid_name(s),
{
}

/// A name holding whitespace anywhere never validates.
pub proof fn law_name_rejects_whitespace(s: Seq<char>, i: int)
    requires
        0 <= i < s.len(),
        s[i] == ' ',
    ensures
        !valid_name(s),
{
}

// ---------------------------------------------------------------------------
// Package references: `npm:name[@version][/subpath]`.
// ---------------------------------------------------------------------------

/// Whether the text opens with the `npm:` scheme.
pub open spec fn npm_scheme(s: Seq<char>) -> bool {
    s.len() >= 4 && s[0] == 'n' && s[1] == 'p' && s[2] == 'm' && s[3] == ':'
}

/// The text after the scheme, one leading `/` tolerated.
pub open spec fn npm_rest(s: Seq<char>) -> Seq<char> {
    let r = s.skip(4);
    if r.len() > 0 && r[0] == '/' {
        r.skip(1)
    } else {
        r
    }
}

/// An empty subpath counts as no subpath.
pub open spec fn opt_nonempty(s: Seq<char>) -> Option<Seq<char>> {
    if s.len() == 0 {
        None
    } else {
        Some(s)
    }
}

/// Split the scheme-less text into the raw name part (two segments for a
/// scoped `@scope/name`, one otherwise) and the optional subpath after it.
/// A scoped reference without its second segment is rejected.
pub open spec fn npm_split(rest: Seq<char>) -> Option<(Seq<char>, Option<Seq<char>>)> {
    if rest.len() > 0 && rest[0] == '@' {
        match first_at(rest, '/') {
            Some(i) => {
                let tail = rest.skip(i + 1);
                match first_at(tail, '/') {
                    Some(j) => Some((rest.take(i + 1 + j), opt_nonempty(tail.skip(j + 1)))),
                    None => Some((rest, None)),
                }
            },
            None => None,
        }
    } else {
        match first_at(rest, '/') {
            Some(i) => Some((rest.take(i), opt_nonempty(rest.skip(i + 1)))),
            None => Some((rest, None)),
        }
    }
}

/// Drop an `@version` marker from the last segment of the raw name part.
pub open spec fn strip_version(raw: Seq<char>) -> Seq<char> {
    match first_at(raw, '/') {
        Some(i) => {
            let last = raw.skip(i + 1);
            match last_at(last, '@') {
                Some(j) => raw.take(i + 1 + j),
                None => raw,
            }
        },
        None => match last_at(raw, '@') {
            Some(j) => raw.take(j),
            None => raw,
        },
    }
}

/// Parse a package reference into its package name and optional subpath,
/// or nothing when the text is not a well-formed reference.
pub open spec fn npm_parse(href: Seq<char>) -> Option<(Seq<char>, Option<Seq<char>>)> {
    if !npm_scheme(href) {
        None
    } else {
        match npm_split(npm_rest(href)) {
            Some((raw, sub)) => {
                let name = strip_version(raw);
                if name.len() == 0 {
                    None
                } else {
                    Some((name, sub))
                }
            },
            None => None,
        }
    }
}

/// The name a package reference yields: a single-segment subpath wins, then
/// an unscoped package name; a scoped name with no usable subpath yields
/// nothing.
pub open spec fn npm_infer(name: Seq<char>, sub: Option<Seq<char>>) -> Option<Seq<char>> {
    if sub is Some && first_at(sub->0, '/') is None {
        Some(sub->0)
    } else if first_at(name, '/') is None {
        Some(name)
    } else {
        None
    }
}

/// A parsed package reference.
pub struct PackageRef {
    pub name: Vec<char>,
    pub sub_path: Option<Vec<char>>,
}

/// The view of an optional character vector.
pub open spec fn opt_vec_view(o: Option<Vec<char>>) -> Option<Seq<char>> {
    match o {
        Some(v) => Some(v@),
        None => None,
    }
}

/// Parse `href` as a package reference.
pub fn parse_package_ref(href: &Vec<char>) -> (r: Option<PackageRef>)
    ensures
        match r {
            Some(pr) => npm_parse(href@) == Some((pr.name@, opt_vec_view(pr.sub_path))),
            None => npm_parse(href@) is None,
        },
{
    let n = href.len();
    if !(n >= 4 && href[0] == 'n' && href[1] == 'p' && href[2] == 'm' && href[3] == ':') {
        return None;
    }
    let after = subvec(href, 4, n);
    proof {
        assert(after@ =~= href@.skip(4));
    }
    let rest = if after.len() > 0 && after[0] == '/' {
        let r = subvec(&after, 1, after.len());
        proof {
            assert(r@ =~= after@.skip(1));
        }
        r
    } else {
        after
    };
    proof {
        assert(rest@ == npm_rest(href@));
    }
    let split = split_name_part(&rest);
    match split {
        None => None,
        Some((raw, sub)) => {
            let name = strip_version_vec(&raw);
            if name.len() == 0 {
                None
            } else {
                Some(PackageRef { name, sub_path: sub })
            }
        },
    }
}

/// Split the scheme-less text as `npm_split` describes.
fn split_name_part(rest: &Vec<char>) -> (r: Option<(Vec<char>, Option<Vec<char>>)>)
    ensures
        match r {
            Some(p) => npm_split(rest@) == Some((p.0@, opt_vec_view(p.1))),
            None => npm_split(rest@) is None,
        },
{
    let n = rest.len();
    if n > 0 && rest[0] == '@' {
        match find_char(rest, '/') {
            Some(i) => {
                let tail = subvec(rest, i + 1, n);
                proof {
                    assert(tail@ =~= rest@.skip(i + 1));
                }
                match find_char(&tail, '/') {
                    Some(j) => {
                        let raw = subvec(rest, 0, i + 1 + j);
                        proof {
                            assert(raw@ =~= rest@.take(i + 1 + j));
                        }
                        let sp = subvec(&tail, j + 1, tail.len());
                        proof {
                            assert(sp@ =~= tail@.skip(j + 1));
                        }
                        if sp.len() == 0 {
                            Some((raw, None))
                        } else {
                            Some((raw, Some(sp)))
                        }
                    },
                    None => {
                        let raw = subvec(rest, 0, n);
                        proof {
                            assert(raw@ =~= rest@);
                        }
                        Some((raw, None))
                    },
                }
            },
            None => None,
        }
    } else {
        match find_char(rest, '/') {
            Some(i) => {
                let raw = subvec(rest, 0, i);
                proof {
                    assert(raw@ =~= rest@.take(i as int));
                }
                let sp = subvec(rest, i + 1, n);
                proof {
                    assert(sp@ =~= rest@.skip(i + 1));
                }
                if sp.len() == 0 {
                    Some((raw, None))
                } else {
                    Some((raw, Some(sp)))
                }
            },
            None => {
                let raw = subvec(rest, 0, n);
                proof {
                    assert(raw@ =~= rest@);
                }
                Some((raw, None))
            },
        }
    }
}

/// Drop the `@version` marker as `strip_version` describes.
fn strip_version_vec(raw: &Vec<char>) -> (r: Vec<char>)
    ensures
        r@ == strip_version(raw@),
{
    let n = raw.len();
    match find_char(raw, '/') {
        Some(i) => {
            let last = subvec(raw, i + 1, n);
            proof {
                assert(last@ =~= raw@.skip(i + 1));
            }
            match crate::strutil::rfind_char(&last, '@') {
                Some(j) => subvec(raw, 0, i + 1 + j),
                None => subvec(raw, 0, n),
            }
        },
        None => match crate::strutil::rfind_char(raw, '@') {
            Some(j) => subvec(raw, 0, j),
            None => subvec(raw, 0, n),
        },
    }
}

// ---------------------------------------------------------------------------
// Name inference from a URL.
// ---------------------------------------------------------------------------

/// The reserved generic stems that defer to the parent directory's name.
pub open spec fn reserved_stem(s: Seq<char>) -> bool {
    s == "main"@ || s == "mod"@ || s == "index"@ || s == "cli"@
}

/// A stem's `@suffix` version marker removed, unless the `@` opens the stem.
pub open spec fn truncate_at_version(s: Seq<char>) -> Seq<char> {
    match first_at(s, '@') {
        Some(i) => if i > 0 {
            s.take(i)
        } else {
            s
        },
        None => s,
    }
}

/// The name inferred from a URL path: the file stem, a reserved stem
/// replaced by the parent segment, then the version marker dropped.
pub open spec fn infer_from_path_spec(path: Seq<char>) -> Option<Seq<char>> {
    let f = path_file_name(path);
    if f.len() == 0 {
        None
    } else {
        let stem0 = stem_of(f);
        let par = path_parent_seg(path);
        let stem1 = if reserved_stem(stem0) && par.len() > 0 {
            par
        } else {
            stem0
        };
        Some(truncate_at_version(stem1))
    }
}

/// Infer a name from a URL path.
pub fn infer_from_path(path: &Vec<char>) -> (r: Option<Vec<char>>)
    ensures
        opt_vec_view(r) == infer_from_path_spec(path@),
{
    let f = file_name_vec(path);
    if f.len() == 0 {
        return None;
    }
    let stem0 = stem_vec(&f);
    let reserved = eq_str(&stem0, "main") || eq_str(&stem0, "mod") || eq_str(&stem0, "index")
        || eq_str(&stem0, "cli");
    let par = parent_seg_vec(path);
    let stem1 = if reserved && par.len() > 0 {
        par
    } else {
        stem0
    };
    match find_char(&stem1, '@') {
        Some(i) => if i > 0 {
            Some(subvec(&stem1, 0, i))
        } else {
            Some(stem1)
        },
        None => Some(stem1),
    }
}

/// The name inferred from a specifier: a package reference decides by its
/// name and subpath, anything else by its URL path.
pub open spec fn infer_spec(href: Seq<char>, path: Seq<char>) -> Option<Seq<char>> {
    match npm_parse(href) {
        Some((name, sub)) => npm_infer(name, sub),
        None => infer_from_path_spec(path),
    }
}

/// The view of an optional string slice.
pub open spec fn opt_str_view(o: Option<&str>) -> Option<Seq<char>> {
    match o {
        Some(s) => Some(s@),
        None => None,
    }
}

/// What `infer_name_from_url` returns: nothing for unparsable specifiers;
/// for a root-path URL the redirect target, when one was resolved, takes the
/// original's place.
pub open spec fn infer_url_spec(s: Seq<char>, redirect: Option<Seq<char>>) -> Option<Seq<char>> {
    if !url_ok(s) {
        None
    } else if url_path(s) == seq!['/'] && redirect is Some && url_ok(redirect->0) {
        infer_spec(url_href(redirect->0), url_path(redirect->0))
    } else {
        infer_spec(url_href(s), url_path(s))
    }
}

/// Whether name inference for this specifier would consult one redirect
/// first: exactly the parsable URLs whose path is the bare root `/`.
pub fn specifier_needs_redirect(specifier: &str) -> (r: bool)
    ensures
        r == (url_ok(specifier@) && url_path(specifier@) == seq!['/']),
{
    match parse_url(specifier) {
        Some(parts) => {
            let pv = chars_of(parts.path.as_str());
            if pv.len() == 1 && pv[0] == '/' {
                proof {
                    assert(pv@ =~= seq!['/']);
                }
                true
            } else {
                proof {
                    assert(pv@ != seq!['/']);
                }
                false
            }
        },
        None => false,
    }
}

/// Infer an executable name from a module specifier. `redirect` is the final
/// URL an optional single redirect resolution produced for a root-path
/// specifier; inference never fails outright, it just yields nothing.
pub fn infer_name_from_url(specifier: &str, redirect: Option<&str>) -> (r: Option<String>)
    ensures
        match r {
            Some(nm) => infer_url_spec(specifier@, opt_str_view(redirect)) == Some(nm@),
            None => infer_url_spec(specifier@, opt_str_view(redirect)) is None,
        },
{
    let parts = match parse_url(specifier) {
        Some(p) => p,
        None => {
            return None;
        },
    };
    let pv = chars_of(parts.path.as_str());
    let root_path = pv.len() == 1 && pv[0] == '/';
    proof {
        if root_path {
            assert(pv@ =~= seq!['/']);
        } else {
            assert(pv@ != seq!['/']);
        }
    }
    let use_parts: UrlParts = if root_path {
        match redirect {
            Some(t) => match parse_url(t) {
                Some(p2) => p2,
                None => parts,
            },
            None => parts,
        }
    } else {
        parts
    };
    let href = chars_of(use_parts.href.as_str());
    let path = chars_of(use_parts.path.as_str());
    let inferred: Option<Vec<char>> = match parse_package_ref(&href) {
        Some(pr) => {
            let usable_sub: Option<Vec<char>> = match pr.sub_path {
                Some(sp) => {
                    match find_char(&sp, '/') {
                        Some(_) => None,
                        None => Some(sp),
                    }
                },
                None => None,
            };
            match usable_sub {
                Some(sp) => Some(sp),
                None => {
                    match find_char(&pr.name, '/') {
                        Some(_) => None,
                        None => Some(pr.name),
                    }
                },
            }
        },
        None => infer_from_path(&path),
    };
    match inferred {
        Some(v) => Some(string_from_chars(&v)),
        None => None,
    }
}

// ---------------------------------------------------------------------------
// Laws of name inference.
// ---------------------------------------------------------------------------

/// A path whose file name carries a reserved stem and which has a parent
/// segment infers to that parent segment (its version marker dropped), never
/// to the reserved stem itself.
pub proof fn law_reserved_stem_uses_parent(pre: Seq<char>, parent: Seq<char>, fname: Seq<char>)
    requires
        parent.len() > 0,
        forall|j: int| 0 <= j < parent.len() ==> parent[j] != '/',
        fname.len() > 0,
        forall|j: int| 0 <= j < fname.len() ==> fname[j] != '/',
        reserved_stem(stem_of(fname)),
    ensures
        infer_from_path_spec(pre + seq!['/'] + parent + seq!['/'] + fname) == Some(
            truncate_at_version(parent),
        ),
{
    let path = pre + seq!['/'] + parent + seq!['/'] + fname;
    let i0 = pre.len() + 1 + parent.len();
    assert(path.last() == fname.last());
    assert(crate::paths::strip_trailing_slashes(path) == path);
    assert(path[i0 as int] == '/');
    assert(forall|j: int| i0 < j < path.len() ==> path[j] == fname[j - i0 - 1]);
    crate::strutil::lemma_last_at_is(path, '/', i0 as int);
    assert(path.skip(i0 as int + 1) =~= fname);
    assert(path_file_name(path) == fname);
    // The parent segment.
    let head = path.take(i0 as int);
    assert(head =~= pre + seq!['/'] + parent);
    assert(head.last() == parent.last());
    assert(crate::paths::strip_trailing_slashes(head) == head);
    assert(head[pre.len() as int] == '/');
    assert(forall|j: int| pre.len() < j < head.len() ==> head[j] == parent[j - pre.len() - 1]);
    crate::strutil::lemma_last_at_is(head, '/', pre.len() as int);
    assert(head.skip(pre.len() as int + 1) =~= parent);
    assert(path_parent_seg(path) == parent);
}

/// A specifier path whose file name opens with `@` infers to the whole
/// stem: the leading scope marker is never cut away.
pub proof fn law_leading_at_name_kept_whole(pre: Seq<char>, fname: Seq<char>)
    requires
        fname.len() > 0,
        fname[0] == '@',
        forall|j: int| 0 <= j < fname.len() ==> fname[j] != '/',
    ensures
        infer_from_path_spec(pre + seq!['/'] + fname) == Some(stem_of(fname)),
{
    let path = pre + seq!['/'] + fname;
    assert(path.last() == fname.last());
    assert(crate::paths::strip_trailing_slashes(path) == path);
    assert(path[pre.len() as int] == '/');
    assert(forall|j: int| pre.len() < j < path.len() ==> path[j] == fname[j - pre.len() - 1]);
    crate::strutil::lemma_last_at_is(path, '/', pre.len() as int);
    assert(path.skip(pre.len() as int + 1) =~= fname);
    assert(path_file_name(path) == fname);
    let stem0 = stem_of(fname);
    crate::strutil::lemma_last_at_in_range(fname, '.');
    assert(stem0.len() > 0 && stem0[0] == '@');
    assert(!reserved_stem(stem0)) by {
        reveal_strlit("main");
        reveal_strlit("mod");
        reveal_strlit("index");
        reveal_strlit("cli");
    }
    law_leading_at_preserved(stem0);
}

/// A stem opening with `@` is never truncated: the leading scope marker is
/// preserved whole.
pub proof fn law_leading_at_preserved(stem: Seq<char>)
    requires
        stem.len() > 0,
        stem[0] == '@',
    ensures
        truncate_at_version(stem) == stem,
{
    lemma_first_at_is(stem, '@', 0);
}

/// A stem whose first `@` stands at an index above zero is truncated exactly
/// there.
pub proof fn law_version_marker_truncated(stem: Seq<char>, i: int)
    requires
        0 < i < stem.len(),
        stem[i] == '@',
        forall|j: int| 0 <= j < i ==> stem[j] != '@',
    ensures
        truncate_at_version(stem) == stem.take(i),
{
    lemma_first_at_is(stem, '@', i);
}

/// For a root-path URL with a resolved redirect target, inference reads the
/// target, not the original URL.
pub proof fn law_root_url_uses_redirect(s: Seq<char>, t: Seq<char>)
    requires
        url_ok(s),
        url_path(s) == seq!['/'],
        url_ok(t),
    ensures
        infer_url_spec(s, Some(t)) == infer_spec(url_href(t), url_path(t)),
{
}

/// A package reference with a single-segment subpath infers to that subpath.
pub proof fn law_package_single_subpath(href: Seq<char>, path: Seq<char>, name: Seq<char>, sub: Seq<char>)
    requires
        npm_parse(href) == Some((name, Some(sub))),
        forall|j: int| 0 <= j < sub.len() ==> sub[j] != '/',
    ensures
        infer_spec(href, path) == Some(sub),
{
    lemma_first_at_none(sub, '/');
}

/// A package reference with an unscoped name and no single-segment subpath
/// infers to the package name.
pub proof fn law_package_unscoped_name(href: Seq<char>, path: Seq<char>, name: Seq<char>, sub: Option<Seq<char>>)
    requires
        npm_parse(href) == Some((name, sub)),
        sub is Some ==> first_at(sub->0, '/') is Some,
        forall|j: int| 0 <= j < name.len() ==> name[j] != '/',
    ensures
        infer_spec(href, path) == Some(name),
{
    lemma_first_at_none(name, '/');
}

/// A scoped package reference with no usable subpath infers to nothing.
pub proof fn law_package_scoped_no_name(href: Seq<char>, path: Seq<char>, name: Seq<char>, sub: Option<Seq<char>>, k: int)
    requires
        npm_parse(href) == Some((name, sub)),
        sub is Some ==> first_at(sub->0, '/') is Some,
        0 <= k < name.len(),
        name[k] == '/',
    ensures
        infer_spec(href, path) is None,
{
    lemma_first_at_found(name, '/', k);
}

/// If a character occurs, `first_at` finds one.
proof fn lemma_first_at_found(s: Seq<char>, c: char, k: int)
    requires
        0 <= k < s.len(),
        s[k] == c,
    ensures
        first_at(s, c) is Some,
    decreases s.len(),
{
    if s[0] == c {
    } else {
        assert(s.skip(1)[k - 1] == s[k]);
        lemma_first_at_found(s.skip(1), c, k - 1);
    }
}

} // verus!
