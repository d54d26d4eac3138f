//! Path text manipulation: file names, stems, parent segments, extension
//! replacement and the hidden side-file naming convention. Paths are plain
//! text joined with `/`.

use vstd::prelude::*;
use crate::strutil::{first_at, last_at, find_char, rfind_char, subvec, append_chars, chars_of, string_from_chars};

verus! {

/// `s` with every trailing `/` removed.
pub open spec fn strip_trailing_slashes(s: Seq<char>) -> Seq<char>
    decreases s.len(),
{
    if s.len() > 0 && s.last() == '/' {
        strip_trailing_slashes(s.drop_last())
    } else {
        s
    }
}

/// The final path segment: what stands after the last `/`, trailing slashes
/// ignored. Empty when the path has no segment at all.
pub open spec fn path_file_name(s: Seq<char>) -> Seq<char> {
    let t = strip_trailing_slashes(s);
    match last_at(t, '/') {
        Some(i) => t.skip(i + 1),
        None => t,
    }
}

/// The segment before the final one, empty when there is none.
pub open spec fn path_parent_seg(s: Seq<char>) -> Seq<char> {
    let t = strip_trailing_slashes(s);
    match last_at(t, '/') {
        Some(i) => path_file_name(t.take(i)),
        None => Seq::empty(),
    }
}

/// The file stem: the file name up to its last `.`, except that a lone
/// leading `.` belongs to the stem.
pub open spec fn stem_of(f: Seq<char>) -> Seq<char> {
    match last_at(f, '.') {
        Some(i) => if i > 0 {
            f.take(i)
        } else {
            f
        },
        None => f,
    }
}

/// Everything up to and including the last `/` of `p`, empty when `p` holds
/// no `/`.
pub open spec fn path_dir_prefix(p: Seq<char>) -> Seq<char> {
    match last_at(p, '/') {
        Some(i) => p.take(i + 1),
        None => Seq::empty(),
    }
}

/// `p` with its extension replaced by `ext`; an empty `ext` just drops the
/// old extension.
pub open spec fn with_extension_spec(p: Seq<char>, ext: Seq<char>) -> Seq<char> {
    let stem = stem_of(path_file_name(p));
    if ext.len() == 0 {
        path_dir_prefix(p) + stem
    } else {
        path_dir_prefix(p) + stem + seq!['.'] + ext
    }
}

/// `dir` and `name` joined with a single `/`.
pub open spec fn joined(dir: Seq<char>, name: Seq<char>) -> Seq<char> {
    dir + seq!['/'] + name
}

/// The hidden side-file path for `p`: the file name gains a leading dot and
/// the extension `ext`.
pub open spec fn hidden_file_with_ext(p: Seq<char>, ext: Seq<char>) -> Seq<char> {
    with_extension_spec(path_dir_prefix(p) + seq!['.'] + path_file_name(p), ext)
}

/// `s` truncated where its trailing slashes start.
pub fn strip_trailing_slashes_vec(s: &Vec<char>) -> (r: Vec<char>)
    ensures
        r@ == strip_trailing_slashes(s@),
{
    let mut e: usize = s.len();
    proof {
        assert(s@.take(s@.len() as int) =~= s@);
    }
    while e > 0 && s[e - 1] == '/'
        invariant
            e <= s@.len(),
            strip_trailing_slashes(s@) == strip_trailing_slashes(s@.take(e as int)),
        decreases e,
    {
        proof {
            assert(s@.take(e as int).last() == '/');
            assert(s@.take(e as int).drop_last() =~= s@.take(e - 1));
        }
        e = e - 1;
    }
    proof {
        if e > 0 {
            assert(s@.take(e as int).last() != '/');
        }
    }
    subvec(s, 0, e)
}

/// The final path segment of `p`.
pub fn file_name_vec(p: &Vec<char>) -> (r: Vec<char>)
    ensures
        r@ == path_file_name(p@),
{
    let t = strip_trailing_slashes_vec(p);
    let n = t.len();
    match rfind_char(&t, '/') {
        Some(i) => subvec(&t, i + 1, n),
        None => t,
    }
}

/// The segment before the final one of `p`, empty when there is none.
pub fn parent_seg_vec(p: &Vec<char>) -> (r: Vec<char>)
    ensures
        r@ == path_parent_seg(p@),
{
    let t = strip_trailing_slashes_vec(p);
    match rfind_char(&t, '/') {
        Some(i) => {
            let head = subvec(&t, 0, i);
            file_name_vec(&head)
        },
        None => Vec::new(),
    }
}

/// The stem of the file name `f`.
pub fn stem_vec(f: &Vec<char>) -> (r: Vec<char>)
    ensures
        r@ == stem_of(f@),
{
    match rfind_char(f, '.') {
        Some(i) => if i > 0 {
            subvec(f, 0, i)
        } else {
            subvec(f, 0, f.len())
        },
        None => subvec(f, 0, f.len()),
    }
}

/// `p` with its extension replaced by `ext`.
pub fn with_extension_vec(p: &Vec<char>, ext: &Vec<char>) -> (r: Vec<char>)
    ensures
        r@ == with_extension_spec(p@, ext@),
{
    let mut r: Vec<char> = match rfind_char(p, '/') {
        Some(i) => {
            let n = p.len();
            subvec(p, 0, i + 1)
        },
        None => Vec::new(),
    };
    let fname = file_name_vec(p);
    let stem = stem_vec(&fname);
    append_chars(&mut r, &stem);
    if ext.len() > 0 {
        r.push('.');
        append_chars(&mut r, ext);
        proof {
            assert(r@ =~= with_extension_spec(p@, ext@));
        }
    } else {
        proof {
            assert(r@ =~= with_extension_spec(p@, ext@));
        }
    }
    r
}

/// `dir` and `name` joined with a single `/`.
pub fn join_path(dir: &Vec<char>, name: &Vec<char>) -> (r: Vec<char>)
    ensures
        r@ == joined(dir@, name@),
{
    let mut r = subvec(dir, 0, dir.len());
    proof {
        assert(r@ =~= dir@);
    }
    r.push('/');
    append_chars(&mut r, name);
    proof {
        assert(r@ =~= joined(dir@, name@));
    }
    r
}

/// The hidden side-file path beside the shim at `file_path`, carrying `ext`:
/// the shim's file name gains a leading dot and the extension is replaced.
pub fn get_hidden_file_with_ext(file_path: &str, ext: &str) -> (r: String)
    ensures
        r@ == hidden_file_with_ext(file_path@, ext@),
{
    let p = chars_of(file_path);
    let e = chars_of(ext);
    let h = hidden_path_vec(&p, &e);
    string_from_chars(&h)
}

/// `get_hidden_file_with_ext` on character vectors.
pub fn hidden_path_vec(p: &Vec<char>, ext: &Vec<char>) -> (r: Vec<char>)
    ensures
        r@ == hidden_file_with_ext(p@, ext@),
{
    let mut hidden: Vec<char> = match rfind_char(p, '/') {
        Some(i) => {
            let n = p.len();
            subvec(p, 0, i + 1)
        },
        None => Vec::new(),
    };
    hidden.push('.');
    let fname = file_name_vec(p);
    append_chars(&mut hidden, &fname);
    proof {
        assert(hidden@ =~= path_dir_prefix(p@) + seq!['.'] + path_file_name(p@));
    }
    with_extension_vec(&hidden, ext)
}

} // verus!
