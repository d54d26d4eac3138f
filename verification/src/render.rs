//! Rendering a shim descriptor into launcher-script text and writing it
//! into the file store: a POSIX shell script, or a batch script with its
//! shell companion.

use vstd::prelude::*;
use crate::strutil::{append_str, append_chars, chars_of, string_from_chars};
use crate::escape::{shell_escaped, shell_escape_arg, double_quoted, quote_double, percent_doubled, double_percents};
use crate::flags::{Platform, join_char, argsv};
use crate::paths::with_extension_spec;
use crate::fsys::FileSys;
use crate::shim::ShimData;

verus! {

/// Every argument in its POSIX-escaped form.
pub open spec fn escaped_args(args: Seq<Seq<char>>) -> Seq<Seq<char>> {
    args.map_values(|a: Seq<char>| shell_escaped(a))
}

/// Every argument wrapped in double quotes.
pub open spec fn quoted_args(args: Seq<Seq<char>>) -> Seq<Seq<char>> {
    args.map_values(|a: Seq<char>| double_quoted(a))
}

/// Every quoted argument with its percent signs doubled.
pub open spec fn doubled_args(qs: Seq<Seq<char>>) -> Seq<Seq<char>> {
    qs.map_values(|q: Seq<char>| percent_doubled(q))
}

/// The POSIX launcher: shebang, marker comment, and an exec line forwarding
/// the escaped arguments and then the caller's own.
pub open spec fn posix_script(args: Seq<Seq<char>>) -> Seq<char> {
    "#!/bin/sh\n# generated by deno install\nexec deno "@ + join_char(escaped_args(args), ' ')
        + " \"$@\"\n"@
}

/// The batch launcher: marker line, then the interpreter with every
/// argument double-quoted and percent signs doubled.
pub open spec fn cmd_script(args: Seq<Seq<char>>) -> Seq<char> {
    "% generated by deno install %\n@deno "@ + join_char(doubled_args(quoted_args(args)), ' ') + " %*\n"@
}

/// The shell companion written beside the batch launcher, with the
/// double-quoted arguments.
pub open spec fn bash_script(args: Seq<Seq<char>>) -> Seq<char> {
    "#!/bin/sh\n# generated by deno install\ndeno "@ + join_char(quoted_args(args), ' ') + " \"$@\"\n"@
}

/// Escape every argument for a POSIX shell.
fn escape_all(args: &Vec<String>) -> (r: Vec<String>)
    ensures
        argsv(r) == escaped_args(argsv(*args)),
{
    proof {
        reveal(argsv);
    }
    let mut r: Vec<String> = Vec::new();
    let mut i: usize = 0;
    while i < args.len()
        invariant
            i <= args@.len(),
            argsv(*args) == args.deep_view(),
            argsv(r) == escaped_args(argsv(*args).take(i as int)),
        decreases args@.len() - i,
    {
        proof {
            reveal(argsv);
        }
        let e = shell_escape_arg(args[i].as_str());
        let ghost ev = e@;
        let ghost prev_dv = r.deep_view();
        let ghost prev_v = r@;
        r.push(e);
        proof {
            assert(forall|j: int| 0 <= j < prev_v.len() ==> prev_dv[j] == prev_v[j].deep_view());
            assert(r.deep_view() =~= prev_dv + seq![ev]);
            assert(argsv(*args)[i as int] == args@[i as int]@);
            assert(ev == shell_escaped(argsv(*args)[i as int]));
            assert(argsv(r) =~= escaped_args(argsv(*args).take(i + 1 as int)));
        }
        i = i + 1;
    }
    proof {
        reveal(argsv);
        assert(argsv(*args).take(args@.len() as int) =~= argsv(*args));
    }
    r
}

/// Wrap every argument in double quotes.
fn quote_all(args: &Vec<String>) -> (r: Vec<String>)
    ensures
        argsv(r) == quoted_args(argsv(*args)),
{
    proof {
        reveal(argsv);
    }
    let mut r: Vec<String> = Vec::new();
    let mut i: usize = 0;
    while i < args.len()
        invariant
            i <= args@.len(),
            argsv(*args) == args.deep_view(),
            argsv(r) == quoted_args(argsv(*args).take(i as int)),
        decreases args@.len() - i,
    {
        proof {
            reveal(argsv);
        }
        let q = quote_double(args[i].as_str());
        let qs = string_from_chars(&q);
        let ghost qv = qs@;
        let ghost prev_dv = r.deep_view();
        let ghost prev_v = r@;
        r.push(qs);
        proof {
            assert(forall|j: int| 0 <= j < prev_v.len() ==> prev_dv[j] == prev_v[j].deep_view());
            assert(r.deep_view() =~= prev_dv + seq![qv]);
            assert(argsv(*args)[i as int] == args@[i as int]@);
            assert(qv == double_quoted(argsv(*args)[i as int]));
            assert(argsv(r) =~= quoted_args(argsv(*args).take(i + 1 as int)));
        }
        i = i + 1;
    }
    proof {
        reveal(argsv);
        assert(argsv(*args).take(args@.len() as int) =~= argsv(*args));
    }
    r
}

/// Double the percent signs of every quoted argument.
fn double_all(qs: &Vec<String>) -> (r: Vec<String>)
    ensures
        argsv(r) == doubled_args(argsv(*qs)),
{
    proof {
        reveal(argsv);
    }
    let mut r: Vec<String> = Vec::new();
    let mut i: usize = 0;
    while i < qs.len()
        invariant
            i <= qs@.len(),
            argsv(*qs) == qs.deep_view(),
            argsv(r) == doubled_args(argsv(*qs).take(i as int)),
        decreases qs@.len() - i,
    {
        proof {
            reveal(argsv);
        }
        let cv = chars_of(qs[i].as_str());
        let d = double_percents(&cv);
        let ds = string_from_chars(&d);
        let ghost dv = ds@;
        let ghost prev_dv = r.deep_view();
        let ghost prev_v = r@;
        r.push(ds);
        proof {
            assert(forall|j: int| 0 <= j < prev_v.len() ==> prev_dv[j] == prev_v[j].deep_view());
            assert(r.deep_view() =~= prev_dv + seq![dv]);
            assert(argsv(*qs)[i as int] == qs@[i as int]@);
            assert(dv == percent_doubled(argsv(*qs)[i as int]));
            assert(argsv(r) =~= doubled_args(argsv(*qs).take(i + 1 as int)));
        }
        i = i + 1;
    }
    proof {
        reveal(argsv);
        assert(argsv(*qs).take(qs@.len() as int) =~= argsv(*qs));
    }
    r
}

/// Render the POSIX launcher text.
fn render_posix(args: &Vec<String>) -> (r: String)
    ensures
        r@ == posix_script(argsv(*args)),
{
    let esc = escape_all(args);
    let mut v: Vec<char> = Vec::new();
    append_str(&mut v, "#!/bin/sh\n# generated by deno install\nexec deno ");
    let joined = crate::flags::join_strings(&esc, ' ');
    append_chars(&mut v, &joined);
    append_str(&mut v, " \"$@\"\n");
    proof {
        reveal(argsv);
        assert(v@ =~= posix_script(argsv(*args)));
    }
    string_from_chars(&v)
}

/// Render the batch launcher text.
fn render_cmd(args: &Vec<String>) -> (r: String)
    ensures
        r@ == cmd_script(argsv(*args)),
{
    let quoted = quote_all(args);
    let doubled = double_all(&quoted);
    let mut v: Vec<char> = Vec::new();
    append_str(&mut v, "% generated by deno install %\n@deno ");
    let joined = crate::flags::join_strings(&doubled, ' ');
    append_chars(&mut v, &joined);
    append_str(&mut v, " %*\n");
    proof {
        reveal(argsv);
        assert(v@ =~= cmd_script(argsv(*args)));
    }
    string_from_chars(&v)
}

/// Render the shell companion text for the batch launcher.
fn render_companion(args: &Vec<String>) -> (r: String)
    ensures
        r@ == bash_script(argsv(*args)),
{
    let quoted = quote_all(args);
    let mut v: Vec<char> = Vec::new();
    append_str(&mut v, "#!/bin/sh\n# generated by deno install\ndeno ");
    let joined = crate::flags::join_strings(&quoted, ' ');
    append_chars(&mut v, &joined);
    append_str(&mut v, " \"$@\"\n");
    proof {
        reveal(argsv);
        assert(v@ =~= bash_script(argsv(*args)));
    }
    string_from_chars(&v)
}

/// The store after the launcher files are written: one executable POSIX
/// script, or a batch script plus its extension-less shell companion.
pub open spec fn rendered_map(
    m: Map<Seq<char>, (Seq<char>, bool)>,
    args: Seq<Seq<char>>,
    fp: Seq<char>,
    platform: Platform,
) -> Map<Seq<char>, (Seq<char>, bool)> {
    if platform is Windows {
        m.insert(fp, (cmd_script(args), false)).insert(
            with_extension_spec(fp, Seq::empty()),
            (bash_script(args), false),
        )
    } else {
        m.insert(fp, (posix_script(args), true))
    }
}

/// Write the launcher file or files for the descriptor into the store; on
/// POSIX the script is marked executable.
pub fn generate_executable_file(shim_data: &ShimData, platform: Platform, fsys: &mut FileSys)
    requires
        old(fsys).wf(),
    ensures
        final(fsys).wf(),
        final(fsys)@ == rendered_map(
            old(fsys)@,
            argsv(shim_data.args),
            shim_data.file_path@,
            platform,
        ),
{
    match platform {
        Platform::Posix => {
            let content = render_posix(&shim_data.args);
            fsys.write(shim_data.file_path.as_str(), content, true);
        },
        Platform::Windows => {
            let content = render_cmd(&shim_data.args);
            fsys.write(shim_data.file_path.as_str(), content, false);
            let fpv = chars_of(shim_data.file_path.as_str());
            let empty_ext: Vec<char> = Vec::new();
            let companion = crate::paths::with_extension_vec(&fpv, &empty_ext);
            let companion_path = string_from_chars(&companion);
            let content2 = render_companion(&shim_data.args);
            fsys.write(companion_path.as_str(), content2, false);
        },
    }
}

} // verus!
