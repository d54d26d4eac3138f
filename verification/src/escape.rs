//! Escaping of command-line arguments for the launcher scripts:
//! POSIX single-quoting through the `shell_escape` crate, and batch-style
//! double-quoting with percent doubling.

use vstd::prelude::*;

verus! {

/// Characters that a POSIX shell takes literally, so an argument made only
/// of them needs no quoting.
pub open spec fn posix_plain_char(c: char) -> bool {
    ('a' <= c && c <= 'z') || ('A' <= c && c <= 'Z') || ('0' <= c && c <= '9') || c == '-' || c
        == '_' || c == '=' || c == '/' || c == ',' || c == '.' || c == '+'
}

/// How one character appears inside a single-quoted POSIX string: a quote or
/// an exclamation mark is closed off, backslash-escaped and reopened.
pub open spec fn posix_quoted_char(c: char) -> Seq<char> {
    if c == '\'' || c == '!' {
        seq!['\'', '\\', c, '\'']
    } else {
        seq![c]
    }
}

/// The body of a single-quoted POSIX string for `s`.
pub open spec fn posix_quoted_body(s: Seq<char>) -> Seq<char>
    decreases s.len(),
{
    if s.len() == 0 {
        Seq::empty()
    } else {
        posix_quoted_body(s.drop_last()) + posix_quoted_char(s.last())
    }
}

/// What `shell_escape::unix::escape` returns for `s`: the text itself when it
/// is non-empty and made only of plain characters, else a single-quoted form.
pub open spec fn shell_escaped(s: Seq<char>) -> Seq<char> {
    if s.len() > 0 && (forall|i: int| 0 <= i < s.len() ==> posix_plain_char(s[i])) {
        s
    } else {
        seq!['\''] + posix_quoted_body(s) + seq!['\'']
    }
}

/// Relies on `shell_escape::unix::escape`: returns the argument unchanged when
/// it is non-empty and contains only whitelisted characters, and otherwise
/// wraps it in single quotes, escaping `'` and `!` by closing the quote.
#[verifier::external_body]
pub fn shell_escape_arg(s: &str) -> (r: String)
    ensures
        r@ == shell_escaped(s@),
{
    shell_escape::unix::escape(std::borrow::Cow::Borrowed(s)).into_owned()
}

/// An argument wrapped in literal double quotes, as the batch script quotes it.
pub open spec fn double_quoted(s: Seq<char>) -> Seq<char> {
    seq!['"'] + s + seq!['"']
}

/// Wrap `s` in double quotes.
pub fn quote_double(s: &str) -> (r: Vec<char>)
    ensures
        r@ == double_quoted(s@),
{
    let mut r: Vec<char> = Vec::new();
    r.push('"');
    crate::strutil::append_str(&mut r, s);
    r.push('"');
    proof {
        assert(r@ =~= double_quoted(s@));
    }
    r
}

/// Each `%` doubled, so a batch interpreter reads it literally.
pub open spec fn percent_doubled(s: Seq<char>) -> Seq<char>
    decreases s.len(),
{
    if s.len() == 0 {
        Seq::empty()
    } else if s.last() == '%' {
        percent_doubled(s.drop_last()) + seq!['%', '%']
    } else {
        percent_doubled(s.drop_last()) + seq![s.last()]
    }
}

/// Double every `%` in `s`.
pub fn double_percents(s: &Vec<char>) -> (r: Vec<char>)
    ensures
        r@ == percent_doubled(s@),
{
    let mut r: Vec<char> = Vec::new();
    let mut i: usize = 0;
    while i < s.len()
        invariant
            i <= s@.len(),
            r@ == percent_doubled(s@.subrange(0, i as int)),
        decreases s@.len() - i,
    {
        let c = s[i];
        proof {
            assert(s@.subrange(0, i + 1 as int).drop_last() =~= s@.subrange(0, i as int));
            assert(s@.subrange(0, i + 1 as int).last() == s@[i as int]);
        }
        if c == '%' {
            r.push('%');
            r.push('%');
            proof {
                assert(r@ =~= percent_doubled(s@.subrange(0, i + 1 as int)));
            }
        } else {
            r.push(c);
            proof {
                assert(r@ =~= percent_doubled(s@.subrange(0, i + 1 as int)));
            }
        }
        i = i + 1;
    }
    proof {
        assert(s@.subrange(0, s@.len() as int) =~= s@);
    }
    r
}

} // verus!
