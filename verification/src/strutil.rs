//! Verified helpers over character vectors, the representation this crate
//! uses for all text manipulation.

use vstd::prelude::*;

verus! {

/// Smallest index at which `c` occurs in `s`, if any.
pub open spec fn first_at(s: Seq<char>, c: char) -> Option<int>
    decreases s.len(),
{
    if s.len() == 0 {
        None
    } else if s[0] == c {
        Some(0int)
    } else {
        match first_at(s.skip(1), c) {
            Some(i) => Some(i + 1),
            None => None,
        }
    }
}

/// Largest index at which `c` occurs in `s`, if any.
pub open spec fn last_at(s: Seq<char>, c: char) -> Option<int>
    decreases s.len(),
{
    if s.len() == 0 {
        None
    } else if s.last() == c {
        Some(s.len() - 1)
    } else {
        last_at(s.drop_last(), c)
    }
}

/// A position that holds `c`, with nothing equal to `c` before it, is the
/// first occurrence.
pub proof fn lemma_first_at_is(s: Seq<char>, c: char, i: int)
    requires
        0 <= i < s.len(),
        s[i] == c,
        forall|j: int| 0 <= j < i ==> s[j] != c,
    ensures
        first_at(s, c) == Some(i),
    decreases s.len(),
{
    if s[0] == c {
        assert(i == 0);
    } else {
        assert(forall|j: int| 0 <= j < i - 1 ==> s.skip(1)[j] == s[j + 1]);
        lemma_first_at_is(s.skip(1), c, i - 1);
    }
}

/// A sequence without `c` has no first occurrence of it.
pub proof fn lemma_first_at_none(s: Seq<char>, c: char)
    requires
        forall|j: int| 0 <= j < s.len() ==> s[j] != c,
    ensures
        first_at(s, c) is None,
    decreases s.len(),
{
    if s.len() > 0 {
        assert(forall|j: int| 0 <= j < s.skip(1).len() ==> s.skip(1)[j] == s[j + 1]);
        lemma_first_at_none(s.skip(1), c);
    }
}

/// A position that holds `c`, with nothing equal to `c` after it, is the
/// last occurrence.
pub proof fn lemma_last_at_is(s: Seq<char>, c: char, i: int)
    requires
        0 <= i < s.len(),
        s[i] == c,
        forall|j: int| i < j < s.len() ==> s[j] != c,
    ensures
        last_at(s, c) == Some(i),
    decreases s.len(),
{
    if s.last() == c {
        assert(i == s.len() - 1);
    } else {
        assert(forall|j: int| 0 <= j < s.drop_last().len() ==> s.drop_last()[j] == s[j]);
        lemma_last_at_is(s.drop_last(), c, i);
    }
}

/// The last occurrence, when there is one, lies in range and holds `c`.
pub proof fn lemma_last_at_in_range(s: Seq<char>, c: char)
    ensures
        match last_at(s, c) {
            Some(i) => 0 <= i < s.len() && s[i] == c,
            None => true,
        },
    decreases s.len(),
{
    if s.len() > 0 && s.last() != c {
        lemma_last_at_in_range(s.drop_last(), c);
    }
}

/// A sequence without `c` has no last occurrence of it.
pub proof fn lemma_last_at_none(s: Seq<char>, c: char)
    requires
        forall|j: int| 0 <= j < s.len() ==> s[j] != c,
    ensures
        last_at(s, c) is None,
    decreases s.len(),
{
    if s.len() > 0 {
        assert(forall|j: int| 0 <= j < s.drop_last().len() ==> s.drop_last()[j] == s[j]);
        lemma_last_at_none(s.drop_last(), c);
    }
}

/// First index of `c` in `s`, if any.
pub fn find_char(s: &Vec<char>, c: char) -> (r: Option<usize>)
    ensures
        match r {
            Some(i) => first_at(s@, c) == Some(i as int) && i < s@.len() && s@[i as int] == c
                && forall|j: int| 0 <= j < i ==> s@[j] != c,
            None => first_at(s@, c) is None && forall|j: int| 0 <= j < s@.len() ==> s@[j] != c,
        },
{
    let mut i: usize = 0;
    while i < s.len()
        invariant
            i <= s@.len(),
            forall|j: int| 0 <= j < i ==> s@[j] != c,
        decreases s@.len() - i,
    {
        if s[i] == c {
            proof {
                lemma_first_at_is(s@, c, i as int);
            }
            return Some(i);
        }
        i = i + 1;
    }
    proof {
        lemma_first_at_none(s@, c);
    }
    None
}

/// Last index of `c` in `s`, if any.
pub fn rfind_char(s: &Vec<char>, c: char) -> (r: Option<usize>)
    ensures
        match r {
            Some(i) => last_at(s@, c) == Some(i as int) && i < s@.len() && s@[i as int] == c
                && forall|j: int| i < j < s@.len() ==> s@[j] != c,
            None => last_at(s@, c) is None && forall|j: int| 0 <= j < s@.len() ==> s@[j] != c,
        },
{
    let mut i: usize = s.len();
    while i > 0
        invariant
            i <= s@.len(),
            forall|j: int| i <= j < s@.len() ==> s@[j] != c,
        decreases i,
    {
        i = i - 1;
        if s[i] == c {
            proof {
                lemma_last_at_is(s@, c, i as int);
            }
            return Some(i);
        }
    }
    proof {
        lemma_last_at_none(s@, c);
    }
    None
}

/// Copy of the range `[from, to)` of `s`.
pub fn subvec(s: &Vec<char>, from: usize, to: usize) -> (r: Vec<char>)
    requires
        from <= to <= s@.len(),
    ensures
        r@ == s@.subrange(from as int, to as int),
{
    let mut r: Vec<char> = Vec::new();
    let mut i: usize = from;
    while i < to
        invariant
            from <= i <= to <= s@.len(),
            r@ == s@.subrange(from as int, i as int),
        decreases to - i,
    {
        r.push(s[i]);
        proof {
            assert(r@ =~= s@.subrange(from as int, i + 1 as int));
        }
        i = i + 1;
    }
    r
}

/// Append a copy of `src` to `dst`.
pub fn append_chars(dst: &mut Vec<char>, src: &Vec<char>)
    ensures
        final(dst)@ == old(dst)@ + src@,
{
    let mut i: usize = 0;
    while i < src.len()
        invariant
            i <= src@.len(),
            dst@ == old(dst)@ + src@.subrange(0, i as int),
        decreases src@.len() - i,
    {
        dst.push(src[i]);
        proof {
            assert(old(dst)@ + src@.subrange(0, i + 1 as int) =~= (old(dst)@ + src@.subrange(
                0,
                i as int,
            )).push(src@[i as int]));
        }
        i = i + 1;
    }
    proof {
        assert(src@.subrange(0, src@.len() as int) =~= src@);
    }
}

/// Append every character of the string slice `src` to `dst`.
pub fn append_str(dst: &mut Vec<char>, src: &str)
    ensures
        final(dst)@ == old(dst)@ + src@,
{
    let n = src.unicode_len();
    let mut i: usize = 0;
    while i < n
        invariant
            n == src@.len(),
            i <= n,
            dst@ == old(dst)@ + src@.subrange(0, i as int),
        decreases n - i,
    {
        dst.push(src.get_char(i));
        proof {
            assert(old(dst)@ + src@.subrange(0, i + 1 as int) =~= (old(dst)@ + src@.subrange(
                0,
                i as int,
            )).push(src@[i as int]));
        }
        i = i + 1;
    }
    proof {
        assert(src@.subrange(0, src@.len() as int) =~= src@);
    }
}

/// The characters of a string slice as a vector.
pub fn chars_of(s: &str) -> (r: Vec<char>)
    ensures
        r@ == s@,
{
    let mut r: Vec<char> = Vec::new();
    append_str(&mut r, s);
    r
}

/// The decimal digit character for `n` below ten.
pub open spec fn dec_digit(n: nat) -> char {
    if n == 0 {
        '0'
    } else if n == 1 {
        '1'
    } else if n == 2 {
        '2'
    } else if n == 3 {
        '3'
    } else if n == 4 {
        '4'
    } else if n == 5 {
        '5'
    } else if n == 6 {
        '6'
    } else if n == 7 {
        '7'
    } else if n == 8 {
        '8'
    } else {
        '9'
    }
}

/// The decimal rendering of `n`, most significant digit first, no leading
/// zeros.
pub open spec fn dec_str(n: nat) -> Seq<char>
    decreases n,
{
    if n < 10 {
        seq![dec_digit(n)]
    } else {
        dec_str(n / 10) + seq![dec_digit(n % 10)]
    }
}

/// The digit character for `d` below ten.
fn digit_char(d: u64) -> (c: char)
    requires
        d < 10,
    ensures
        c == dec_digit(d as nat),
{
    if d == 0 {
        '0'
    } else if d == 1 {
        '1'
    } else if d == 2 {
        '2'
    } else if d == 3 {
        '3'
    } else if d == 4 {
        '4'
    } else if d == 5 {
        '5'
    } else if d == 6 {
        '6'
    } else if d == 7 {
        '7'
    } else if d == 8 {
        '8'
    } else {
        '9'
    }
}

/// Render `n` in decimal, most significant digit first.
pub fn u64_to_string(n: u64) -> (r: String)
    ensures
        r@ == dec_str(n as nat),
{
    let mut digits: Vec<char> = Vec::new();
    let mut m = n;
    proof {
        assert(dec_str(n as nat) =~= dec_str(n as nat) + digits@.reverse());
    }
    while m >= 10
        invariant
            dec_str(n as nat) == dec_str(m as nat) + digits@.reverse(),
        decreases m,
    {
        let ghost prev = digits@;
        let ghost m0 = m as nat;
        let d = digit_char(m % 10);
        digits.push(d);
        proof {
            assert(dec_str(m0) == dec_str(m0 / 10) + seq![dec_digit(m0 % 10)]);
            assert(digits@.reverse() =~= seq![dec_digit(m0 % 10)] + prev.reverse());
            assert(dec_str((m / 10) as nat) + digits@.reverse() =~= dec_str(m0) + prev.reverse());
        }
        m = m / 10;
    }
    let ghost prev = digits@;
    let ghost m0 = m as nat;
    let d = digit_char(m);
    digits.push(d);
    proof {
        assert(dec_str(m0) == seq![dec_digit(m0)]);
        assert(digits@.reverse() =~= seq![dec_digit(m0)] + prev.reverse());
        assert(digits@.reverse() =~= dec_str(n as nat));
    }
    let ghost target = digits@.reverse();
    let mut out: Vec<char> = Vec::new();
    let mut i: usize = digits.len();
    while i > 0
        invariant
            i <= digits@.len(),
            target == digits@.reverse(),
            target.len() == digits@.len(),
            out@ == target.take(digits@.len() - i),
        decreases i,
    {
        i = i - 1;
        out.push(digits[i]);
        proof {
            assert(target[digits@.len() - 1 - i] == digits@[i as int]);
            assert(out@ =~= target.take(digits@.len() - i));
        }
    }
    proof {
        assert(target.take(digits@.len() as int) =~= target);
    }
    string_from_chars(&out)
}

/// Relies on std's `FromIterator` impl for `String`: collecting characters
/// yields the string with exactly those characters in order.
#[verifier::external_body]
pub fn string_from_chars(v: &Vec<char>) -> (r: String)
    ensures
        r@ == v@,
{
    v.iter().collect()
}

/// Whether two character vectors hold the same text.
pub fn eq_chars(a: &Vec<char>, b: &Vec<char>) -> (r: bool)
    ensures
        r == (a@ == b@),
{
    if a.len() != b.len() {
        proof {
            assert(a@.len() != b@.len());
        }
        return false;
    }
    let mut i: usize = 0;
    while i < a.len()
        invariant
            a@.len() == b@.len(),
            i <= a@.len(),
            forall|j: int| 0 <= j < i ==> a@[j] == b@[j],
        decreases a@.len() - i,
    {
        if a[i] != b[i] {
            return false;
        }
        i = i + 1;
    }
    proof {
        assert(a@ =~= b@);
    }
    true
}

/// Whether the text in `v` equals the string slice `s`.
pub fn eq_str(v: &Vec<char>, s: &str) -> (r: bool)
    ensures
        r == (v@ == s@),
{
    let n = s.unicode_len();
    if v.len() != n {
        proof {
            assert(v@.len() != s@.len());
        }
        return false;
    }
    let mut i: usize = 0;
    while i < n
        invariant
            n == s@.len(),
            v@.len() == n,
            i <= n,
            forall|j: int| 0 <= j < i ==> v@[j] == s@[j],
        decreases n - i,
    {
        if v[i] != s.get_char(i) {
            return false;
        }
        i = i + 1;
    }
    proof {
        assert(v@ =~= s@);
    }
    true
}

/// Whether two string slices hold the same text.
pub fn str_eq(a: &str, b: &str) -> (r: bool)
    ensures
        r == (a@ == b@),
{
    let n = a.unicode_len();
    if b.unicode_len() != n {
        proof {
            assert(a@.len() != b@.len());
        }
        return false;
    }
    let mut i: usize = 0;
    while i < n
        invariant
            n == a@.len(),
            b@.len() == n,
            i <= n,
            forall|j: int| 0 <= j < i ==> a@[j] == b@[j],
        decreases n - i,
    {
        if a.get_char(i) != b.get_char(i) {
            return false;
        }
        i = i + 1;
    }
    proof {
        assert(a@ =~= b@);
    }
    true
}

} // verus!
