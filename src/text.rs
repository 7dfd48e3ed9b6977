//! Character-level helpers shared by the naming rules and the wire framing.

use vstd::prelude::*;

verus! {

/// Unicode `White_Space`, the set that `char::is_whitespace` and `str::trim` use.
pub open spec fn is_ws(c: char) -> bool {
    ||| '\u{9}' <= c <= '\u{d}'
    ||| c == ' '
    ||| c == '\u{85}'
    ||| c == '\u{a0}'
    ||| c == '\u{1680}'
    ||| '\u{2000}' <= c <= '\u{200a}'
    ||| c == '\u{2028}'
    ||| c == '\u{2029}'
    ||| c == '\u{202f}'
    ||| c == '\u{205f}'
    ||| c == '\u{3000}'
}

pub open spec fn trim_start(s: Seq<char>) -> Seq<char>
    decreases s.len(),
{
    if s.len() > 0 && is_ws(s[0]) {
        trim_start(s.drop_first())
    } else {
        s
    }
}

pub open spec fn trim_end(s: Seq<char>) -> Seq<char>
    decreases s.len(),
{
    if s.len() > 0 && is_ws(s.last()) {
        trim_end(s.drop_last())
    } else {
        s
    }
}

/// What `str::trim` returns: leading and trailing whitespace removed.
pub open spec fn trim(s: Seq<char>) -> Seq<char> {
    trim_end(trim_start(s))
}

/// Every occurrence of `from` replaced by `to`.
pub open spec fn replace_char(s: Seq<char>, from: char, to: char) -> Seq<char> {
    s.map_values(|c: char| if c == from { to } else { c })
}

/// Relies on `str::chars`: the characters of `s`, in order.
#[verifier::external_body]
pub(crate) fn chars_of(s: &str) -> (r: Vec<char>)
    ensures
        r@ == s@,
{
    s.chars().collect()
}

/// Relies on `String::from_iter`: the string made of the characters of `v`.
#[verifier::external_body]
pub(crate) fn string_of(v: &Vec<char>) -> (r: String)
    ensures
        r@ == v@,
{
    v.iter().collect()
}

/// Relies on `<str as PartialEq>::eq`: two strings are equal when their characters are.
#[verifier::external_body]
pub(crate) fn str_eq(a: &str, b: &str) -> (r: bool)
    ensures
        r == (a@ == b@),
{
    a == b
}

/// `a` followed by `b`.
pub fn concat(a: &str, b: &str) -> (r: String)
    ensures
        r@ == a@ + b@,
{
    let mut r = a.to_owned();
    r.append(b);
    r
}

/// `s` with every `from` replaced by `to`.
pub fn replace_char_in(s: &str, from: char, to: char) -> (r: String)
    ensures
        r@ == replace_char(s@, from, to),
{
    let v = chars_of(s);
    let mut out: Vec<char> = Vec::new();
    let mut i: usize = 0;
    while i < v.len()
        invariant
            i <= v@.len(),
            v@ == s@,
            out@ == replace_char(s@.subrange(0, i as int), from, to),
        decreases v@.len() - i,
    {
        let c = v[i];
        if c == from {
            out.push(to);
        } else {
            out.push(c);
        }
        assert(s@.subrange(0, i + 1) == s@.subrange(0, i as int).push(c));
        i = i + 1;
    }
    assert(s@.subrange(0, v@.len() as int) == s@);
    string_of(&out)
}

proof fn lemma_trim_start_skip(s: Seq<char>, i: int)
    requires
        0 <= i < s.len(),
        is_ws(s[i]),
    ensures
        trim_start(s.subrange(i, s.len() as int)) == trim_start(s.subrange(i + 1, s.len() as int)),
{
    assert(s.subrange(i, s.len() as int).drop_first() == s.subrange(i + 1, s.len() as int));
}

proof fn lemma_trim_end_skip(s: Seq<char>, j: int)
    requires
        0 < j <= s.len(),
        is_ws(s[j - 1]),
    ensures
        trim_end(s.subrange(0, j)) == trim_end(s.subrange(0, j - 1)),
{
    assert(s.subrange(0, j).drop_last() == s.subrange(0, j - 1));
}

/// Whether `c` is whitespace, as `char::is_whitespace` decides.
pub fn is_whitespace(c: char) -> (r: bool)
    ensures
        r == is_ws(c),
{
    ('\u{9}' <= c && c <= '\u{d}') || c == ' ' || c == '\u{85}' || c == '\u{a0}' || c == '\u{1680}'
        || ('\u{2000}' <= c && c <= '\u{200a}') || c == '\u{2028}' || c == '\u{2029}' || c
        == '\u{202f}' || c == '\u{205f}' || c == '\u{3000}'
}

/// The characters of `s` with leading and trailing whitespace removed.
pub fn trim_chars(s: &str) -> (r: Vec<char>)
    ensures
        r@ == trim(s@),
{
    let v = chars_of(s);
    let n = v.len();
    let mut i: usize = 0;
    assert(s@.subrange(0, n as int) == s@);
    while i < n && is_whitespace(v[i])
        invariant
            i <= n,
            n == v@.len(),
            v@ == s@,
            trim_start(s@) == trim_start(s@.subrange(i as int, n as int)),
        decreases n - i,
    {
        proof {
            lemma_trim_start_skip(s@, i as int);
        }
        i = i + 1;
    }
    let ghost rest = s@.subrange(i as int, n as int);
    assert(trim_start(rest) == rest);
    let mut j: usize = n;
    assert(rest.subrange(0, n - i) == rest);
    while j > i && is_whitespace(v[j - 1])
        invariant
            i <= j <= n,
            n == v@.len(),
            v@ == s@,
            rest == s@.subrange(i as int, n as int),
            trim_end(rest) == trim_end(rest.subrange(0, j - i)),
        decreases j,
    {
        proof {
            assert(rest[j - i - 1] == s@[j - 1]);
            lemma_trim_end_skip(rest, j - i);
        }
        j = j - 1;
    }
    assert(trim_end(rest.subrange(0, j - i)) == rest.subrange(0, j - i));
    let mut out: Vec<char> = Vec::new();
    let mut k: usize = i;
    while k < j
        invariant
            i <= k <= j <= n,
            n == v@.len(),
            v@ == s@,
            out@ == s@.subrange(i as int, k as int),
        decreases j - k,
    {
        out.push(v[k]);
        assert(s@.subrange(i as int, k + 1) == s@.subrange(i as int, k as int).push(s@[k as int]));
        k = k + 1;
    }
    assert(rest.subrange(0, j - i) == s@.subrange(i as int, j as int));
    out
}

} // verus!
