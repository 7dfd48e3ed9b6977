//! The portal's wire framing: every useful response is an HTML page that
//! carries its data in one JavaScript statement, `var result = <JSON>;`, and
//! the main page after login names the session marker in
//! `const scui = '<marker>';`. These functions find those values in the text.

use vstd::prelude::*;
use crate::text::{chars_of, string_of, is_ws, is_whitespace};

verus! {

/// The characters `var result`.
pub open spec fn result_keyword() -> Seq<char> {
    seq!['v', 'a', 'r', ' ', 'r', 'e', 's', 'u', 'l', 't']
}

/// The characters `const scui = '`.
pub open spec fn marker_keyword() -> Seq<char> {
    seq!['c', 'o', 'n', 's', 't', ' ', 's', 'c', 'u', 'i', ' ', '=', ' ', '\'']
}

/// The first index at or after `k` that does not hold whitespace.
pub open spec fn ws_end(t: Seq<char>, k: int) -> int
    decreases t.len() - k,
{
    if k < 0 || k >= t.len() {
        t.len() as int
    } else if is_ws(t[k]) {
        ws_end(t, k + 1)
    } else {
        k
    }
}

/// The index of the first newline at or after `k`, or the length of `t`.
pub open spec fn line_end(t: Seq<char>, k: int) -> int
    decreases t.len() - k,
{
    if k < 0 || k >= t.len() {
        t.len() as int
    } else if t[k] == '\n' {
        k
    } else {
        line_end(t, k + 1)
    }
}

/// The greatest index `q` with `lo < q <= p` that holds `;`, or `lo` when none does.
pub open spec fn last_semicolon(t: Seq<char>, lo: int, p: int) -> int
    decreases p - lo,
{
    if p <= lo || p >= t.len() {
        lo
    } else if t[p] == ';' {
        p
    } else {
        last_semicolon(t, lo, p - 1)
    }
}

/// The greatest index `q` with `lo < q <= p` where `';` starts, or `lo` when there is none.
pub open spec fn last_quote_semicolon(t: Seq<char>, lo: int, p: int) -> int
    decreases p - lo,
{
    if p <= lo || p + 1 >= t.len() {
        lo
    } else if t[p] == '\'' && t[p + 1] == ';' {
        p
    } else {
        last_quote_semicolon(t, lo, p - 1)
    }
}

/// Whether `word` stands in `t` at index `i`.
pub open spec fn word_at(t: Seq<char>, i: int, word: Seq<char>) -> bool {
    0 <= i && i + word.len() <= t.len() && t.subrange(i, i + word.len()) == word
}

/// An assignment `var result<ws>=<ws><payload>;` that starts at `i`: the bounds
/// `(a, b)` of its payload, which ends at the last `;` of its line and is never
/// empty. When the line has no `;` after the first character of the payload,
/// a single whitespace character before a `;` is the payload.
pub open spec fn assignment_at(t: Seq<char>, i: int) -> Option<(int, int)> {
    if word_at(t, i, result_keyword()) {
        let j = ws_end(t, i + 10);
        if j > i + 10 && j < t.len() && t[j] == '=' {
            let k = ws_end(t, j + 1);
            if k > j + 1 && k < t.len() {
                let p = last_semicolon(t, k, line_end(t, k) - 1);
                if p > k {
                    Some((k, p))
                } else if t[k] == ';' && k - 1 > j + 1 && t[k - 1] != '\n' {
                    Some((k - 1, k))
                } else {
                    None
                }
            } else {
                None
            }
        } else {
            None
        }
    } else {
        None
    }
}

/// Scanning from `i` to the end, the payload of the last assignment, where
/// each search resumes after the end of the assignment found before it.
pub open spec fn scan_result(t: Seq<char>, i: int, acc: Seq<char>) -> Seq<char>
    decreases t.len() - i,
{
    if i < 0 || i >= t.len() {
        acc
    } else {
        match assignment_at(t, i) {
            Some((a, b)) => if i < b + 1 <= t.len() {
                scan_result(t, b + 1, t.subrange(a, b))
            } else {
                acc
            },
            None => scan_result(t, i + 1, acc),
        }
    }
}

/// The payload of the last `var result = ...;` statement of a page, empty when there is none.
pub open spec fn result_payload(t: Seq<char>) -> Seq<char> {
    scan_result(t, 0, Seq::empty())
}

/// A marker statement `const scui = '<value>';` that starts at `i`: the bounds
/// of its value, which ends at the last `';` of its line and is never empty.
pub open spec fn marker_at(t: Seq<char>, i: int) -> Option<(int, int)> {
    if word_at(t, i, marker_keyword()) {
        let k = i + 14;
        let p = last_quote_semicolon(t, k, line_end(t, k) - 2);
        if p > k {
            Some((k, p))
        } else {
            None
        }
    } else {
        None
    }
}

pub open spec fn scan_marker(t: Seq<char>, i: int, acc: Seq<char>) -> Seq<char>
    decreases t.len() - i,
{
    if i < 0 || i >= t.len() {
        acc
    } else {
        match marker_at(t, i) {
            Some((a, b)) => if i < b + 2 <= t.len() {
                scan_marker(t, b + 2, t.subrange(a, b))
            } else {
                acc
            },
            None => scan_marker(t, i + 1, acc),
        }
    }
}

/// The value of the last `const scui = '...';` statement of a page, empty when there is none.
pub open spec fn marker_value(t: Seq<char>) -> Seq<char> {
    scan_marker(t, 0, Seq::empty())
}

fn ws_end_exec(t: &Vec<char>, k: usize) -> (r: usize)
    requires
        k <= t@.len(),
    ensures
        r as int == ws_end(t@, k as int),
{
    let mut q = k;
    while q < t.len() && is_whitespace(t[q])
        invariant
            k <= q <= t@.len(),
            ws_end(t@, k as int) == ws_end(t@, q as int),
        decreases t@.len() - q,
    {
        q = q + 1;
    }
    q
}

fn line_end_exec(t: &Vec<char>, k: usize) -> (r: usize)
    requires
        k <= t@.len(),
    ensures
        r as int == line_end(t@, k as int),
        k <= r <= t@.len(),
{
    let mut q = k;
    while q < t.len() && t[q] != '\n'
        invariant
            k <= q <= t@.len(),
            line_end(t@, k as int) == line_end(t@, q as int),
        decreases t@.len() - q,
    {
        q = q + 1;
    }
    q
}

proof fn lemma_ws_end_bounds(t: Seq<char>, k: int)
    requires
        0 <= k <= t.len(),
    ensures
        k <= ws_end(t, k) <= t.len(),
    decreases t.len() - k,
{
    if k < t.len() && is_ws(t[k]) {
        lemma_ws_end_bounds(t, k + 1);
    }
}

proof fn lemma_last_semicolon_bounds(t: Seq<char>, lo: int, p: int)
    ensures
        last_semicolon(t, lo, p) == lo || lo < last_semicolon(t, lo, p) <= p,
    decreases p - lo,
{
    if !(p <= lo || p >= t.len()) && t[p] != ';' {
        lemma_last_semicolon_bounds(t, lo, p - 1);
    }
}

proof fn lemma_last_quote_semicolon_bounds(t: Seq<char>, lo: int, p: int)
    ensures
        last_quote_semicolon(t, lo, p) == lo || lo < last_quote_semicolon(t, lo, p) <= p,
    decreases p - lo,
{
    if !(p <= lo || p + 1 >= t.len()) && !(t[p] == '\'' && t[p + 1] == ';') {
        lemma_last_quote_semicolon_bounds(t, lo, p - 1);
    }
}

fn word_at_exec(t: &Vec<char>, i: usize, word: &[char]) -> (r: bool)
    ensures
        r == word_at(t@, i as int, word@),
        r ==> i + word@.len() <= t@.len(),
{
    if i > t.len() || word.len() > t.len() - i {
        return false;
    }
    let n = t.len();
    let mut q: usize = 0;
    while q < word.len()
        invariant
            n == t@.len(),
            i + word@.len() <= t@.len(),
            q <= word@.len(),
            forall|x: int| 0 <= x < q ==> t@[i + x] == word@[x],
        decreases word@.len() - q,
    {
        if t[i + q] != word[q] {
            assert(t@.subrange(i as int, i + word@.len())[q as int] != word@[q as int]);
            return false;
        }
        q = q + 1;
    }
    assert(t@.subrange(i as int, i + word@.len()) == word@);
    true
}

fn assignment_at_exec(t: &Vec<char>, i: usize) -> (r: Option<(usize, usize)>)
    requires
        i < t@.len(),
    ensures
        match assignment_at(t@, i as int) {
            Some((a, b)) => r == Some((a as usize, b as usize)) && i < a < b < t@.len(),
            None => r is None,
        },
{
    let keyword = ['v', 'a', 'r', ' ', 'r', 'e', 's', 'u', 'l', 't'];
    let w = keyword.as_slice();
    assert(w@ == result_keyword());
    assert(result_keyword().len() == 10);
    if !word_at_exec(t, i, w) {
        return None;
    }
    let n = t.len();
    assert(i + 10 <= n);
    let j = ws_end_exec(t, i + 10);
    proof {
        lemma_ws_end_bounds(t@, i + 10);
    }
    if !(j > i + 10 && j < t.len() && t[j] == '=') {
        return None;
    }
    let k = ws_end_exec(t, j + 1);
    proof {
        lemma_ws_end_bounds(t@, j + 1);
    }
    if !(k > j + 1 && k < t.len()) {
        return None;
    }
    let e = line_end_exec(t, k);
    let mut p: usize = e - 1;
    proof {
        lemma_last_semicolon_bounds(t@, k as int, e - 1);
    }
    if e == k {
        assert(last_semicolon(t@, k as int, e - 1) == k);
        p = k;
    } else {
        while p > k && t[p] != ';'
            invariant
                k <= p < t@.len(),
                last_semicolon(t@, k as int, e - 1) == last_semicolon(t@, k as int, p as int),
            decreases p,
        {
            p = p - 1;
        }
    }
    if p > k {
        Some((k, p))
    } else if t[k] == ';' && k - 1 > j + 1 && t[k - 1] != '\n' {
        Some((k - 1, k))
    } else {
        None
    }
}

fn marker_at_exec(t: &Vec<char>, i: usize) -> (r: Option<(usize, usize)>)
    requires
        i < t@.len(),
    ensures
        match marker_at(t@, i as int) {
            Some((a, b)) => r == Some((a as usize, b as usize)) && i < a < b && b + 2 <= t@.len(),
            None => r is None,
        },
{
    let keyword = ['c', 'o', 'n', 's', 't', ' ', 's', 'c', 'u', 'i', ' ', '=', ' ', '\''];
    let w = keyword.as_slice();
    assert(w@ == marker_keyword());
    assert(marker_keyword().len() == 14);
    if !word_at_exec(t, i, w) {
        return None;
    }
    let n = t.len();
    let k = i + 14;
    let e = line_end_exec(t, k);
    proof {
        lemma_last_quote_semicolon_bounds(t@, k as int, e - 2);
    }
    if e - k < 2 {
        assert(last_quote_semicolon(t@, k as int, e - 2) == k);
        return None;
    }
    let mut p: usize = e - 2;
    while p > k && !(t[p] == '\'' && t[p + 1] == ';')
        invariant
            k <= p,
            p + 2 <= e <= t@.len(),
            last_quote_semicolon(t@, k as int, e - 2) == last_quote_semicolon(t@, k as int, p as int),
        decreases p,
    {
        p = p - 1;
    }
    if p > k {
        Some((k, p))
    } else {
        None
    }
}

fn copy_range(t: &Vec<char>, a: usize, b: usize) -> (r: Vec<char>)
    requires
        a <= b <= t@.len(),
    ensures
        r@ == t@.subrange(a as int, b as int),
{
    let mut out: Vec<char> = Vec::new();
    let mut q = a;
    while q < b
        invariant
            a <= q <= b <= t@.len(),
            out@ == t@.subrange(a as int, q as int),
        decreases b - q,
    {
        out.push(t[q]);
        assert(t@.subrange(a as int, q + 1) == t@.subrange(a as int, q as int).push(t@[q as int]));
        q = q + 1;
    }
    out
}

/// The payload of the last `var result = ...;` statement of `page`, or the
/// empty string when the page has none.
pub fn extract_result_payload(page: &str) -> (r: String)
    ensures
        r@ == result_payload(page@),
{
    let t = chars_of(page);
    let mut acc: Vec<char> = Vec::new();
    let mut i: usize = 0;
    while i < t.len()
        invariant
            t@ == page@,
            i <= t@.len(),
            result_payload(page@) == scan_result(t@, i as int, acc@),
        decreases t@.len() - i,
    {
        match assignment_at_exec(&t, i) {
            Some((a, b)) => {
                acc = copy_range(&t, a, b);
                i = b + 1;
            },
            None => {
                i = i + 1;
            },
        }
    }
    string_of(&acc)
}

/// The value of the last `const scui = '...';` statement of `page`, or the
/// empty string when the page has none.
pub fn extract_session_marker(page: &str) -> (r: String)
    ensures
        r@ == marker_value(page@),
{
    let t = chars_of(page);
    let mut acc: Vec<char> = Vec::new();
    let mut i: usize = 0;
    while i < t.len()
        invariant
            t@ == page@,
            i <= t@.len(),
            marker_value(page@) == scan_marker(t@, i as int, acc@),
        decreases t@.len() - i,
    {
        match marker_at_exec(&t, i) {
            Some((a, b)) => {
                acc = copy_range(&t, a, b);
                i = b + 2;
            },
            None => {
                i = i + 1;
            },
        }
    }
    string_of(&acc)
}

} // verus!
