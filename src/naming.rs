//! Deterministic names for the document store: a directory per record and a
//! file per attachment. Both strip a fixed set of characters and collapse
//! runs of underscores, so the same record always lands at the same path.

use vstd::prelude::*;
use crate::text::{concat, replace_char, replace_char_in, string_of, trim, trim_chars, trim_end, trim_start, is_ws};

verus! {

/// The two character sets that names are cleaned of.
#[derive(Debug, Clone, Copy, PartialEq, Eq, Structural)]
pub enum CharClass {
    /// Directory names: `."\n \t()'~` and U+001C.
    DirName,
    /// File names: `"\n \t()'?~` and U+001C.
    FileName,
}

/// Whether `c` is cleaned out of names of `class`.
pub open spec fn is_illegal(class: CharClass, c: char) -> bool {
    ||| c == '"'
    ||| c == '\n'
    ||| c == ' '
    ||| c == '\t'
    ||| c == '('
    ||| c == ')'
    ||| c == '\''
    ||| c == '~'
    ||| c == '\u{1c}'
    ||| (class == CharClass::DirName && c == '.')
    ||| (class == CharClass::FileName && c == '?')
}

/// Every illegal character replaced by `_`.
pub open spec fn mask(s: Seq<char>, class: CharClass) -> Seq<char> {
    s.map_values(|c: char| if is_illegal(class, c) { '_' } else { c })
}

/// Every run of underscores replaced by one underscore.
pub open spec fn collapse(s: Seq<char>) -> Seq<char>
    decreases s.len(),
{
    if s.len() == 0 {
        s
    } else {
        let r = collapse(s.drop_last());
        if s.last() == '_' && r.len() > 0 && r.last() == '_' {
            r
        } else {
            r.push(s.last())
        }
    }
}

/// A name part cleaned: trimmed, illegal characters made `_`, runs of `_` collapsed.
pub open spec fn sanitize(s: Seq<char>, class: CharClass) -> Seq<char> {
    collapse(mask(trim(s), class))
}

/// `{receipt date with '.' made '-'}_{cleaned subject}`.
pub open spec fn dir_name(date: Seq<char>, subject: Seq<char>) -> Seq<char> {
    replace_char(date, '.', '-') + seq!['_'] + sanitize(subject, CharClass::DirName)
}

/// `{registration number}_{organisation with ' ' made '_'}_{cleaned file name}`.
pub open spec fn file_name(reg: Seq<char>, org: Seq<char>, file: Seq<char>) -> Seq<char> {
    reg + seq!['_'] + replace_char(org, ' ', '_') + seq!['_'] + sanitize(file, CharClass::FileName)
}

/// The regular expression of a character class: its characters between brackets.
pub open spec fn class_pattern(class: CharClass) -> Seq<char> {
    match class {
        CharClass::DirName => seq!['[', '.', '"', '\n', ' ', '\t', '(', ')', '\'', '~', '\u{1c}', ']'],
        CharClass::FileName => seq!['[', '"', '\n', ' ', '\t', '(', ')', '\'', '?', '~', '\u{1c}', ']'],
    }
}

/// The regular expression `_+`.
pub open spec fn underscore_runs() -> Seq<char> {
    seq!['_', '+']
}

/// Relies on regex's `Regex::new` and `Regex::replace_all`. The replacement
/// `_` holds no `$`, so it is inserted as it is. A pattern that is one class
/// of literal characters matches each such character alone, which becomes
/// `_`; `_+` matches each maximal run of underscores, which becomes one `_`.
/// These patterns compile, so `Regex::new` does not fail on them.
#[verifier::external_body]
fn replace_all(pattern: &str, text: &str, rep: &str) -> (r: String)
    requires
        pattern@ == class_pattern(CharClass::DirName) || pattern@ == class_pattern(CharClass::FileName)
            || pattern@ == underscore_runs(),
        rep@ == seq!['_'],
    ensures
        pattern@ == class_pattern(CharClass::DirName) ==> r@ == mask(text@, CharClass::DirName),
        pattern@ == class_pattern(CharClass::FileName) ==> r@ == mask(text@, CharClass::FileName),
        pattern@ == underscore_runs() ==> r@ == collapse(text@),
{
    regex::Regex::new(pattern).unwrap().replace_all(text, rep).into_owned()
}

/// Cleans one part of a name.
pub(crate) fn sanitize_part(s: &str, class: CharClass) -> (r: String)
    ensures
        r@ == sanitize(s@, class),
{
    proof {
        reveal_strlit("[.\"\n \t()'~\u{1c}]");
        reveal_strlit("[\"\n \t()'?~\u{1c}]");
        reveal_strlit("_+");
        reveal_strlit("_");
    }
    let t = trimmed(s);
    let pattern = match class {
        CharClass::DirName => "[.\"\n \t()'~\u{1c}]",
        CharClass::FileName => "[\"\n \t()'?~\u{1c}]",
    };
    assert(pattern@ == class_pattern(class));
    assert("_+"@ == underscore_runs());
    assert("_"@ =~= seq!['_']);
    let masked = replace_all(pattern, t.as_str(), "_");
    replace_all("_+", masked.as_str(), "_")
}

/// The directory of a record: `{request_date with '.' made '-'}_{cleaned request_subject}`.
pub(crate) fn make_dirname(request_date: &str, request_subject: &str) -> (r: String)
    ensures
        r@ == dir_name(request_date@, request_subject@),
{
    let date = replace_char_in(request_date, '.', '-');
    let head = concat(date.as_str(), "_");
    let subject = sanitize_part(request_subject, CharClass::DirName);
    proof {
        reveal_strlit("_");
    }
    concat(head.as_str(), subject.as_str())
}

/// The file of an attachment:
/// `{registration_number}_{rqest_full_instt_name with ' ' made '_'}_{cleaned file_name}`.
pub(crate) fn make_filename(registration_number: &str, rqest_full_instt_name: &str, file_name: &str) -> (r: String)
    ensures
        r@ == crate::naming::file_name(registration_number@, rqest_full_instt_name@, file_name@),
{
    proof {
        reveal_strlit("_");
    }
    let a = concat(registration_number, "_");
    let org = replace_char_in(rqest_full_instt_name, ' ', '_');
    let b = concat(a.as_str(), org.as_str());
    let c = concat(b.as_str(), "_");
    let f = sanitize_part(file_name, CharClass::FileName);
    concat(c.as_str(), f.as_str())
}

/// `s` with leading and trailing whitespace removed.
pub fn trimmed(s: &str) -> (r: String)
    ensures
        r@ == trim(s@),
{
    let v = trim_chars(s);
    string_of(&v)
}

proof fn lemma_collapse_draws_from(s: Seq<char>)
    ensures
        forall|k: int| 0 <= k < collapse(s).len() ==> s.contains(#[trigger] collapse(s)[k]),
    decreases s.len(),
{
    if s.len() > 0 {
        lemma_collapse_draws_from(s.drop_last());
        assert forall|k: int| 0 <= k < collapse(s).len() implies s.contains(#[trigger] collapse(s)[k]) by {
            let r = collapse(s.drop_last());
            if k < r.len() {
                assert(s.drop_last().contains(r[k]));
                let j = choose|j: int| 0 <= j < s.drop_last().len() && s.drop_last()[j] == r[k];
                assert(s[j] == r[k]);
            } else {
                assert(s[s.len() - 1] == collapse(s)[k]);
            }
        }
    }
}

proof fn lemma_collapse_no_runs(s: Seq<char>)
    ensures
        forall|k: int| 0 <= k < collapse(s).len() - 1 ==> !(#[trigger] collapse(s)[k] == '_' && collapse(s)[k + 1] == '_'),
    decreases s.len(),
{
    if s.len() > 0 {
        let r = collapse(s.drop_last());
        lemma_collapse_no_runs(s.drop_last());
        assert forall|k: int| 0 <= k < collapse(s).len() - 1 implies !(#[trigger] collapse(s)[k] == '_' && collapse(s)[k + 1] == '_') by {
            if k < r.len() - 1 {
                assert(collapse(s)[k] == r[k] && collapse(s)[k + 1] == r[k + 1]);
            } else {
                assert(collapse(s)[k] == r.last() && collapse(s)[k + 1] == s.last());
            }
        }
    }
}

proof fn lemma_collapse_ends(s: Seq<char>)
    requires
        s.len() > 0,
    ensures
        collapse(s).len() > 0,
        collapse(s)[0] == s[0],
        collapse(s).last() == s.last(),
    decreases s.len(),
{
    let r = collapse(s.drop_last());
    if s.len() > 1 {
        lemma_collapse_ends(s.drop_last());
        assert(r[0] == s[0]);
        assert(collapse(s)[0] == r[0]);
    } else {
        assert(s.drop_last().len() == 0);
        assert(r.len() == 0);
        assert(collapse(s) == r.push(s.last()));
    }
}

proof fn lemma_collapse_fixed(x: Seq<char>)
    requires
        forall|k: int| 0 <= k < x.len() - 1 ==> !(#[trigger] x[k] == '_' && x[k + 1] == '_'),
    ensures
        collapse(x) == x,
    decreases x.len(),
{
    if x.len() > 0 {
        let y = x.drop_last();
        assert forall|k: int| 0 <= k < y.len() - 1 implies !(#[trigger] y[k] == '_' && y[k + 1] == '_') by {
            assert(y[k] == x[k] && y[k + 1] == x[k + 1]);
        }
        lemma_collapse_fixed(y);
        if x.len() > 1 {
            assert(!(x[x.len() - 2] == '_' && x[x.len() - 1] == '_'));
        }
        assert(y.push(x.last()) == x);
    }
}

proof fn lemma_trim_start_first(s: Seq<char>)
    ensures
        trim_start(s).len() > 0 ==> !is_ws(trim_start(s)[0]),
    decreases s.len(),
{
    if s.len() > 0 && is_ws(s[0]) {
        lemma_trim_start_first(s.drop_first());
    }
}

proof fn lemma_trim_end_prefix(s: Seq<char>)
    ensures
        trim_end(s).len() > 0 ==> !is_ws(trim_end(s).last()),
        trim_end(s).len() <= s.len(),
        forall|k: int| 0 <= k < trim_end(s).len() ==> #[trigger] trim_end(s)[k] == s[k],
    decreases s.len(),
{
    if s.len() > 0 && is_ws(s.last()) {
        let d = s.drop_last();
        lemma_trim_end_prefix(d);
        assert forall|k: int| 0 <= k < trim_end(s).len() implies #[trigger] trim_end(s)[k] == s[k] by {
            assert(trim_end(d)[k] == d[k]);
        }
    }
}

proof fn lemma_trim_ends(s: Seq<char>)
    ensures
        trim(s).len() > 0 ==> !is_ws(trim(s)[0]) && !is_ws(trim(s).last()),
{
    let u = trim_start(s);
    lemma_trim_start_first(s);
    lemma_trim_end_prefix(u);
    if trim(s).len() > 0 {
        assert(trim(s)[0] == u[0]);
    }
}

proof fn lemma_trim_fixed(x: Seq<char>)
    requires
        x.len() > 0 ==> !is_ws(x[0]) && !is_ws(x.last()),
    ensures
        trim(x) == x,
{
}

/// A cleaned name part has no character of its class.
pub proof fn lemma_sanitize_clean(s: Seq<char>, class: CharClass)
    ensures
        forall|k: int| 0 <= k < sanitize(s, class).len() ==> !is_illegal(class, #[trigger] sanitize(s, class)[k]),
{
    let m = mask(trim(s), class);
    lemma_collapse_draws_from(m);
    assert forall|k: int| 0 <= k < sanitize(s, class).len() implies !is_illegal(class, #[trigger] sanitize(s, class)[k]) by {
        assert(m.contains(sanitize(s, class)[k]));
        let j = choose|j: int| 0 <= j < m.len() && m[j] == sanitize(s, class)[k];
        assert(!is_illegal(class, m[j]));
    }
}

/// Cleaning is idempotent: a cleaned part is left as it is by a second cleaning.
pub proof fn lemma_sanitize_idempotent(s: Seq<char>, class: CharClass)
    ensures
        sanitize(sanitize(s, class), class) == sanitize(s, class),
{
    let t = trim(s);
    let m = mask(t, class);
    let y = collapse(m);
    lemma_trim_ends(s);
    if m.len() > 0 {
        lemma_collapse_ends(m);
        assert(!is_ws(y[0]));
        assert(!is_ws(y.last()));
    }
    lemma_trim_fixed(y);
    lemma_sanitize_clean(s, class);
    assert forall|k: int| 0 <= k < y.len() implies #[trigger] mask(y, class)[k] == y[k] by {
        assert(y[k] == sanitize(s, class)[k]);
        assert(!is_illegal(class, y[k]));
    }
    assert(mask(y, class) =~= y);
    lemma_collapse_no_runs(m);
    lemma_collapse_fixed(y);
}

/// A directory name holds no character of the directory set, as long as the
/// receipt date holds none but `.` (which becomes `-`).
pub proof fn lemma_dir_name_clean(date: Seq<char>, subject: Seq<char>)
    requires
        forall|k: int| 0 <= k < date.len() ==> #[trigger] date[k] == '.' || !is_illegal(CharClass::DirName, date[k]),
    ensures
        forall|k: int| 0 <= k < dir_name(date, subject).len() ==> !is_illegal(CharClass::DirName, #[trigger] dir_name(date, subject)[k]),
{
    lemma_sanitize_clean(subject, CharClass::DirName);
    let d = replace_char(date, '.', '-');
    let n = dir_name(date, subject);
    assert forall|k: int| 0 <= k < n.len() implies !is_illegal(CharClass::DirName, #[trigger] n[k]) by {
        if k < d.len() {
            assert(n[k] == d[k]);
        } else if k == d.len() {
            assert(n[k] == '_');
        } else {
            assert(n[k] == sanitize(subject, CharClass::DirName)[k - d.len() - 1]);
        }
    }
}

/// Naming a record twice gives the same directory: the name of a record whose
/// subject is already clean is the name it had before cleaning.
pub proof fn lemma_dir_name_stable(date: Seq<char>, subject: Seq<char>)
    ensures
        dir_name(date, sanitize(subject, CharClass::DirName)) == dir_name(date, subject),
{
    lemma_sanitize_idempotent(subject, CharClass::DirName);
}

} // verus!
