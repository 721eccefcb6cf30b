//! Cleaning of raw search text: dropping disallowed characters, trimming and
//! splitting on a delimiter.
use vstd::prelude::*;
use crate::text::{chars_of, string_of, is_whitespace, is_whitespace_char};

verus! {

pub open spec fn is_ascii_alphanumeric_char(c: char) -> bool {
    ('a' <= c && c <= 'z') || ('A' <= c && c <= 'Z') || ('0' <= c && c <= '9')
}

/// The punctuation that a search term may keep: `_./-@,#:;`.
pub open spec fn is_allowed_punctuation(c: char) -> bool {
    c == '_' || c == '.' || c == '/' || c == '-' || c == '@' || c == ',' || c == '#' || c == ':'
        || c == ';'
}

/// Whether the sanitizer keeps a character.
pub open spec fn is_allowed_char(c: char) -> bool {
    is_ascii_alphanumeric_char(c) || is_allowed_punctuation(c)
}

/// The text with every character that the sanitizer does not allow dropped.
pub open spec fn sanitized(s: Seq<char>) -> Seq<char> {
    s.filter(|c: char| is_allowed_char(c))
}

/// The text without its leading characters that satisfy `p`.
pub open spec fn trim_start_by(s: Seq<char>, p: spec_fn(char) -> bool) -> Seq<char>
    decreases s.len(),
{
    if s.len() > 0 && p(s[0]) {
        trim_start_by(s.drop_first(), p)
    } else {
        s
    }
}

/// The text without its trailing characters that satisfy `p`.
pub open spec fn trim_end_by(s: Seq<char>, p: spec_fn(char) -> bool) -> Seq<char>
    decreases s.len(),
{
    if s.len() > 0 && p(s.last()) {
        trim_end_by(s.drop_last(), p)
    } else {
        s
    }
}

/// The text without leading and trailing characters that satisfy `p`.
pub open spec fn trim_by(s: Seq<char>, p: spec_fn(char) -> bool) -> Seq<char> {
    trim_end_by(trim_start_by(s, p), p)
}

/// The text without leading and trailing whitespace.
pub open spec fn trimmed(s: Seq<char>) -> Seq<char> {
    trim_by(s, whitespace_pred())
}

pub open spec fn whitespace_pred() -> spec_fn(char) -> bool {
    |c: char| is_whitespace_char(c)
}

pub open spec fn comma_pred() -> spec_fn(char) -> bool {
    |c: char| c == ','
}

/// The text without leading and trailing commas.
pub open spec fn comma_trimmed(s: Seq<char>) -> Seq<char> {
    trim_by(s, comma_pred())
}

/// The pieces of `s` between occurrences of `sep`, as `str::split` gives them:
/// one more piece than there are separators, empty pieces included.
pub open spec fn split_on(s: Seq<char>, sep: char) -> Seq<Seq<char>>
    decreases s.len(),
{
    if s.len() == 0 {
        seq![Seq::<char>::empty()]
    } else {
        let parts = split_on(s.drop_last(), sep);
        if s.last() == sep {
            parts.push(Seq::<char>::empty())
        } else {
            parts.update(parts.len() - 1, parts.last().push(s.last()))
        }
    }
}

pub proof fn lemma_split_on_nonempty(s: Seq<char>, sep: char)
    ensures
        split_on(s, sep).len() >= 1,
    decreases s.len(),
{
    if s.len() > 0 {
        lemma_split_on_nonempty(s.drop_last(), sep);
    }
}

/// Whether a character is one that the sanitizer keeps.
pub fn is_allowed(c: char) -> (r: bool)
    ensures
        r == is_allowed_char(c),
{
    ('a' <= c && c <= 'z') || ('A' <= c && c <= 'Z') || ('0' <= c && c <= '9') || c == '_' || c
        == '.' || c == '/' || c == '-' || c == '@' || c == ',' || c == '#' || c == ':' || c == ';'
}

/// Keeps only ASCII letters and digits and the punctuation `_./-@,#:;`, in order.
pub fn sanitize_string(input: &str) -> (r: String)
    ensures
        r@ == sanitized(input@),
{
    let v = chars_of(input);
    let mut out: Vec<char> = Vec::new();
    let mut i: usize = 0;
    while i < v.len()
        invariant
            v@ == input@,
            0 <= i <= v@.len(),
            out@ == v@.take(i as int).filter(|c: char| is_allowed_char(c)),
        decreases v@.len() - i,
    {
        let c = v[i];
        proof {
            assert(v@.take(i + 1).drop_last() =~= v@.take(i as int));
            reveal(Seq::filter);
        }
        if is_allowed(c) {
            out.push(c);
        }
        i = i + 1;
    }
    proof {
        assert(v@.take(v@.len() as int) =~= v@);
    }
    string_of(&out)
}

proof fn lemma_trim_start_step(s: Seq<char>, i: int, p: spec_fn(char) -> bool)
    requires
        0 <= i < s.len(),
        p(s[i]),
    ensures
        trim_start_by(s.subrange(i, s.len() as int), p) == trim_start_by(
            s.subrange(i + 1, s.len() as int),
            p,
        ),
{
    assert(s.subrange(i, s.len() as int).drop_first() =~= s.subrange(i + 1, s.len() as int));
}

proof fn lemma_trim_end_step(s: Seq<char>, lo: int, j: int, p: spec_fn(char) -> bool)
    requires
        0 <= lo < j <= s.len(),
        p(s[j - 1]),
    ensures
        trim_end_by(s.subrange(lo, j), p) == trim_end_by(s.subrange(lo, j - 1), p),
{
    assert(s.subrange(lo, j).drop_last() =~= s.subrange(lo, j - 1));
}

/// The text without leading and trailing whitespace.
pub fn remove_leading_and_trailing_spaces(my_str: &str) -> (r: String)
    ensures
        r@ == trimmed(my_str@),
{
    let v = chars_of(my_str);
    let ghost p = whitespace_pred();
    let n = v.len();
    let mut i: usize = 0;
    assert(v@.subrange(0, n as int) =~= v@);
    while i < n && is_whitespace(v[i])
        invariant
            v@ == my_str@,
            p == whitespace_pred(),
            n == v@.len(),
            0 <= i <= n,
            trim_start_by(v@, p) == trim_start_by(v@.subrange(i as int, n as int), p),
        decreases n - i,
    {
        proof {
            lemma_trim_start_step(v@, i as int, p);
        }
        i = i + 1;
    }
    assert(trim_start_by(v@, p) == v@.subrange(i as int, n as int));
    let mut j: usize = n;
    while j > i && is_whitespace(v[j - 1])
        invariant
            v@ == my_str@,
            p == whitespace_pred(),
            n == v@.len(),
            0 <= i <= j <= n,
            trim_end_by(v@.subrange(i as int, n as int), p) == trim_end_by(
                v@.subrange(i as int, j as int),
                p,
            ),
        decreases j,
    {
        proof {
            lemma_trim_end_step(v@, i as int, j as int, p);
        }
        j = j - 1;
    }
    copy_range(&v, i, j)
}

/// The text without leading and trailing commas.
pub fn remove_leading_trailing_characters(input: &str) -> (r: String)
    ensures
        r@ == comma_trimmed(input@),
{
    let v = chars_of(input);
    let ghost p = comma_pred();
    let n = v.len();
    let mut i: usize = 0;
    assert(v@.subrange(0, n as int) =~= v@);
    while i < n && v[i] == ','
        invariant
            v@ == input@,
            p == comma_pred(),
            n == v@.len(),
            0 <= i <= n,
            trim_start_by(v@, p) == trim_start_by(v@.subrange(i as int, n as int), p),
        decreases n - i,
    {
        proof {
            lemma_trim_start_step(v@, i as int, p);
        }
        i = i + 1;
    }
    assert(trim_start_by(v@, p) == v@.subrange(i as int, n as int));
    let mut j: usize = n;
    while j > i && v[j - 1] == ','
        invariant
            v@ == input@,
            p == comma_pred(),
            n == v@.len(),
            0 <= i <= j <= n,
            trim_end_by(v@.subrange(i as int, n as int), p) == trim_end_by(
                v@.subrange(i as int, j as int),
                p,
            ),
        decreases j,
    {
        proof {
            lemma_trim_end_step(v@, i as int, j as int, p);
        }
        j = j - 1;
    }
    copy_range(&v, i, j)
}

/// The characters `v[lo..hi]` as a string.
fn copy_range(v: &Vec<char>, lo: usize, hi: usize) -> (r: String)
    requires
        lo <= hi <= v@.len(),
    ensures
        r@ == v@.subrange(lo as int, hi as int),
{
    let mut out: Vec<char> = Vec::new();
    let mut k: usize = lo;
    while k < hi
        invariant
            lo <= k <= hi <= v@.len(),
            out@ == v@.subrange(lo as int, k as int),
        decreases hi - k,
    {
        out.push(v[k]);
        k = k + 1;
        assert(out@ =~= v@.subrange(lo as int, k as int));
    }
    string_of(&out)
}

/// Splits `input` on every occurrence of `split_char`, keeping empty pieces.
pub fn split_string(input: &str, split_char: char) -> (r: Vec<String>)
    ensures
        r@.map_values(|p: String| p@) == split_on(input@, split_char),
{
    let v = chars_of(input);
    let mut parts: Vec<String> = Vec::new();
    let mut cur: Vec<char> = Vec::new();
    let mut i: usize = 0;
    assert(v@.take(0) =~= Seq::<char>::empty());
    assert(parts@.map_values(|p: String| p@).push(cur@) =~= split_on(v@.take(0), split_char));
    while i < v.len()
        invariant
            v@ == input@,
            0 <= i <= v@.len(),
            parts@.map_values(|p: String| p@).push(cur@) == split_on(v@.take(i as int), split_char),
        decreases v@.len() - i,
    {
        let c = v[i];
        proof {
            assert(v@.take(i + 1).drop_last() =~= v@.take(i as int));
            assert(v@.take(i + 1).last() == c);
        }
        let ghost before = split_on(v@.take(i as int), split_char);
        if c == split_char {
            let piece = string_of(&cur);
            parts.push(piece);
            cur = Vec::new();
            assert(parts@.map_values(|p: String| p@).push(cur@) =~= before.push(
                Seq::<char>::empty(),
            ));
        } else {
            cur.push(c);
            assert(parts@.map_values(|p: String| p@).push(cur@) =~= before.update(
                before.len() - 1,
                before.last().push(c),
            ));
        }
        i = i + 1;
    }
    let last = string_of(&cur);
    parts.push(last);
    proof {
        assert(v@.take(v@.len() as int) =~= v@);
        assert(parts@.map_values(|p: String| p@) =~= split_on(input@, split_char));
    }
    parts
}

/// Whether the pattern `[^a-zA-Z0-9-._@/,;:\s]+` leaves a character in place:
/// ASCII letters and digits, `-._@/,;:` and whitespace.
pub open spec fn is_plain_text_char(c: char) -> bool {
    is_ascii_alphanumeric_char(c) || c == '-' || c == '.' || c == '_' || c == '@' || c == '/' || c
        == ',' || c == ';' || c == ':' || is_whitespace_char(c)
}

/// The text with every run of commas shortened to a single comma.
pub open spec fn commas_collapsed(s: Seq<char>) -> Seq<char>
    decreases s.len(),
{
    if s.len() == 0 {
        s
    } else {
        let r = commas_collapsed(s.drop_last());
        if s.last() == ',' && s.len() >= 2 && s[s.len() - 2] == ',' {
            r
        } else {
            r.push(s.last())
        }
    }
}

/// Relies on `regex::Regex::replace_all` with the pattern `[^a-zA-Z0-9-._@/,;:\s]+`
/// and an empty replacement: every character outside the class is removed.
#[verifier::external_body]
fn remove_unlisted_characters(text: &str) -> (r: String)
    ensures
        r@ == text@.filter(|c: char| is_plain_text_char(c)),
{
    let re = regex::Regex::new(r"[^a-zA-Z0-9-._@/,;:\s]+").unwrap();
    re.replace_all(text, "").to_string()
}

/// Relies on `regex::Regex::replace_all` with the pattern `,+` and the replacement
/// `,`: each maximal run of commas becomes one comma.
#[verifier::external_body]
fn collapse_comma_runs(text: &str) -> (r: String)
    ensures
        r@ == commas_collapsed(text@),
{
    let re = regex::Regex::new(r",+").unwrap();
    re.replace_all(text, ",").to_string()
}

/// Removes every character other than ASCII letters and digits, `-._@/,;:` and whitespace.
pub fn get_sanitized_string(text: &str) -> (r: String)
    ensures
        r@ == text@.filter(|c: char| is_plain_text_char(c)),
{
    remove_unlisted_characters(text)
}

/// Replaces each run of consecutive commas by a single comma.
pub fn replace_multiple_characters(input: &str) -> (r: String)
    ensures
        r@ == commas_collapsed(input@),
{
    collapse_comma_runs(input)
}

} // verus!
