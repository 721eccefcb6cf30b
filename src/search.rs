//! Parsing of a raw search string into terms and an operator.
use vstd::prelude::*;
use crate::data_types::{CustomErrorType, GenericError, SearchStringData};
use crate::string_ops::{
    remove_leading_and_trailing_spaces, sanitize_string, sanitized, split_on, split_string,
    trimmed,
};
use crate::text::chars_of;

verus! {

/// Whether a raw search mixes the AND delimiter `+` and the OR delimiter `|`.
pub open spec fn is_ambiguous(raw: Seq<char>) -> bool {
    raw.contains('+') && raw.contains('|')
}

/// The operator of an unambiguous search: `and` when it holds `+`, `or` otherwise.
pub open spec fn operator_text(raw: Seq<char>) -> Seq<char> {
    if raw.contains('+') {
        "and"@
    } else {
        "or"@
    }
}

/// The terms of a raw search before cleaning: the pieces between `+` when it
/// holds `+`, else between `|` when it holds `|`, else the whole text.
pub open spec fn raw_terms(raw: Seq<char>) -> Seq<Seq<char>> {
    if raw.contains('+') {
        split_on(raw, '+')
    } else if raw.contains('|') {
        split_on(raw, '|')
    } else {
        seq![raw]
    }
}

/// A term as it is used: trimmed, then sanitized.
pub open spec fn clean_term(t: Seq<char>) -> Seq<char> {
    sanitized(trimmed(t))
}

/// The cleaned terms of a raw search.
pub open spec fn search_terms(raw: Seq<char>) -> Seq<Seq<char>> {
    raw_terms(raw).map_values(|t: Seq<char>| clean_term(t))
}

/// Whether `c` occurs in `v`.
pub fn contains_char(v: &Vec<char>, c: char) -> (r: bool)
    ensures
        r == v@.contains(c),
{
    let mut i: usize = 0;
    while i < v.len()
        invariant
            0 <= i <= v@.len(),
            forall|k: int| 0 <= k < i ==> v@[k] != c,
        decreases v@.len() - i,
    {
        if v[i] == c {
            assert(v@[i as int] == c);
            return true;
        }
        i = i + 1;
    }
    false
}

/// Trims and then sanitizes each piece, in order.
fn clean_terms(pieces: &Vec<String>) -> (r: Vec<String>)
    ensures
        r@.map_values(|p: String| p@) == pieces@.map_values(|p: String| p@).map_values(
            |t: Seq<char>| clean_term(t),
        ),
{
    let mut out: Vec<String> = Vec::new();
    let mut i: usize = 0;
    while i < pieces.len()
        invariant
            0 <= i <= pieces@.len(),
            out@.len() == i,
            forall|k: int| 0 <= k < i ==> #[trigger] out@[k]@ == clean_term(pieces@[k]@),
        decreases pieces@.len() - i,
    {
        let t = remove_leading_and_trailing_spaces(pieces[i].as_str());
        let s = sanitize_string(t.as_str());
        out.push(s);
        i = i + 1;
    }
    assert(out@.map_values(|p: String| p@) =~= pieces@.map_values(|p: String| p@).map_values(
        |t: Seq<char>| clean_term(t),
    ));
    out
}

/// Splits a raw search into cleaned terms and an operator. A search that
/// holds both `+` and `|` is rejected as ambiguous.
pub fn get_valid_search_strings(input_search_string: &str) -> (r: Result<
    SearchStringData,
    CustomErrorType,
>)
    ensures
        is_ambiguous(input_search_string@) <==> r is Err,
        r is Err ==> r->Err_0.err_type == GenericError::InvalidInput,
        r is Ok ==> r->Ok_0.search_string@.map_values(|p: String| p@) == search_terms(
            input_search_string@,
        ),
        r is Ok ==> r->Ok_0.search_type@ == operator_text(input_search_string@),
{
    let v = chars_of(input_search_string);
    let has_and = contains_char(&v, '+');
    let has_or = contains_char(&v, '|');
    if has_and && has_or {
        return Err(
            CustomErrorType {
                err_type: GenericError::InvalidInput,
                err_msg: String::from_str(
                    "cannot search: the search holds both '+' (AND search) and '|' (OR search)",
                ),
            },
        );
    }
    let pieces: Vec<String>;
    let search_type: String;
    if has_and {
        pieces = split_string(input_search_string, '+');
        search_type = String::from_str("and");
    } else if has_or {
        pieces = split_string(input_search_string, '|');
        search_type = String::from_str("or");
    } else {
        pieces = vec![String::from_str(input_search_string)];
        search_type = String::from_str("or");
        assert(pieces@.map_values(|p: String| p@) =~= seq![input_search_string@]);
    }
    let terms = clean_terms(&pieces);
    Ok(SearchStringData { search_string: terms, search_type })
}

/// A search with `+` and no `|` combines its terms with `and`, and its terms
/// are the pieces between the `+` signs, each trimmed and sanitized.
pub proof fn lemma_and_search(raw: Seq<char>)
    requires
        raw.contains('+'),
        !raw.contains('|'),
    ensures
        !is_ambiguous(raw),
        operator_text(raw) == "and"@,
        search_terms(raw) == split_on(raw, '+').map_values(|t: Seq<char>| clean_term(t)),
{
}

/// A search with neither `+` nor `|` is one term, combined with `or`.
pub proof fn lemma_single_term_search(raw: Seq<char>)
    requires
        !raw.contains('+'),
        !raw.contains('|'),
    ensures
        !is_ambiguous(raw),
        operator_text(raw) == "or"@,
        search_terms(raw) == seq![clean_term(raw)],
{
    assert(seq![raw].map_values(|t: Seq<char>| clean_term(t)) =~= seq![clean_term(raw)]);
}

} // verus!
