//! The predicate builder: turns columns and search terms into a WHERE-clause
//! fragment whose values are bound parameters `$1`, `$2`, ..., one per term.
//!
//! Within one term the columns are OR-combined; across terms the requested
//! operator governs. The meaning of the fragment on a row is given by
//! `predicate_holds`, which folds over the same structure as the text.
use vstd::prelude::*;
use crate::data_types::CustomError;
use crate::text::{chars_of, decimal, decimal_string, str_equal, string_of, texts};

verus! {

/// How a term is compared with a column.
#[derive(Debug, Clone, Copy, PartialEq, Eq, Structural)]
pub enum MatchMode {
    /// Case-insensitive equality.
    Exact,
    /// Case-insensitive containment.
    Substring,
}

/// How the term groups of a predicate combine.
#[derive(Debug, Clone, Copy, PartialEq, Eq, Structural)]
pub enum SearchOperator {
    And,
    Or,
}

/// A WHERE-clause fragment and the values of its parameters, `$1` first.
#[derive(Debug, Clone)]
pub struct Predicate {
    pub sql: String,
    pub params: Vec<String>,
}

/// The match mode named by `exact` or `like`.
pub open spec fn mode_of(pattern: Seq<char>) -> Option<MatchMode> {
    if pattern == "exact"@ {
        Some(MatchMode::Exact)
    } else if pattern == "like"@ {
        Some(MatchMode::Substring)
    } else {
        None
    }
}

/// The operator named by `and` or `or`.
pub open spec fn operator_of(name: Seq<char>) -> Option<SearchOperator> {
    if name == "and"@ {
        Some(SearchOperator::And)
    } else if name == "or"@ {
        Some(SearchOperator::Or)
    } else {
        None
    }
}

/// The parts joined in order, with `sep` between each two.
pub open spec fn join(parts: Seq<Seq<char>>, sep: Seq<char>) -> Seq<char>
    decreases parts.len(),
{
    if parts.len() == 0 {
        Seq::empty()
    } else if parts.len() == 1 {
        parts[0]
    } else {
        join(parts.drop_last(), sep) + sep + parts.last()
    }
}

pub open spec fn comparison_word(mode: MatchMode) -> Seq<char> {
    match mode {
        MatchMode::Exact => "="@,
        MatchMode::Substring => "LIKE"@,
    }
}

pub open spec fn operator_word(op: SearchOperator) -> Seq<char> {
    match op {
        SearchOperator::And => " AND "@,
        SearchOperator::Or => " OR "@,
    }
}

/// `lower(col::text) = lower($k)`, or with `LIKE` for a substring match.
pub open spec fn comparison_text(col: Seq<char>, k: nat, mode: MatchMode) -> Seq<char> {
    "lower("@ + col + "::text) "@ + comparison_word(mode) + " lower($"@ + decimal(k) + ")"@
}

/// The comparisons of every column with parameter `k`, OR-combined, in parentheses.
pub open spec fn term_group_text(cols: Seq<Seq<char>>, k: nat, mode: MatchMode) -> Seq<char> {
    "("@ + join(cols.map_values(|c: Seq<char>| comparison_text(c, k, mode)), " OR "@) + ")"@
}

/// The groups for parameters `1..=n`, combined by `op`, in parentheses.
pub open spec fn predicate_text(
    cols: Seq<Seq<char>>,
    n: nat,
    mode: MatchMode,
    op: SearchOperator,
) -> Seq<char> {
    "("@ + join(Seq::new(n, |i: int| term_group_text(cols, (i + 1) as nat, mode)), operator_word(op))
        + ")"@
}

/// Whether `LIKE` treats a character as special: `%`, `_` and the escape `\`.
pub open spec fn is_like_special(c: char) -> bool {
    c == '%' || c == '_' || c == '\\'
}

/// The term with each `LIKE` special character preceded by `\`.
pub open spec fn like_escaped(t: Seq<char>) -> Seq<char>
    decreases t.len(),
{
    if t.len() == 0 {
        t
    } else if is_like_special(t.last()) {
        like_escaped(t.drop_last()).push('\\').push(t.last())
    } else {
        like_escaped(t.drop_last()).push(t.last())
    }
}

/// The value bound for a term: the term itself for an exact match; for a
/// substring match, the escaped term between `%` wildcards.
pub open spec fn bound_value(term: Seq<char>, mode: MatchMode) -> Seq<char> {
    match mode {
        MatchMode::Exact => term,
        MatchMode::Substring => seq!['%'] + like_escaped(term) + seq!['%'],
    }
}

/// A row as the database shows it to a predicate: the text of each non-null
/// column, by column name.
pub type RowText = Map<Seq<char>, Seq<char>>;

/// Whether `a` occurs in `b` as a contiguous piece.
pub open spec fn is_infix(a: Seq<char>, b: Seq<char>) -> bool {
    exists|i: int| 0 <= i && i + a.len() <= b.len() && #[trigger] b.subrange(i, i + a.len()) == a
}

/// Whether one comparison holds on a row, where `low` is the database's `lower`.
/// A null column matches nothing.
pub open spec fn cell_matches(
    row: RowText,
    col: Seq<char>,
    term: Seq<char>,
    mode: MatchMode,
    low: spec_fn(Seq<char>) -> Seq<char>,
) -> bool {
    row.contains_key(col) && match mode {
        MatchMode::Exact => low(row[col]) == low(term),
        MatchMode::Substring => is_infix(low(term), low(row[col])),
    }
}

/// The disjunction of the values, in order.
pub open spec fn any_of(s: Seq<bool>) -> bool
    decreases s.len(),
{
    if s.len() == 0 {
        false
    } else {
        any_of(s.drop_last()) || s.last()
    }
}

/// The conjunction of the values, in order.
pub open spec fn all_of(s: Seq<bool>) -> bool
    decreases s.len(),
{
    if s.len() == 0 {
        true
    } else {
        all_of(s.drop_last()) && s.last()
    }
}

pub open spec fn combine(op: SearchOperator, s: Seq<bool>) -> bool {
    match op {
        SearchOperator::And => all_of(s),
        SearchOperator::Or => any_of(s),
    }
}

/// Whether the term group of `term` holds on a row: its comparisons OR-combined.
pub open spec fn group_holds(
    row: RowText,
    cols: Seq<Seq<char>>,
    term: Seq<char>,
    mode: MatchMode,
    low: spec_fn(Seq<char>) -> Seq<char>,
) -> bool {
    any_of(cols.map_values(|c: Seq<char>| cell_matches(row, c, term, mode, low)))
}

/// Whether the fragment `predicate_text(cols, terms.len(), mode, op)`, with the
/// values `bound_value(terms[i], mode)`, holds on a row: the term groups
/// combined by `op`.
pub open spec fn predicate_holds(
    row: RowText,
    cols: Seq<Seq<char>>,
    terms: Seq<Seq<char>>,
    mode: MatchMode,
    op: SearchOperator,
    low: spec_fn(Seq<char>) -> Seq<char>,
) -> bool {
    combine(op, terms.map_values(|t: Seq<char>| group_holds(row, cols, t, mode, low)))
}

/// The match mode named by `pattern_match`, if it names one.
pub fn parse_mode(pattern_match: &str) -> (r: Option<MatchMode>)
    ensures
        r == mode_of(pattern_match@),
{
    if str_equal(pattern_match, "exact") {
        Some(MatchMode::Exact)
    } else if str_equal(pattern_match, "like") {
        Some(MatchMode::Substring)
    } else {
        None
    }
}

/// The operator named by `search_type`, if it names one.
pub fn parse_operator(search_type: &str) -> (r: Option<SearchOperator>)
    ensures
        r == operator_of(search_type@),
{
    if str_equal(search_type, "and") {
        Some(SearchOperator::And)
    } else if str_equal(search_type, "or") {
        Some(SearchOperator::Or)
    } else {
        None
    }
}

/// The term with `LIKE`'s special characters escaped.
pub fn escape_like(term: &str) -> (r: String)
    ensures
        r@ == like_escaped(term@),
{
    let v = chars_of(term);
    let mut out: Vec<char> = Vec::new();
    let mut i: usize = 0;
    while i < v.len()
        invariant
            v@ == term@,
            0 <= i <= v@.len(),
            out@ == like_escaped(v@.take(i as int)),
        decreases v@.len() - i,
    {
        let c = v[i];
        assert(v@.take(i + 1).drop_last() =~= v@.take(i as int));
        if c == '%' || c == '_' || c == '\\' {
            out.push('\\');
        }
        out.push(c);
        i = i + 1;
    }
    assert(v@.take(v@.len() as int) =~= v@);
    string_of(&out)
}

/// The value bound for a term under a match mode.
pub fn bind_value(term: &str, mode: MatchMode) -> (r: String)
    ensures
        r@ == bound_value(term@, mode),
{
    match mode {
        MatchMode::Exact => String::from_str(term),
        MatchMode::Substring => {
            let mut s = String::from_str("%");
            let e = escape_like(term);
            s.append(e.as_str());
            s.append("%");
            proof {
                reveal_strlit("%");
                assert(s@ =~= bound_value(term@, mode));
            }
            s
        },
    }
}

/// The comparison of one column with parameter `k`.
fn comparison(col: &str, k: usize, mode: MatchMode) -> (r: String)
    ensures
        r@ == comparison_text(col@, k as nat, mode),
{
    let mut s = String::from_str("lower(");
    s.append(col);
    s.append("::text) ");
    match mode {
        MatchMode::Exact => s.append("="),
        MatchMode::Substring => s.append("LIKE"),
    }
    s.append(" lower($");
    let d = decimal_string(k);
    s.append(d.as_str());
    s.append(")");
    assert(s@ =~= comparison_text(col@, k as nat, mode));
    s
}

proof fn lemma_join_step(parts: Seq<Seq<char>>, sep: Seq<char>, i: int)
    requires
        0 <= i < parts.len(),
    ensures
        join(parts.take(i + 1), sep) == if i == 0 {
            parts[0]
        } else {
            join(parts.take(i), sep) + sep + parts[i]
        },
{
    assert(parts.take(i + 1).drop_last() =~= parts.take(i));
}

/// The term group of parameter `k` over the columns.
fn term_group(cols: &Vec<String>, k: usize, mode: MatchMode) -> (r: String)
    ensures
        r@ == term_group_text(texts(cols@), k as nat, mode),
{
    let ghost parts = texts(cols@).map_values(|c: Seq<char>| comparison_text(c, k as nat, mode));
    let mut body = String::new();
    let mut j: usize = 0;
    while j < cols.len()
        invariant
            0 <= j <= cols@.len(),
            parts == texts(cols@).map_values(|c: Seq<char>| comparison_text(c, k as nat, mode)),
            body@ == join(parts.take(j as int), " OR "@),
        decreases cols@.len() - j,
    {
        proof {
            lemma_join_step(parts, " OR "@, j as int);
        }
        if j > 0 {
            body.append(" OR ");
        }
        let c = comparison(cols[j].as_str(), k, mode);
        body.append(c.as_str());
        j = j + 1;
    }
    assert(parts.take(cols@.len() as int) =~= parts);
    let mut s = String::from_str("(");
    s.append(body.as_str());
    s.append(")");
    s
}

/// Builds the predicate for `search_strings` over `table_columns`: the term
/// groups, one per term with parameter `$i` for the `i`-th term, combined by
/// `search_type` (`and` or `or`), each comparing every column by
/// `pattern_match` (`exact` or `like`). Fails with `QueryError` when a name is
/// not recognized or either list is empty.
pub fn get_inner_query(
    table_columns: Vec<String>,
    search_strings: Vec<String>,
    pattern_match: String,
    search_type: String,
) -> (r: Result<Predicate, CustomError>)
    ensures
        r is Err <==> (mode_of(pattern_match@) is None || operator_of(search_type@) is None
            || table_columns@.len() == 0 || search_strings@.len() == 0),
        r is Err ==> r->Err_0 == CustomError::QueryError,
        r is Ok ==> r->Ok_0.sql@ == predicate_text(
            texts(table_columns@),
            search_strings@.len(),
            mode_of(pattern_match@)->Some_0,
            operator_of(search_type@)->Some_0,
        ),
        r is Ok ==> texts(r->Ok_0.params@) == texts(search_strings@).map_values(
            |t: Seq<char>| bound_value(t, mode_of(pattern_match@)->Some_0),
        ),
{
    let op = match parse_operator(search_type.as_str()) {
        Some(op) => op,
        None => return Err(CustomError::QueryError),
    };
    let mode = match parse_mode(pattern_match.as_str()) {
        Some(m) => m,
        None => return Err(CustomError::QueryError),
    };
    if table_columns.len() == 0 || search_strings.len() == 0 {
        return Err(CustomError::QueryError);
    }
    let n = search_strings.len();
    let ghost cols = texts(table_columns@);
    let ghost parts = Seq::new(n as nat, |i: int| term_group_text(cols, (i + 1) as nat, mode));
    let sep: &str = match op {
        SearchOperator::And => " AND ",
        SearchOperator::Or => " OR ",
    };
    let mut body = String::new();
    let mut params: Vec<String> = Vec::new();
    let mut i: usize = 0;
    while i < n
        invariant
            n == search_strings@.len(),
            0 <= i <= n,
            cols == texts(table_columns@),
            parts == Seq::new(n as nat, |i: int| term_group_text(cols, (i + 1) as nat, mode)),
            sep@ == operator_word(op),
            body@ == join(parts.take(i as int), operator_word(op)),
            params@.len() == i,
            forall|k: int|
                0 <= k < i ==> #[trigger] params@[k]@ == bound_value(search_strings@[k]@, mode),
        decreases n - i,
    {
        proof {
            lemma_join_step(parts, operator_word(op), i as int);
        }
        if i > 0 {
            body.append(sep);
        }
        let g = term_group(&table_columns, i + 1, mode);
        body.append(g.as_str());
        let v = bind_value(search_strings[i].as_str(), mode);
        params.push(v);
        i = i + 1;
    }
    assert(parts.take(n as int) =~= parts);
    let mut sql = String::from_str("(");
    sql.append(body.as_str());
    sql.append(")");
    assert(texts(params@) =~= texts(search_strings@).map_values(
        |t: Seq<char>| bound_value(t, mode),
    ));
    Ok(Predicate { sql, params })
}

proof fn lemma_any_of(s: Seq<bool>)
    ensures
        any_of(s) <==> exists|i: int| 0 <= i < s.len() && #[trigger] s[i],
    decreases s.len(),
{
    if s.len() > 0 {
        lemma_any_of(s.drop_last());
        if any_of(s.drop_last()) {
            let i = choose|i: int| 0 <= i < s.drop_last().len() && #[trigger] s.drop_last()[i];
            assert(s[i]);
        }
        if exists|i: int| 0 <= i < s.len() && #[trigger] s[i] {
            let i = choose|i: int| 0 <= i < s.len() && #[trigger] s[i];
            if i < s.len() - 1 {
                assert(s.drop_last()[i]);
            }
        }
    }
}

proof fn lemma_all_of(s: Seq<bool>)
    ensures
        all_of(s) <==> forall|i: int| 0 <= i < s.len() ==> #[trigger] s[i],
    decreases s.len(),
{
    if s.len() > 0 {
        lemma_all_of(s.drop_last());
        if forall|i: int| 0 <= i < s.len() ==> #[trigger] s[i] {
            assert forall|i: int| 0 <= i < s.drop_last().len() implies #[trigger] s.drop_last()[i] by {
                assert(s[i]);
            }
        }
        if all_of(s) {
            assert forall|i: int| 0 <= i < s.len() implies #[trigger] s[i] by {
                if i < s.len() - 1 {
                    assert(s.drop_last()[i]);
                }
            }
        }
    }
}

/// Whether some column matches the term.
pub open spec fn term_matches(
    row: RowText,
    cols: Seq<Seq<char>>,
    term: Seq<char>,
    mode: MatchMode,
    low: spec_fn(Seq<char>) -> Seq<char>,
) -> bool {
    exists|j: int| 0 <= j < cols.len() && #[trigger] cell_matches(row, cols[j], term, mode, low)
}

/// A term group holds on a row exactly when some column matches the term.
pub proof fn lemma_group_holds(
    row: RowText,
    cols: Seq<Seq<char>>,
    term: Seq<char>,
    mode: MatchMode,
    low: spec_fn(Seq<char>) -> Seq<char>,
)
    ensures
        group_holds(row, cols, term, mode, low) == term_matches(row, cols, term, mode, low),
{
    let s = cols.map_values(|c: Seq<char>| cell_matches(row, c, term, mode, low));
    lemma_any_of(s);
    if group_holds(row, cols, term, mode, low) {
        let j = choose|j: int| 0 <= j < s.len() && #[trigger] s[j];
        assert(cell_matches(row, cols[j], term, mode, low));
    }
    if term_matches(row, cols, term, mode, low) {
        let j = choose|j: int|
            0 <= j < cols.len() && #[trigger] cell_matches(row, cols[j], term, mode, low);
        assert(s[j]);
    }
}

/// With `and`, a row matches exactly when every term matches some column; with
/// `or`, exactly when some term matches some column.
pub proof fn lemma_operator_semantics(
    row: RowText,
    cols: Seq<Seq<char>>,
    terms: Seq<Seq<char>>,
    mode: MatchMode,
    op: SearchOperator,
    low: spec_fn(Seq<char>) -> Seq<char>,
)
    ensures
        op == SearchOperator::And ==> (predicate_holds(row, cols, terms, mode, op, low) <==> forall|
            i: int,
        | 0 <= i < terms.len() ==> #[trigger] term_matches(row, cols, terms[i], mode, low)),
        op == SearchOperator::Or ==> (predicate_holds(row, cols, terms, mode, op, low) <==> exists|
            i: int,
        | 0 <= i < terms.len() && #[trigger] term_matches(row, cols, terms[i], mode, low)),
{
    let s = terms.map_values(|t: Seq<char>| group_holds(row, cols, t, mode, low));
    assert forall|i: int| 0 <= i < terms.len() implies #[trigger] s[i] == term_matches(
        row,
        cols,
        terms[i],
        mode,
        low,
    ) by {
        lemma_group_holds(row, cols, terms[i], mode, low);
    }
    lemma_any_of(s);
    lemma_all_of(s);
    if op == SearchOperator::Or {
        if predicate_holds(row, cols, terms, mode, op, low) {
            let i = choose|i: int| 0 <= i < s.len() && #[trigger] s[i];
            assert(term_matches(row, cols, terms[i], mode, low));
        }
        if exists|i: int| 0 <= i < terms.len() && #[trigger] term_matches(row, cols, terms[i], mode, low) {
            let i = choose|i: int|
                0 <= i < terms.len() && #[trigger] term_matches(row, cols, terms[i], mode, low);
            assert(s[i]);
        }
    } else {
        if predicate_holds(row, cols, terms, mode, op, low) {
            assert forall|i: int| 0 <= i < terms.len() implies #[trigger] term_matches(
                row,
                cols,
                terms[i],
                mode,
                low,
            ) by {
                assert(s[i]);
            }
        }
        if forall|i: int| 0 <= i < terms.len() ==> #[trigger] term_matches(row, cols, terms[i], mode, low) {
            assert forall|i: int| 0 <= i < s.len() implies #[trigger] s[i] by {
                assert(term_matches(row, cols, terms[i], mode, low));
            }
        }
    }
}

/// Reordering the columns does not change which rows a predicate matches.
pub proof fn lemma_column_order_irrelevant(
    row: RowText,
    cols: Seq<Seq<char>>,
    reordered: Seq<Seq<char>>,
    terms: Seq<Seq<char>>,
    mode: MatchMode,
    op: SearchOperator,
    low: spec_fn(Seq<char>) -> Seq<char>,
)
    requires
        reordered.to_multiset() =~= cols.to_multiset(),
    ensures
        predicate_holds(row, reordered, terms, mode, op, low) == predicate_holds(
            row,
            cols,
            terms,
            mode,
            op,
            low,
        ),
{
    assert forall|t: Seq<char>|
        #[trigger] group_holds(row, reordered, t, mode, low) == group_holds(
            row,
            cols,
            t,
            mode,
            low,
        ) by {
        lemma_group_holds(row, reordered, t, mode, low);
        lemma_group_holds(row, cols, t, mode, low);
        if group_holds(row, reordered, t, mode, low) {
            let j = choose|j: int|
                0 <= j < reordered.len() && #[trigger] cell_matches(row, reordered[j], t, mode, low);
            let c = reordered[j];
            assert(reordered.contains(c));
            reordered.to_multiset_ensures();
            cols.to_multiset_ensures();
            assert(reordered.to_multiset().count(c) > 0);
            assert(cols.to_multiset().count(c) > 0);
            assert(cols.contains(c));
            let k = choose|k: int| 0 <= k < cols.len() && cols[k] == c;
            assert(cell_matches(row, cols[k], t, mode, low));
        }
        if group_holds(row, cols, t, mode, low) {
            let j = choose|j: int|
                0 <= j < cols.len() && #[trigger] cell_matches(row, cols[j], t, mode, low);
            let c = cols[j];
            assert(cols.contains(c));
            reordered.to_multiset_ensures();
            cols.to_multiset_ensures();
            assert(cols.to_multiset().count(c) > 0);
            assert(reordered.to_multiset().count(c) > 0);
            assert(reordered.contains(c));
            let k = choose|k: int| 0 <= k < reordered.len() && reordered[k] == c;
            assert(cell_matches(row, reordered[k], t, mode, low));
        }
    }
    assert(terms.map_values(|t: Seq<char>| group_holds(row, reordered, t, mode, low))
        =~= terms.map_values(|t: Seq<char>| group_holds(row, cols, t, mode, low)));
}

/// For columns `c1`, `c2`, the term `abc`, an exact match and `or`, the
/// fragment is `((lower(c1::text) = lower($1) OR lower(c2::text) = lower($1)))`,
/// its one value is `abc`, and it holds on a row exactly when
/// `lower(c1) = lower('abc')` or `lower(c2) = lower('abc')`.
pub proof fn lemma_two_column_exact_round_trip(
    row: RowText,
    c1: Seq<char>,
    c2: Seq<char>,
    low: spec_fn(Seq<char>) -> Seq<char>,
)
    ensures
        predicate_text(seq![c1, c2], 1, MatchMode::Exact, SearchOperator::Or) == "((lower("@ + c1
            + "::text) = lower($1) OR lower("@ + c2 + "::text) = lower($1)))"@,
        bound_value("abc"@, MatchMode::Exact) == "abc"@,
        predicate_holds(row, seq![c1, c2], seq!["abc"@], MatchMode::Exact, SearchOperator::Or, low)
            <==> ((row.contains_key(c1) && low(row[c1]) == low("abc"@)) || (row.contains_key(c2)
            && low(row[c2]) == low("abc"@))),
{
    let cols = seq![c1, c2];
    let parts = cols.map_values(|c: Seq<char>| comparison_text(c, 1, MatchMode::Exact));
    assert(parts.drop_last() =~= seq![comparison_text(c1, 1, MatchMode::Exact)]);
    assert(join(parts.drop_last(), " OR "@) == parts[0]);
    assert(join(parts, " OR "@) == parts[0] + " OR "@ + parts[1]);
    assert(decimal(1) =~= seq!['1']);
    let groups = Seq::new(1, |i: int| term_group_text(cols, (i + 1) as nat, MatchMode::Exact));
    assert(join(groups, " OR "@) == term_group_text(cols, 1, MatchMode::Exact));
    reveal_strlit("lower(");
    reveal_strlit("::text) ");
    reveal_strlit("=");
    reveal_strlit(" lower($");
    reveal_strlit(")");
    reveal_strlit(" OR ");
    reveal_strlit("(");
    reveal_strlit("((lower(");
    reveal_strlit("::text) = lower($1) OR lower(");
    reveal_strlit("::text) = lower($1)))");
    assert(predicate_text(cols, 1, MatchMode::Exact, SearchOperator::Or) =~= "((lower("@ + c1
        + "::text) = lower($1) OR lower("@ + c2 + "::text) = lower($1)))"@);
    let s = cols.map_values(|c: Seq<char>| cell_matches(row, c, "abc"@, MatchMode::Exact, low));
    assert(s.drop_last().drop_last() =~= Seq::<bool>::empty());
    assert(!any_of(s.drop_last().drop_last()));
    assert(s.drop_last().last() == s[0]);
    assert(any_of(s.drop_last()) == s[0]);
    assert(group_holds(row, cols, "abc"@, MatchMode::Exact, low) == (s[0] || s[1]));
    let g = seq!["abc"@].map_values(
        |t: Seq<char>| group_holds(row, cols, t, MatchMode::Exact, low),
    );
    assert(g.drop_last() =~= Seq::<bool>::empty());
    assert(any_of(g) == g[0]);
}

} // verus!
