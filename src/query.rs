//! Assembly of the page, count and export queries from one predicate.
use vstd::prelude::*;
use crate::data_types::{CustomError, ExportData, PageRequest};
use crate::predicate::{
    bound_value, get_inner_query, join, predicate_holds, predicate_text, MatchMode,
    Predicate, RowText, SearchOperator,
};
use crate::registry::{
    backend_table_of, columns_of, get_table_descriptor, is_first_position, is_known_table,
    names_position, TableDescriptor,
};
use crate::search::{get_valid_search_strings, is_ambiguous, operator_text, search_terms};
use crate::string_ops::lemma_split_on_nonempty;
use crate::text::{copy_strings, decimal, decimal_string, parse_u32, parsed_u32, str_equal, texts};

verus! {

/// A statement and the values of its parameters, `$1` first.
#[derive(Debug, Clone)]
pub struct SqlQuery {
    pub sql: String,
    pub params: Vec<String>,
}

/// The data and count statements of one page, which share one predicate and
/// so one list of parameter values.
#[derive(Debug, Clone)]
pub struct PageQuery {
    pub data_sql: String,
    pub count_sql: String,
    pub params: Vec<String>,
}

pub open spec fn is_sort_direction(dir: Seq<char>) -> bool {
    dir == "asc"@ || dir == "desc"@
}

/// ` WHERE <predicate>`, or nothing without a predicate.
pub open spec fn where_text(pred: Option<Seq<char>>) -> Seq<char> {
    match pred {
        Some(p) => " WHERE "@ + p,
        None => Seq::empty(),
    }
}

pub open spec fn page_data_text(
    table: Seq<char>,
    pred: Option<Seq<char>>,
    sort_column: Seq<char>,
    dir: Seq<char>,
    limit: nat,
    offset: nat,
) -> Seq<char> {
    "SELECT * FROM "@ + table + where_text(pred) + " ORDER BY "@ + sort_column + " "@ + dir
        + " LIMIT "@ + decimal(limit) + " OFFSET "@ + decimal(offset)
}

pub open spec fn count_text(table: Seq<char>, pred: Option<Seq<char>>) -> Seq<char> {
    "SELECT count(*) FROM "@ + table + where_text(pred)
}

pub open spec fn predicate_sql(p: Option<Predicate>) -> Option<Seq<char>> {
    match p {
        Some(p) => Some(p.sql@),
        None => None,
    }
}

pub open spec fn predicate_params(p: Option<Predicate>) -> Seq<Seq<char>> {
    match p {
        Some(p) => texts(p.params@),
        None => Seq::empty(),
    }
}

/// Builds the data statement of a page (its rows in sort order, `limit` of
/// them from `offset`) and the count statement of all rows it selects, both
/// from the same predicate. Fails with `QueryError` unless the direction is
/// `asc` or `desc`.
pub fn assemble_page_query(
    table: &TableDescriptor,
    predicate: Option<Predicate>,
    sort_column: &str,
    sort_direction: &str,
    limit: u32,
    offset: u32,
) -> (r: Result<PageQuery, CustomError>)
    ensures
        r is Err <==> !is_sort_direction(sort_direction@),
        r is Err ==> r->Err_0 == CustomError::QueryError,
        r is Ok ==> r->Ok_0.data_sql@ == page_data_text(
            table.backend_table@,
            predicate_sql(predicate),
            sort_column@,
            sort_direction@,
            limit as nat,
            offset as nat,
        ),
        r is Ok ==> r->Ok_0.count_sql@ == count_text(
            table.backend_table@,
            predicate_sql(predicate),
        ),
        r is Ok ==> texts(r->Ok_0.params@) == predicate_params(predicate),
{
    if !(str_equal(sort_direction, "asc") || str_equal(sort_direction, "desc")) {
        return Err(CustomError::QueryError);
    }
    let mut filter = String::new();
    let params: Vec<String>;
    match predicate {
        Some(p) => {
            filter.append(" WHERE ");
            filter.append(p.sql.as_str());
            params = p.params;
        },
        None => {
            params = Vec::new();
            assert(texts(params@) =~= Seq::<Seq<char>>::empty());
        },
    }
    assert(filter@ =~= where_text(predicate_sql(predicate)));
    let mut data_sql = String::from_str("SELECT * FROM ");
    data_sql.append(table.backend_table.as_str());
    data_sql.append(filter.as_str());
    data_sql.append(" ORDER BY ");
    data_sql.append(sort_column);
    data_sql.append(" ");
    data_sql.append(sort_direction);
    data_sql.append(" LIMIT ");
    let l = decimal_string(limit as usize);
    data_sql.append(l.as_str());
    data_sql.append(" OFFSET ");
    let o = decimal_string(offset as usize);
    data_sql.append(o.as_str());
    let mut count_sql = String::from_str("SELECT count(*) FROM ");
    count_sql.append(table.backend_table.as_str());
    count_sql.append(filter.as_str());
    assert(data_sql@ =~= page_data_text(
        table.backend_table@,
        predicate_sql(predicate),
        sort_column@,
        sort_direction@,
        limit as nat,
        offset as nat,
    ));
    assert(count_sql@ =~= count_text(table.backend_table@, predicate_sql(predicate)));
    Ok(PageQuery { data_sql, count_sql, params })
}

/// The operator of an unambiguous search: AND when it holds `+`.
pub open spec fn search_operator(raw: Seq<char>) -> SearchOperator {
    if raw.contains('+') {
        SearchOperator::And
    } else {
        SearchOperator::Or
    }
}

pub open spec fn mode_for(exact: bool) -> MatchMode {
    if exact {
        MatchMode::Exact
    } else {
        MatchMode::Substring
    }
}

/// Whether every term is empty: such a search filters nothing.
pub open spec fn all_empty(terms: Seq<Seq<char>>) -> bool {
    forall|i: int| 0 <= i < terms.len() ==> #[trigger] terms[i].len() == 0
}

/// The predicate text of a search over some columns, or none when every term
/// is empty.
pub open spec fn search_predicate_text(
    cols: Seq<Seq<char>>,
    raw: Seq<char>,
    exact: bool,
) -> Option<Seq<char>> {
    if all_empty(search_terms(raw)) {
        None
    } else {
        Some(predicate_text(cols, search_terms(raw).len(), mode_for(exact), search_operator(raw)))
    }
}

/// The parameter values of a search, matching `search_predicate_text`.
pub open spec fn search_params(raw: Seq<char>, exact: bool) -> Seq<Seq<char>> {
    if all_empty(search_terms(raw)) {
        Seq::empty()
    } else {
        search_terms(raw).map_values(|t: Seq<char>| bound_value(t, mode_for(exact)))
    }
}

/// The column at the first position that `index` names.
pub open spec fn column_at(cols: Seq<Seq<char>>, index: Seq<char>) -> Seq<char> {
    cols[choose|i: int| is_first_position(cols, index, i)]
}

proof fn lemma_first_position_unique(cols: Seq<Seq<char>>, index: Seq<char>, i: int, j: int)
    requires
        is_first_position(cols, index, i),
        is_first_position(cols, index, j),
    ensures
        i == j,
{
    if i < j {
        assert(decimal(i as nat) != index);
    } else if j < i {
        assert(decimal(j as nat) != index);
    }
}

proof fn lemma_operator_names(raw: Seq<char>)
    ensures
        crate::predicate::operator_of(operator_text(raw)) == Some(search_operator(raw)),
        crate::predicate::mode_of("exact"@) == Some(MatchMode::Exact),
        crate::predicate::mode_of("like"@) == Some(MatchMode::Substring),
{
    reveal_strlit("and");
    reveal_strlit("or");
    reveal_strlit("exact");
    reveal_strlit("like");
    assert("and"@.len() != "or"@.len());
    assert("like"@.len() != "exact"@.len());
}

/// Whether every string is empty.
fn all_blank(terms: &Vec<String>) -> (r: bool)
    ensures
        r == all_empty(texts(terms@)),
{
    let mut i: usize = 0;
    while i < terms.len()
        invariant
            0 <= i <= terms@.len(),
            forall|k: int| 0 <= k < i ==> #[trigger] terms@[k]@.len() == 0,
        decreases terms@.len() - i,
    {
        if terms[i].as_str().unicode_len() != 0 {
            assert(texts(terms@)[i as int].len() != 0);
            return false;
        }
        i = i + 1;
    }
    true
}

/// Builds the page and count statements of a page request: the table's rows
/// that match the search, sorted by the column at the requested position.
/// Fails with `InvalidTable` for an unknown table, then `QueryError` for an
/// index that names no column, then `InvalidData` for a search that mixes `+`
/// and `|`, then `QueryError` for a direction other than `asc` or `desc`.
pub fn build_page_query(req: &PageRequest) -> (r: Result<PageQuery, CustomError>)
    ensures
        !is_known_table(req.table_short_name@) ==> r == Err::<PageQuery, CustomError>(
            CustomError::InvalidTable,
        ),
        is_known_table(req.table_short_name@) && !names_position(
            columns_of(req.table_short_name@),
            req.sort_column_index@,
        ) ==> r == Err::<PageQuery, CustomError>(CustomError::QueryError),
        is_known_table(req.table_short_name@) && names_position(
            columns_of(req.table_short_name@),
            req.sort_column_index@,
        ) && is_ambiguous(req.search@) ==> r == Err::<PageQuery, CustomError>(
            CustomError::InvalidData,
        ),
        is_known_table(req.table_short_name@) && names_position(
            columns_of(req.table_short_name@),
            req.sort_column_index@,
        ) && !is_ambiguous(req.search@) && !is_sort_direction(req.sort_direction@) ==> r
            == Err::<PageQuery, CustomError>(CustomError::QueryError),
        r is Ok <==> is_known_table(req.table_short_name@) && names_position(
            columns_of(req.table_short_name@),
            req.sort_column_index@,
        ) && !is_ambiguous(req.search@) && is_sort_direction(req.sort_direction@),
        r is Ok ==> r->Ok_0.data_sql@ == page_data_text(
            backend_table_of(req.table_short_name@)->Some_0,
            search_predicate_text(columns_of(req.table_short_name@), req.search@, req.exact_search),
            column_at(columns_of(req.table_short_name@), req.sort_column_index@),
            req.sort_direction@,
            req.length as nat,
            req.start as nat,
        ),
        r is Ok ==> r->Ok_0.count_sql@ == count_text(
            backend_table_of(req.table_short_name@)->Some_0,
            search_predicate_text(columns_of(req.table_short_name@), req.search@, req.exact_search),
        ),
        r is Ok ==> texts(r->Ok_0.params@) == search_params(req.search@, req.exact_search),
{
    let desc = get_table_descriptor(req.table_short_name.as_str())?;
    let ghost cols = columns_of(req.table_short_name@);
    let sort_col = match desc.sort_column(req.sort_column_index.as_str()) {
        Some(c) => c,
        None => return Err(CustomError::QueryError),
    };
    proof {
        let i = choose|i: int|
            is_first_position(cols, req.sort_column_index@, i) && sort_col@ == cols[i];
        let j = choose|j: int| is_first_position(cols, req.sort_column_index@, j);
        lemma_first_position_unique(cols, req.sort_column_index@, i, j);
    }
    let parsed = match get_valid_search_strings(req.search.as_str()) {
        Ok(p) => p,
        Err(_) => return Err(CustomError::InvalidData),
    };
    if !(str_equal(req.sort_direction.as_str(), "asc") || str_equal(
        req.sort_direction.as_str(),
        "desc",
    )) {
        return Err(CustomError::QueryError);
    }
    proof {
        lemma_operator_names(req.search@);
    }
    let predicate = if all_blank(&parsed.search_string) {
        None
    } else {
        let mode = if req.exact_search {
            String::from_str("exact")
        } else {
            String::from_str("like")
        };
        let columns = copy_strings(&desc.columns);
        match get_inner_query(columns, parsed.search_string, mode, parsed.search_type) {
            Ok(p) => Some(p),
            Err(e) => return Err(e),
        }
    };
    assemble_page_query(
        &desc,
        predicate,
        sort_col.as_str(),
        req.sort_direction.as_str(),
        req.length,
        req.start,
    )
}

/// Whether the terms are the single marker `___` that asks for every row.
pub open spec fn is_no_filter(terms: Seq<Seq<char>>) -> bool {
    terms.len() == 1 && terms[0] == "___"@
}

/// Whether an export's terms ask for every row: the marker `___`, or terms
/// that are all empty.
pub open spec fn selects_all_rows(terms: Seq<Seq<char>>) -> bool {
    is_no_filter(terms) || (terms.len() > 0 && all_empty(terms))
}

/// `SELECT <columns joined by commas> FROM <table>`.
pub open spec fn export_select_text(table: Seq<char>, cols: Seq<Seq<char>>) -> Seq<char> {
    "SELECT "@ + join(cols, ","@) + " FROM "@ + table
}

/// Whether the terms are the marker `___`.
pub fn is_no_filter_terms(terms: &Vec<String>) -> (r: bool)
    ensures
        r == is_no_filter(texts(terms@)),
{
    terms.len() == 1 && str_equal(terms[0].as_str(), "___")
}

/// The columns joined by commas.
fn join_columns(cols: &Vec<String>) -> (r: String)
    ensures
        r@ == join(texts(cols@), ","@),
{
    let ghost parts = texts(cols@);
    let mut s = String::new();
    let mut i: usize = 0;
    while i < cols.len()
        invariant
            0 <= i <= cols@.len(),
            parts == texts(cols@),
            s@ == join(parts.take(i as int), ","@),
        decreases cols@.len() - i,
    {
        assert(parts.take(i + 1).drop_last() =~= parts.take(i as int));
        if i > 0 {
            s.append(",");
        }
        s.append(cols[i].as_str());
        i = i + 1;
    }
    assert(parts.take(cols@.len() as int) =~= parts);
    s
}

/// Builds the export statement of a table: all its columns, and only the rows
/// that match the search unless the terms are the marker `___` or all empty. Fails with
/// `InvalidTable` for an unknown table and with `QueryError` where the
/// predicate cannot be built (see `get_inner_query`).
pub fn build_export_query(
    table_name: &str,
    search_strings: Vec<String>,
    pattern_match: String,
    search_type: String,
) -> (r: Result<SqlQuery, CustomError>)
    ensures
        !is_known_table(table_name@) ==> r == Err::<SqlQuery, CustomError>(
            CustomError::InvalidTable,
        ),
        is_known_table(table_name@) && selects_all_rows(texts(search_strings@)) ==> r is Ok
            && r->Ok_0.sql@ == export_select_text(
            backend_table_of(table_name@)->Some_0,
            columns_of(table_name@),
        ) && r->Ok_0.params@.len() == 0,
        is_known_table(table_name@) && !selects_all_rows(texts(search_strings@)) ==> (r is Err <==> (
        crate::predicate::mode_of(pattern_match@) is None || crate::predicate::operator_of(
            search_type@,
        ) is None || search_strings@.len() == 0)),
        is_known_table(table_name@) && !selects_all_rows(texts(search_strings@)) && r is Err ==> r->Err_0
            == CustomError::QueryError,
        is_known_table(table_name@) && !selects_all_rows(texts(search_strings@)) && r is Ok ==> r->Ok_0.sql@
            == export_select_text(backend_table_of(table_name@)->Some_0, columns_of(table_name@))
            + " WHERE "@ + predicate_text(
            columns_of(table_name@),
            search_strings@.len(),
            crate::predicate::mode_of(pattern_match@)->Some_0,
            crate::predicate::operator_of(search_type@)->Some_0,
        ) && texts(r->Ok_0.params@) == texts(search_strings@).map_values(
            |t: Seq<char>| bound_value(t, crate::predicate::mode_of(pattern_match@)->Some_0),
        ),
{
    let desc = get_table_descriptor(table_name)?;
    let mut sql = String::from_str("SELECT ");
    let cols = join_columns(&desc.columns);
    sql.append(cols.as_str());
    sql.append(" FROM ");
    sql.append(desc.backend_table.as_str());
    if is_no_filter_terms(&search_strings) || (search_strings.len() > 0 && all_blank(
        &search_strings,
    )) {
        return Ok(SqlQuery { sql, params: Vec::new() });
    }
    let p = get_inner_query(desc.columns, search_strings, pattern_match, search_type)?;
    sql.append(" WHERE ");
    sql.append(p.sql.as_str());
    Ok(SqlQuery { sql, params: p.params })
}

/// Builds the export statement of an export request. Fails with
/// `InvalidData` for a search that mixes `+` and `|`, and otherwise as
/// `build_export_query` does on the search's cleaned terms and operator.
pub fn build_export_request_query(item: &ExportData) -> (r: Result<SqlQuery, CustomError>)
    ensures
        is_ambiguous(item.search_string@) ==> r == Err::<SqlQuery, CustomError>(
            CustomError::InvalidData,
        ),
        !is_ambiguous(item.search_string@) && !is_known_table(item.table_name@) ==> r == Err::<
            SqlQuery,
            CustomError,
        >(CustomError::InvalidTable),
        !is_ambiguous(item.search_string@) && is_known_table(item.table_name@) && selects_all_rows(
            search_terms(item.search_string@),
        ) ==> r is Ok && r->Ok_0.sql@ == export_select_text(
            backend_table_of(item.table_name@)->Some_0,
            columns_of(item.table_name@),
        ) && r->Ok_0.params@.len() == 0,
        !is_ambiguous(item.search_string@) && is_known_table(item.table_name@) && !selects_all_rows(
            search_terms(item.search_string@),
        ) ==> (r is Err <==> crate::predicate::mode_of(item.pattern_match@) is None),
        !is_ambiguous(item.search_string@) && is_known_table(item.table_name@) && !selects_all_rows(
            search_terms(item.search_string@),
        ) && r is Ok ==> r->Ok_0.sql@ == export_select_text(
            backend_table_of(item.table_name@)->Some_0,
            columns_of(item.table_name@),
        ) + " WHERE "@ + predicate_text(
            columns_of(item.table_name@),
            search_terms(item.search_string@).len(),
            crate::predicate::mode_of(item.pattern_match@)->Some_0,
            search_operator(item.search_string@),
        ) && texts(r->Ok_0.params@) == search_terms(item.search_string@).map_values(
            |t: Seq<char>| bound_value(t, crate::predicate::mode_of(item.pattern_match@)->Some_0),
        ),
{
    let parsed = match get_valid_search_strings(item.search_string.as_str()) {
        Ok(p) => p,
        Err(_) => return Err(CustomError::InvalidData),
    };
    proof {
        lemma_operator_names(item.search_string@);
        lemma_split_on_nonempty(item.search_string@, '+');
        lemma_split_on_nonempty(item.search_string@, '|');
    }
    build_export_query(
        item.table_name.as_str(),
        parsed.search_string,
        item.pattern_match.clone(),
        parsed.search_type,
    )
}

/// Whether a text has the shape of a hyphenated UUID: 36 characters, hyphens
/// at positions 8, 13, 18 and 23 and lowercase hex digits elsewhere.
pub open spec fn is_uuid_text(s: Seq<char>) -> bool {
    s.len() == 36 && forall|i: int|
        0 <= i < 36 ==> if i == 8 || i == 13 || i == 18 || i == 23 {
            #[trigger] s[i] == '-'
        } else {
            ('0' <= s[i] && s[i] <= '9') || ('a' <= s[i] && s[i] <= 'f')
        }
}

/// Relies on `uuid::Uuid::new_v4` and its `Display`, which writes the
/// hyphenated lowercase form. The value is random.
#[verifier::external_body]
fn new_uuid_text() -> (r: String)
    ensures
        is_uuid_text(r@),
{
    uuid::Uuid::new_v4().to_string()
}

/// The path of an export file named by `id`: `data_dir/<id>.csv`.
pub fn export_file_path(id: &str) -> (r: String)
    ensures
        r@ == "data_dir/"@ + id@ + ".csv"@,
{
    let mut s = String::from_str("data_dir/");
    s.append(id);
    s.append(".csv");
    s
}

/// A fresh export file path, named by a random UUID.
pub fn new_export_file_path() -> (r: String)
    ensures
        exists|id: Seq<char>| is_uuid_text(id) && r@ == "data_dir/"@ + id + ".csv"@,
{
    let id = new_uuid_text();
    export_file_path(id.as_str())
}

/// The number of rows in `rows` that a filter selects; no filter selects all.
pub open spec fn selected_count(
    rows: Seq<RowText>,
    filter: Option<(Seq<Seq<char>>, Seq<Seq<char>>, MatchMode, SearchOperator)>,
    low: spec_fn(Seq<char>) -> Seq<char>,
) -> nat
    decreases rows.len(),
{
    if rows.len() == 0 {
        0
    } else {
        let rest = selected_count(rows.drop_last(), filter, low);
        let hit = match filter {
            None => true,
            Some(f) => predicate_holds(rows.last(), f.0, f.1, f.2, f.3, low),
        };
        if hit {
            rest + 1
        } else {
            rest
        }
    }
}

/// The filter of an export: none for the marker `___` or all-empty terms,
/// else the predicate of the terms over the columns.
pub open spec fn export_filter(
    cols: Seq<Seq<char>>,
    terms: Seq<Seq<char>>,
    mode: MatchMode,
    op: SearchOperator,
) -> Option<(Seq<Seq<char>>, Seq<Seq<char>>, MatchMode, SearchOperator)> {
    if selects_all_rows(terms) {
        None
    } else {
        Some((cols, terms, mode, op))
    }
}

proof fn lemma_unfiltered_count(
    rows: Seq<RowText>,
    low: spec_fn(Seq<char>) -> Seq<char>,
)
    ensures
        selected_count(rows, None, low) == rows.len(),
    decreases rows.len(),
{
    if rows.len() > 0 {
        lemma_unfiltered_count(rows.drop_last(), low);
    }
}

/// An export whose terms are the marker `___` selects every row of the
/// table: its row count is the table's row count.
pub proof fn lemma_no_filter_exports_every_row(
    rows: Seq<RowText>,
    cols: Seq<Seq<char>>,
    terms: Seq<Seq<char>>,
    mode: MatchMode,
    op: SearchOperator,
    low: spec_fn(Seq<char>) -> Seq<char>,
)
    requires
        is_no_filter(terms),
    ensures
        selected_count(rows, export_filter(cols, terms, mode, op), low) == rows.len(),
{
    lemma_unfiltered_count(rows, low);
}

/// How many rows a statement with `LIMIT limit OFFSET offset` returns from
/// `total` selected rows.
pub open spec fn page_row_count(total: nat, offset: nat, limit: nat) -> nat {
    if offset >= total {
        0
    } else if total - offset <= limit {
        (total - offset) as nat
    } else {
        limit
    }
}

/// The data statement of a page returns no more rows than its count
/// statement counts, since both select by the same filter; when the page
/// size covers the remaining rows it returns exactly those after the offset.
pub proof fn lemma_page_within_count(
    rows: Seq<RowText>,
    filter: Option<(Seq<Seq<char>>, Seq<Seq<char>>, MatchMode, SearchOperator)>,
    offset: nat,
    limit: nat,
    low: spec_fn(Seq<char>) -> Seq<char>,
)
    ensures
        page_row_count(selected_count(rows, filter, low), offset, limit) <= selected_count(
            rows,
            filter,
            low,
        ),
        offset <= selected_count(rows, filter, low) && limit >= selected_count(rows, filter, low)
            - offset ==> page_row_count(selected_count(rows, filter, low), offset, limit)
            == selected_count(rows, filter, low) - offset,
{
}

/// The flag that `exactsearch` carries: `true` or `false`.
pub open spec fn exact_flag(s: Seq<char>) -> Option<bool> {
    if s == "true"@ {
        Some(true)
    } else if s == "false"@ {
        Some(false)
    } else {
        None
    }
}

/// Reads the `exactsearch` field of a form.
pub fn parse_exact_search(value: &str) -> (r: Option<bool>)
    ensures
        r == exact_flag(value@),
{
    if str_equal(value, "true") {
        Some(true)
    } else if str_equal(value, "false") {
        Some(false)
    } else {
        None
    }
}

/// The page request that a form's fields describe. Fails with `InvalidData`
/// where `draw`, `start` or `length` is not an unsigned decimal that fits in
/// `u32`, or `exactsearch` is neither `true` nor `false`.
pub fn page_request_from_form(
    draw: &str,
    start: &str,
    length: &str,
    sort_column_index: &str,
    sort_direction: &str,
    search: &str,
    exact_search: &str,
    table_short_name: &str,
) -> (r: Result<PageRequest, CustomError>)
    ensures
        r is Err <==> (parsed_u32(draw@) is None || parsed_u32(start@) is None || parsed_u32(
            length@,
        ) is None || exact_flag(exact_search@) is None),
        r is Err ==> r->Err_0 == CustomError::InvalidData,
        r is Ok ==> ({
            let p = r->Ok_0;
            &&& p.draw == parsed_u32(draw@)->Some_0
            &&& p.start == parsed_u32(start@)->Some_0
            &&& p.length == parsed_u32(length@)->Some_0
            &&& p.sort_column_index@ == sort_column_index@
            &&& p.sort_direction@ == sort_direction@
            &&& p.search@ == search@
            &&& p.exact_search == exact_flag(exact_search@)->Some_0
            &&& p.table_short_name@ == table_short_name@
        }),
{
    let draw = match parse_u32(draw) {
        Some(v) => v,
        None => return Err(CustomError::InvalidData),
    };
    let start = match parse_u32(start) {
        Some(v) => v,
        None => return Err(CustomError::InvalidData),
    };
    let length = match parse_u32(length) {
        Some(v) => v,
        None => return Err(CustomError::InvalidData),
    };
    let exact = match parse_exact_search(exact_search) {
        Some(v) => v,
        None => return Err(CustomError::InvalidData),
    };
    Ok(
        PageRequest {
            start,
            length,
            draw,
            sort_column_index: String::from_str(sort_column_index),
            sort_direction: String::from_str(sort_direction),
            search: String::from_str(search),
            exact_search: exact,
            table_short_name: String::from_str(table_short_name),
        },
    )
}

} // verus!
