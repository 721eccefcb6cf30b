use datatable_backend::data_types::{CustomError, Data2, ExportData, PageRequest};
use datatable_backend::predicate::{get_inner_query, escape_like};
use datatable_backend::query::{
    build_export_query, build_export_request_query, build_page_query, export_file_path,
    new_export_file_path, page_request_from_form,
};
use datatable_backend::registry::{
    get_backend_table, get_backend_table_columns, get_table_column_mapping, get_table_columns,
    get_table_descriptor,
};
use datatable_backend::search::get_valid_search_strings;
use datatable_backend::rows::{int_or_zero, text_or_default, ToCsvRow};

fn strings(v: &[&str]) -> Vec<String> {
    v.iter().map(|s| s.to_string()).collect()
}

fn page_request(search: &str, exact: bool, index: &str, dir: &str) -> PageRequest {
    PageRequest {
        start: 0,
        length: 10,
        draw: 1,
        sort_column_index: index.to_string(),
        sort_direction: dir.to_string(),
        search: search.to_string(),
        exact_search: exact,
        table_short_name: "table1".to_string(),
    }
}

#[test]
fn two_columns_exact_or_round_trip() {
    let p = get_inner_query(strings(&["c1", "c2"]), strings(&["abc"]), "exact".to_string(), "or".to_string())
        .unwrap();
    assert_eq!(p.sql, "((lower(c1::text) = lower($1) OR lower(c2::text) = lower($1)))");
    assert_eq!(p.params, vec!["abc"]);
}

#[test]
fn substring_or_search_over_table1() {
    let parsed = get_valid_search_strings("abc|def").unwrap();
    assert_eq!(parsed.search_type, "or");
    assert_eq!(parsed.search_string, vec!["abc", "def"]);
    let p = get_inner_query(
        get_table_columns("table1").unwrap(),
        parsed.search_string,
        "like".to_string(),
        parsed.search_type,
    )
    .unwrap();
    assert_eq!(
        p.sql,
        "((lower(random_num::text) LIKE lower($1) OR lower(random_float::text) LIKE lower($1) \
         OR lower(md5::text) LIKE lower($1)) OR (lower(random_num::text) LIKE lower($2) \
         OR lower(random_float::text) LIKE lower($2) OR lower(md5::text) LIKE lower($2)))"
    );
    assert_eq!(p.params, vec!["%abc%", "%def%"]);
}

#[test]
fn column_order_changes_only_the_order_of_comparisons() {
    let ab = get_inner_query(strings(&["a", "b"]), strings(&["x"]), "like".to_string(), "and".to_string()).unwrap();
    let ba = get_inner_query(strings(&["b", "a"]), strings(&["x"]), "like".to_string(), "and".to_string()).unwrap();
    assert_eq!(ab.sql, "((lower(a::text) LIKE lower($1) OR lower(b::text) LIKE lower($1)))");
    assert_eq!(ba.sql, "((lower(b::text) LIKE lower($1) OR lower(a::text) LIKE lower($1)))");
    assert_eq!(ab.params, ba.params);
}

#[test]
fn and_groups_are_joined_by_and() {
    let p = get_inner_query(strings(&["a"]), strings(&["x", "y"]), "exact".to_string(), "and".to_string())
        .unwrap();
    assert_eq!(p.sql, "((lower(a::text) = lower($1)) AND (lower(a::text) = lower($2)))");
    assert_eq!(p.params, vec!["x", "y"]);
}

#[test]
fn predicate_errors() {
    let cols = strings(&["a"]);
    let terms = strings(&["x"]);
    let q = |c: Vec<String>, t: Vec<String>, m: &str, o: &str| get_inner_query(c, t, m.to_string(), o.to_string());
    assert_eq!(q(vec![], terms.clone(), "exact", "or").unwrap_err(), CustomError::QueryError);
    assert_eq!(q(cols.clone(), vec![], "exact", "or").unwrap_err(), CustomError::QueryError);
    assert_eq!(q(cols.clone(), terms.clone(), "fuzzy", "or").unwrap_err(), CustomError::QueryError);
    assert_eq!(q(cols.clone(), terms.clone(), "like", "xor").unwrap_err(), CustomError::QueryError);
}

#[test]
fn like_values_escape_wildcards() {
    assert_eq!(escape_like("a_b%c\\"), "a\\_b\\%c\\\\");
    let p = get_inner_query(strings(&["a"]), strings(&["x_y"]), "like".to_string(), "or".to_string()).unwrap();
    assert_eq!(p.params, vec!["%x\\_y%"]);
}

#[test]
fn registry_lookups() {
    assert_eq!(get_backend_table("table1").unwrap(), "t_random");
    assert_eq!(get_backend_table("table2").unwrap(), "t_data");
    assert_eq!(get_backend_table("table3").unwrap_err(), CustomError::InvalidTable);
    assert_eq!(get_backend_table_columns("table2").unwrap(), vec!["my_date", "my_data"]);
    let m = get_table_column_mapping("table1").unwrap();
    assert_eq!(
        m,
        vec![
            ("0".to_string(), "random_num".to_string()),
            ("1".to_string(), "random_float".to_string()),
            ("2".to_string(), "md5".to_string()),
        ]
    );
    let d = get_table_descriptor("table1").unwrap();
    assert_eq!(d.sort_column("2"), Some("md5".to_string()));
    assert_eq!(d.sort_column("3"), None);
    assert_eq!(d.sort_column("01"), None);
}

#[test]
fn empty_search_page_has_no_filter() {
    let q = build_page_query(&page_request("", false, "0", "desc")).unwrap();
    assert_eq!(q.data_sql, "SELECT * FROM t_random ORDER BY random_num desc LIMIT 10 OFFSET 0");
    assert_eq!(q.count_sql, "SELECT count(*) FROM t_random");
    assert!(q.params.is_empty());
}

#[test]
fn filtered_page_and_count_share_the_predicate() {
    let mut r = page_request("abc|def", false, "2", "asc");
    r.start = 20;
    r.length = 5;
    let q = build_page_query(&r).unwrap();
    let pred = get_inner_query(
        strings(&["random_num", "random_float", "md5"]),
        strings(&["abc", "def"]),
        "like".to_string(),
        "or".to_string(),
    )
    .unwrap();
    assert_eq!(q.data_sql, format!("SELECT * FROM t_random WHERE {} ORDER BY md5 asc LIMIT 5 OFFSET 20", pred.sql));
    assert_eq!(q.count_sql, format!("SELECT count(*) FROM t_random WHERE {}", pred.sql));
    assert_eq!(q.params, pred.params);
}

#[test]
fn page_request_errors() {
    let mut r = page_request("a", true, "0", "asc");
    r.table_short_name = "nope".to_string();
    assert_eq!(build_page_query(&r).unwrap_err(), CustomError::InvalidTable);
    assert_eq!(build_page_query(&page_request("a", true, "9", "asc")).unwrap_err(), CustomError::QueryError);
    assert_eq!(build_page_query(&page_request("a+b|c", true, "0", "asc")).unwrap_err(), CustomError::InvalidData);
    assert_eq!(build_page_query(&page_request("a", true, "0", "ASC")).unwrap_err(), CustomError::QueryError);
}

#[test]
fn exact_and_page_query() {
    let q = build_page_query(&page_request("x+y", true, "1", "asc")).unwrap();
    assert!(q.data_sql.contains(" AND "));
    assert!(q.data_sql.contains("lower(random_float::text) = lower($2)"));
    assert_eq!(q.params, vec!["x", "y"]);
}

#[test]
fn no_filter_marker_exports_all_rows() {
    let item = ExportData {
        search_string: "___".to_string(),
        table_name: "table1".to_string(),
        pattern_match: "like".to_string(),
    };
    let q = build_export_request_query(&item).unwrap();
    assert_eq!(q.sql, "SELECT random_num,random_float,md5 FROM t_random");
    assert!(q.params.is_empty());
}

#[test]
fn filtered_export_query() {
    let q = build_export_query("table2", strings(&["2024"]), "exact".to_string(), "or".to_string()).unwrap();
    assert_eq!(
        q.sql,
        "SELECT my_date,my_data FROM t_data WHERE ((lower(my_date::text) = lower($1) OR lower(my_data::text) = lower($1)))"
    );
    assert_eq!(q.params, vec!["2024"]);
}

#[test]
fn export_errors() {
    let bad_table = build_export_query("x", strings(&["a"]), "exact".to_string(), "or".to_string());
    assert_eq!(bad_table.unwrap_err(), CustomError::InvalidTable);
    let bad_mode = build_export_query("table1", strings(&["a"]), "near".to_string(), "or".to_string());
    assert_eq!(bad_mode.unwrap_err(), CustomError::QueryError);
    let item = ExportData {
        search_string: "a|b+c".to_string(),
        table_name: "table1".to_string(),
        pattern_match: "like".to_string(),
    };
    assert_eq!(build_export_request_query(&item).unwrap_err(), CustomError::InvalidData);
}

#[test]
fn export_paths() {
    assert_eq!(export_file_path("abc"), "data_dir/abc.csv");
    let p = new_export_file_path();
    assert!(p.starts_with("data_dir/") && p.ends_with(".csv"));
    let id = &p["data_dir/".len()..p.len() - 4];
    assert_eq!(id.len(), 36);
    for (i, c) in id.chars().enumerate() {
        if [8, 13, 18, 23].contains(&i) {
            assert_eq!(c, '-');
        } else {
            assert!(c.is_ascii_digit() || ('a'..='f').contains(&c));
        }
    }
    assert_ne!(new_export_file_path(), p);
}

#[test]
fn null_columns_get_defaults() {
    let d = Data2::from_columns(None, Some("x".to_string()));
    assert_eq!(d.my_date, "missing_my_date");
    assert_eq!(d.my_data, "x");
    assert_eq!(d.to_csv_row(), vec!["missing_my_date", "x"]);
    let e = Data2::from_columns(Some("2024-01-01".to_string()), None);
    assert_eq!(e.my_data, "missing_my_data");
    assert_eq!(text_or_default(None, "missing_md5"), "missing_md5");
    assert_eq!(int_or_zero(None), 0);
    assert_eq!(int_or_zero(Some(-4)), -4);
}

#[test]
fn error_status_codes() {
    assert_eq!(CustomError::DatabaseError.status_code(), 500);
    assert_eq!(CustomError::InvalidData.status_code(), 400);
    assert_eq!(CustomError::QueryError.status_code(), 400);
    assert_eq!(CustomError::InvalidTable.status_code(), 400);
}

#[test]
fn form_fields_become_a_page_request() {
    let r = page_request_from_form("3", "+20", "10", "1", "asc", "a|b", "false", "table1").unwrap();
    assert_eq!((r.draw, r.start, r.length), (3, 20, 10));
    assert_eq!(r.sort_column_index, "1");
    assert!(!r.exact_search);
    assert_eq!(r.table_short_name, "table1");
    let bad = |d: &str, e: &str| page_request_from_form(d, "0", "10", "0", "asc", "", e, "table1");
    assert_eq!(bad("x", "true").unwrap_err(), CustomError::InvalidData);
    assert_eq!(bad("4294967296", "true").unwrap_err(), CustomError::InvalidData);
    assert_eq!(bad("-1", "true").unwrap_err(), CustomError::InvalidData);
    assert_eq!(bad("1", "yes").unwrap_err(), CustomError::InvalidData);
    assert_eq!(bad("4294967295", "true").unwrap().draw, u32::MAX);
}

#[test]
fn search_that_cleans_to_nothing_filters_nothing() {
    for search in ["!!!", "   ", "$|%"] {
        let q = build_page_query(&page_request(search, true, "0", "asc")).unwrap();
        assert_eq!(q.data_sql, "SELECT * FROM t_random ORDER BY random_num asc LIMIT 10 OFFSET 0");
        assert_eq!(q.count_sql, "SELECT count(*) FROM t_random");
        assert!(q.params.is_empty());
    }
}

#[test]
fn empty_search_export_selects_every_row() {
    let item = ExportData {
        search_string: "".to_string(),
        table_name: "table2".to_string(),
        pattern_match: "exact".to_string(),
    };
    let q = build_export_request_query(&item).unwrap();
    assert_eq!(q.sql, "SELECT my_date,my_data FROM t_data");
    assert!(q.params.is_empty());
    let q = build_export_query("table1", strings(&["", ""]), "exact".to_string(), "and".to_string()).unwrap();
    assert_eq!(q.sql, "SELECT random_num,random_float,md5 FROM t_random");
    let empty = build_export_query("table1", vec![], "exact".to_string(), "and".to_string());
    assert_eq!(empty.unwrap_err(), CustomError::QueryError);
}

#[test]
fn number_fields_follow_unsigned_decimal_rules() {
    let parse = |d: &str| page_request_from_form(d, "0", "10", "0", "asc", "", "true", "table1");
    assert_eq!(parse("007").unwrap().draw, 7);
    assert_eq!(parse("+0").unwrap().draw, 0);
    assert_eq!(parse("").unwrap_err(), CustomError::InvalidData);
    assert_eq!(parse("+").unwrap_err(), CustomError::InvalidData);
    assert_eq!(parse(" 1").unwrap_err(), CustomError::InvalidData);
    assert_eq!(parse("1a").unwrap_err(), CustomError::InvalidData);
    assert_eq!(parse("99999999999").unwrap_err(), CustomError::InvalidData);
}

#[test]
fn sort_positions_are_decimal() {
    let d = get_table_descriptor("table2").unwrap();
    assert_eq!(d.sort_column("0"), Some("my_date".to_string()));
    assert_eq!(d.sort_column("1"), Some("my_data".to_string()));
    assert_eq!(d.sort_column("+1"), None);
    assert_eq!(d.sort_column(""), None);
}
