//! Records, requests and errors exchanged by the table backend.
use vstd::prelude::*;
use std::collections::HashMap;

verus! {

/// A row of the second table: two text columns.
#[derive(Debug, Clone)]
pub struct Data2 {
    pub my_date: String,
    pub my_data: String,
}

/// A page number and a page size.
#[derive(Debug, Clone, Copy, PartialEq, Eq, Structural)]
pub struct PaginationParams {
    pub page: u32,
    pub page_size: u32,
}

/// The kind of a client input error.
#[derive(Debug, Clone, Copy, PartialEq, Eq, Structural)]
pub enum GenericError {
    /// The input cannot be interpreted, such as a search that mixes `+` and `|`.
    InvalidInput,
}

/// A client input error with a message.
#[derive(Debug)]
pub struct CustomErrorType {
    pub err_type: GenericError,
    pub err_msg: String,
}

/// The offset, page size and correlation token of a page request.
#[derive(Debug, Clone, Copy, PartialEq, Eq, Structural)]
pub struct QueryParams {
    pub start: u32,
    pub length: u32,
    pub draw: u32,
}

/// A request for one page of a table.
#[derive(Debug, Clone)]
pub struct PageRequest {
    /// The offset of the first row.
    pub start: u32,
    /// The page size.
    pub length: u32,
    /// A client token, echoed in the response.
    pub draw: u32,
    /// The position of the sort column, in decimal: `"0"` for the first.
    pub sort_column_index: String,
    /// `asc` or `desc`.
    pub sort_direction: String,
    /// The raw search text.
    pub search: String,
    /// Whether terms must equal a column rather than occur in it.
    pub exact_search: bool,
    pub table_short_name: String,
}

/// The fields of a form-encoded page request, by name.
pub struct FormData {
    pub fields: HashMap<String, String>,
}

/// A request to export the rows of a table that match a search to CSV.
#[derive(Debug, Clone)]
pub struct ExportData {
    /// Any search text: `xyz`, `xyz | 123`, `xxx + yyy`.
    pub search_string: String,
    /// A table short name, such as `table1`.
    pub table_name: String,
    /// `like` or `exact`.
    pub pattern_match: String,
}

/// A parsed search: its cleaned terms and how they combine.
#[derive(Debug, Clone)]
pub struct SearchStringData {
    /// The terms, trimmed and sanitized, in order.
    pub search_string: Vec<String>,
    /// `and` or `or`.
    pub search_type: String,
}

/// A message with a status code.
#[derive(Debug, Clone)]
pub struct JsonResponse {
    pub message: String,
    pub status: u32,
}

/// The failures of the backend.
#[derive(Debug, Clone, Copy, PartialEq, Eq, Structural)]
pub enum CustomError {
    /// The database could not be reached or a query failed in it.
    DatabaseError,
    /// The request holds data that cannot be used.
    InvalidData,
    /// The predicate or query cannot be built from the request.
    QueryError,
    /// The table short name is not one of the known tables.
    InvalidTable,
}

impl CustomError {
    /// The HTTP status code of the error: 500 for a database failure, 400 otherwise.
    pub fn status_code(&self) -> (r: u16)
        ensures
            r == (if *self == CustomError::DatabaseError { 500u16 } else { 400u16 }),
    {
        match self {
            CustomError::DatabaseError => 500,
            CustomError::InvalidData => 400,
            CustomError::QueryError => 400,
            CustomError::InvalidTable => 400,
        }
    }
}

} // verus!
