//! Backend logic for a paginated, searchable, sortable data table with CSV export:
//! search-expression parsing, text sanitizing, predicate building with bound
//! parameters, and assembly of the page, count and export queries.

pub mod text;
pub mod string_ops;
pub mod data_types;
pub mod search;
pub mod predicate;
pub mod registry;
pub mod query;
pub mod rows;
