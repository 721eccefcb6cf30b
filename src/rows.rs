//! Decoding of fetched rows into records, with a default for each null
//! column, and their CSV fields.
use vstd::prelude::*;
use crate::data_types::Data2;
use crate::text::texts;

verus! {

/// A record that can be written as one CSV row.
pub trait ToCsvRow {
    fn to_csv_row(&self) -> Vec<String>;
}

/// The text of a column, or `default` where the column is null.
pub fn text_or_default(value: Option<String>, default: &str) -> (r: String)
    ensures
        value is Some ==> r@ == value->Some_0@,
        value is None ==> r@ == default@,
{
    match value {
        Some(v) => v,
        None => String::from_str(default),
    }
}

/// The value of an integer column, or 0 where the column is null.
pub fn int_or_zero(value: Option<i32>) -> (r: i32)
    ensures
        r == (match value {
            Some(v) => v,
            None => 0i32,
        }),
{
    match value {
        Some(v) => v,
        None => 0,
    }
}

impl Data2 {
    /// The record of a row of the second table: a null `my_date` becomes
    /// `missing_my_date` and a null `my_data` becomes `missing_my_data`.
    pub fn from_columns(my_date: Option<String>, my_data: Option<String>) -> (r: Data2)
        ensures
            my_date is Some ==> r.my_date@ == my_date->Some_0@,
            my_date is None ==> r.my_date@ == "missing_my_date"@,
            my_data is Some ==> r.my_data@ == my_data->Some_0@,
            my_data is None ==> r.my_data@ == "missing_my_data"@,
    {
        Data2 {
            my_date: text_or_default(my_date, "missing_my_date"),
            my_data: text_or_default(my_data, "missing_my_data"),
        }
    }

    /// The CSV fields of the record, in column order.
    pub fn csv_fields(&self) -> (r: Vec<String>)
        ensures
            texts(r@) == seq![self.my_date@, self.my_data@],
    {
        let r = vec![self.my_date.clone(), self.my_data.clone()];
        assert(texts(r@) =~= seq![self.my_date@, self.my_data@]);
        r
    }
}

impl ToCsvRow for Data2 {
    fn to_csv_row(&self) -> Vec<String> {
        self.csv_fields()
    }
}

} // verus!
