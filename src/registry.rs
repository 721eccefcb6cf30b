//! The known tables: for each short name, its backend table and its columns in
//! order. A sort column is chosen by its position, written in decimal.
use vstd::prelude::*;
use crate::data_types::CustomError;
use crate::text::{decimal, decimal_string, str_equal, texts};

verus! {

/// A known table: its short name, its backend table and its ordered columns.
#[derive(Debug, Clone)]
pub struct TableDescriptor {
    pub short_name: String,
    pub backend_table: String,
    pub columns: Vec<String>,
}

/// The backend table of a short name, if it is known.
pub open spec fn backend_table_of(short: Seq<char>) -> Option<Seq<char>> {
    if short == "table1"@ {
        Some("t_random"@)
    } else if short == "table2"@ {
        Some("t_data"@)
    } else {
        None
    }
}

/// The columns of a known table, in order.
pub open spec fn columns_of(short: Seq<char>) -> Seq<Seq<char>> {
    if short == "table1"@ {
        seq!["random_num"@, "random_float"@, "md5"@]
    } else {
        seq!["my_date"@, "my_data"@]
    }
}

pub open spec fn is_known_table(short: Seq<char>) -> bool {
    backend_table_of(short) is Some
}

impl TableDescriptor {
    /// The descriptor is the registry's entry for its short name.
    pub open spec fn wf(&self) -> bool {
        &&& is_known_table(self.short_name@)
        &&& self.backend_table@ == backend_table_of(self.short_name@)->Some_0
        &&& texts(self.columns@) == columns_of(self.short_name@)
    }
}

/// The entry of the registry for a short name; fails with `InvalidTable` for
/// a name that is not known.
pub fn get_table_descriptor(table_short_name: &str) -> (r: Result<TableDescriptor, CustomError>)
    ensures
        r is Err <==> !is_known_table(table_short_name@),
        r is Err ==> r->Err_0 == CustomError::InvalidTable,
        r is Ok ==> r->Ok_0.wf() && r->Ok_0.short_name@ == table_short_name@,
{
    if str_equal(table_short_name, "table1") {
        let columns = vec![
            String::from_str("random_num"),
            String::from_str("random_float"),
            String::from_str("md5"),
        ];
        assert(texts(columns@) =~= columns_of(table_short_name@));
        Ok(
            TableDescriptor {
                short_name: String::from_str(table_short_name),
                backend_table: String::from_str("t_random"),
                columns,
            },
        )
    } else if str_equal(table_short_name, "table2") {
        let columns = vec![String::from_str("my_date"), String::from_str("my_data")];
        assert(texts(columns@) =~= columns_of(table_short_name@));
        Ok(
            TableDescriptor {
                short_name: String::from_str(table_short_name),
                backend_table: String::from_str("t_data"),
                columns,
            },
        )
    } else {
        Err(CustomError::InvalidTable)
    }
}

/// The backend table behind a short name.
pub fn get_backend_table(table_short_name: &str) -> (r: Result<String, CustomError>)
    ensures
        r is Err <==> !is_known_table(table_short_name@),
        r is Err ==> r->Err_0 == CustomError::InvalidTable,
        r is Ok ==> r->Ok_0@ == backend_table_of(table_short_name@)->Some_0,
{
    let d = get_table_descriptor(table_short_name)?;
    Ok(d.backend_table)
}

/// The columns of a table, in order.
pub fn get_cols_for_table(table_short_name: &str) -> (r: Result<Vec<String>, CustomError>)
    ensures
        r is Err <==> !is_known_table(table_short_name@),
        r is Err ==> r->Err_0 == CustomError::InvalidTable,
        r is Ok ==> texts(r->Ok_0@) == columns_of(table_short_name@),
{
    let d = get_table_descriptor(table_short_name)?;
    Ok(d.columns)
}

/// The columns of a table, in order.
pub fn get_table_columns(table_short_name: &str) -> (r: Result<Vec<String>, CustomError>)
    ensures
        r is Err <==> !is_known_table(table_short_name@),
        r is Err ==> r->Err_0 == CustomError::InvalidTable,
        r is Ok ==> texts(r->Ok_0@) == columns_of(table_short_name@),
{
    get_cols_for_table(table_short_name)
}

/// The columns that an export of the table writes, in order.
pub fn get_backend_table_columns(table_short_name: &str) -> (r: Result<Vec<String>, CustomError>)
    ensures
        r is Err <==> !is_known_table(table_short_name@),
        r is Err ==> r->Err_0 == CustomError::InvalidTable,
        r is Ok ==> texts(r->Ok_0@) == columns_of(table_short_name@),
{
    get_cols_for_table(table_short_name)
}

/// The positional map of a table: the pairs of each index, in decimal, and
/// the column at that index, in column order.
pub fn get_table_column_mapping(table_short_name: &str) -> (r: Result<
    Vec<(String, String)>,
    CustomError,
>)
    ensures
        r is Err <==> !is_known_table(table_short_name@),
        r is Err ==> r->Err_0 == CustomError::InvalidTable,
        r is Ok ==> r->Ok_0@.len() == columns_of(table_short_name@).len() && forall|i: int|
            0 <= i < r->Ok_0@.len() ==> (#[trigger] r->Ok_0@[i]).0@ == decimal(i as nat)
                && r->Ok_0@[i].1@ == columns_of(table_short_name@)[i],
{
    let cols = get_cols_for_table(table_short_name)?;
    let mut map: Vec<(String, String)> = Vec::new();
    let mut i: usize = 0;
    while i < cols.len()
        invariant
            texts(cols@) == columns_of(table_short_name@),
            0 <= i <= cols@.len(),
            map@.len() == i,
            forall|k: int|
                0 <= k < i ==> (#[trigger] map@[k]).0@ == decimal(k as nat) && map@[k].1@
                    == cols@[k]@,
        decreases cols@.len() - i,
    {
        let key = decimal_string(i);
        let col = cols[i].clone();
        map.push((key, col));
        i = i + 1;
    }
    Ok(map)
}

/// Whether `index` names position `i` of `cols` and no earlier position.
pub open spec fn is_first_position(cols: Seq<Seq<char>>, index: Seq<char>, i: int) -> bool {
    0 <= i < cols.len() && decimal(i as nat) == index && forall|k: int|
        0 <= k < i ==> #[trigger] decimal(k as nat) != index
}

/// Whether `index` names a position of `cols`.
pub open spec fn names_position(cols: Seq<Seq<char>>, index: Seq<char>) -> bool {
    exists|i: int| 0 <= i < cols.len() && #[trigger] decimal(i as nat) == index
}

impl TableDescriptor {
    /// The column at the position that `index` gives in decimal (`"0"` is the
    /// first column), if there is one.
    pub fn sort_column(&self, index: &str) -> (r: Option<String>)
        ensures
            r is None <==> !names_position(texts(self.columns@), index@),
            r is Some ==> exists|i: int|
                is_first_position(texts(self.columns@), index@, i) && r->Some_0@
                    == texts(self.columns@)[i],
    {
        let mut i: usize = 0;
        while i < self.columns.len()
            invariant
                0 <= i <= self.columns@.len(),
                forall|k: int| 0 <= k < i ==> #[trigger] decimal(k as nat) != index@,
            decreases self.columns@.len() - i,
        {
            let key = decimal_string(i);
            if str_equal(key.as_str(), index) {
                let c = self.columns[i].clone();
                assert(is_first_position(texts(self.columns@), index@, i as int));
                assert(c@ == texts(self.columns@)[i as int]);
                return Some(c);
            }
            i = i + 1;
        }
        None
    }
}

} // verus!
