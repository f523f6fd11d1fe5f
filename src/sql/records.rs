use crate::application::app::{AppAction, UpdateAction};
use crate::application::store::StoreAction;
use vstd::prelude::*;

verus! {

/// Most rows fetched from a table.
pub const ROW_LIMIT_CLAUSE: &'static str = " LIMIT 100";

pub const SELECT_ALL_HEAD: &'static str = "select * from ";

pub const COUNT_HEAD: &'static str = "select COUNT(*) from ";

/// Fetching the rows of a table.
pub struct Records;

impl Records {
    /// Query text that fetches the first rows of `db_name.table_name`.
    pub fn rows_query(db_name: &str, table_name: &str) -> (r: String)
        ensures
            r@ == SELECT_ALL_HEAD@ + db_name@ + "."@ + table_name@ + ROW_LIMIT_CLAUSE@,
    {
        String::from_str(SELECT_ALL_HEAD).concat(db_name).concat(".").concat(table_name).concat(
            ROW_LIMIT_CLAUSE,
        )
    }

    /// Query text that counts the rows of `db_name.table_name`.
    pub fn count_query(db_name: &str, table_name: &str) -> (r: String)
        ensures
            r@ == COUNT_HEAD@ + db_name@ + "."@ + table_name@,
    {
        String::from_str(COUNT_HEAD).concat(db_name).concat(".").concat(table_name)
    }

    /// The one action posted when the fetch ends. `rows` holds the column
    /// names and the rows as text, or the driver's error message; `total` is
    /// the row count, when counting succeeded.
    pub fn outcome(rows: Result<(Vec<String>, Vec<Vec<String>>), String>, total: Option<i64>) -> (r:
        UpdateAction)
        ensures
            match rows {
                Ok((columns, body)) => r == UpdateAction::SendAppAction(
                    AppAction::SendRecords(columns, body, total),
                ),
                Err(e) => r == UpdateAction::SendStoreAction(StoreAction::SendError(e)),
            },
    {
        match rows {
            Ok((columns, body)) => UpdateAction::SendAppAction(
                AppAction::SendRecords(columns, body, total),
            ),
            Err(e) => UpdateAction::SendStoreAction(StoreAction::SendError(e)),
        }
    }
}

} // verus!
