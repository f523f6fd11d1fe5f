use crate::application::app::UpdateAction;
use crate::application::store::StoreAction;
use vstd::prelude::*;

verus! {

pub const TABLES_QUERY_HEAD: &'static str =
    "select table_name from information_schema.tables where table_schema='";

pub const TABLES_QUERY_TAIL: &'static str = "'";

/// Listing the tables of a database.
pub struct Tables;

impl Tables {
    /// Query text that lists the tables of `db_name`.
    pub fn query(db_name: &str) -> (r: String)
        ensures
            r@ == TABLES_QUERY_HEAD@ + db_name@ + TABLES_QUERY_TAIL@,
    {
        String::from_str(TABLES_QUERY_HEAD).concat(db_name).concat(TABLES_QUERY_TAIL)
    }

    /// The one action posted when the listing ends: the names, or the
    /// driver's error message.
    pub fn outcome(result: Result<Vec<String>, String>) -> (r: UpdateAction)
        ensures
            match result {
                Ok(names) => r == UpdateAction::SendStoreAction(StoreAction::SendTablesData(names)),
                Err(e) => r == UpdateAction::SendStoreAction(StoreAction::SendError(e)),
            },
    {
        match result {
            Ok(names) => UpdateAction::SendStoreAction(StoreAction::SendTablesData(names)),
            Err(e) => UpdateAction::SendStoreAction(StoreAction::SendError(e)),
        }
    }
}

} // verus!
