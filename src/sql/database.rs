use crate::application::app::UpdateAction;
use crate::application::store::StoreAction;
use vstd::prelude::*;

verus! {

/// The databases of the current connection, and the one in use.
#[derive(Debug)]
pub struct DatabaseList {
    pub list: Vec<String>,
    pub current_database: Option<usize>,
}

impl DatabaseList {
    pub fn new() -> (r: Self)
        ensures
            r.list@.len() == 0,
            r.current_database is None,
    {
        DatabaseList { list: Vec::new(), current_database: None }
    }
}

/// Query text that lists the databases of a server.
pub const DATABASES_QUERY: &'static str = "SHOW databases";

/// Listing the databases of a server.
pub struct Database;

impl Database {
    pub fn query() -> (r: &'static str)
        ensures
            r@ == DATABASES_QUERY@,
    {
        DATABASES_QUERY
    }

    /// The one action posted when the listing ends: the names, or the
    /// driver's error message.
    pub fn outcome(result: Result<Vec<String>, String>) -> (r: UpdateAction)
        ensures
            match result {
                Ok(names) => r == UpdateAction::SendStoreAction(StoreAction::SendDatabaseData(names)),
                Err(e) => r == UpdateAction::SendStoreAction(StoreAction::SendError(e)),
            },
    {
        match result {
            Ok(names) => UpdateAction::SendStoreAction(StoreAction::SendDatabaseData(names)),
            Err(e) => UpdateAction::SendStoreAction(StoreAction::SendError(e)),
        }
    }
}

} // verus!
