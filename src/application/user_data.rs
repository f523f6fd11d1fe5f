use crate::sql::connection::ConnectionList;
use vstd::prelude::*;

verus! {

/// What is kept between sessions: the registered connections.
#[derive(Debug)]
pub struct UserData {
    pub connection_list: ConnectionList,
}

impl UserData {
    pub fn new() -> (r: Self)
        ensures
            r.connection_list.list@.len() == 0,
            r.connection_list.current_connection is None,
            !r.connection_list.is_loading,
    {
        UserData { connection_list: ConnectionList::new() }
    }
}

} // verus!
