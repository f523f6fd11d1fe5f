use vstd::prelude::*;

verus! {

/// A registered connection string. The pool that serves it is opened on
/// first use, outside this library.
#[derive(Debug, Clone)]
pub struct Connection {
    pub connection_string: String,
}

/// The registered connections and the one in use.
#[derive(Debug)]
pub struct ConnectionList {
    pub list: Vec<Connection>,
    pub current_connection: Option<usize>,
    pub is_loading: bool,
}

impl Connection {
    pub fn new(connection_string: String) -> (r: Self)
        ensures
            r.connection_string == connection_string,
    {
        Connection { connection_string }
    }
}

impl ConnectionList {
    pub fn new() -> (r: Self)
        ensures
            r.list@.len() == 0,
            r.current_connection is None,
            !r.is_loading,
    {
        ConnectionList { list: Vec::new(), current_connection: None, is_loading: false }
    }

    /// Makes the connection at `index` the one in use.
    pub fn set_current_connection(&mut self, index: usize)
        requires
            index < old(self).list@.len(),
        ensures
            final(self).current_connection == Some(index),
            final(self).list == old(self).list,
            final(self).is_loading == old(self).is_loading,
    {
        self.current_connection = Some(index);
    }

    /// The connection string of the connection in use, if there is one.
    pub fn current_connection_string(&self) -> (r: Option<&String>)
        ensures
            match self.current_connection {
                Some(i) => if i < self.list@.len() {
                    r == Some(&self.list@[i as int].connection_string)
                } else {
                    r is None
                },
                None => r is None,
            },
    {
        match self.current_connection {
            Some(i) => if i < self.list.len() {
                Some(&self.list[i].connection_string)
            } else {
                None
            },
            None => None,
        }
    }

    pub fn reset_current_connection(&mut self)
        ensures
            final(self).current_connection is None,
            final(self).list == old(self).list,
            final(self).is_loading == old(self).is_loading,
    {
        self.current_connection = None;
    }
}

} // verus!
