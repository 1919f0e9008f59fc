//! The node directory: read-only lookups against the channel-graph snapshot.

use vstd::prelude::*;

use rusqlite::OptionalExtension;

use crate::node::{
    Node, NodeName, name_from_row, name_presents, node_from_row, node_wf, spec_node_from_row,
};

verus! {

/// The snapshot store cannot be queried: the investigation cannot proceed.
#[derive(Debug)]
pub enum DirectoryError {
    StoreUnavailable { cause: String },
}

#[verifier::external_type_specification]
#[verifier::external_body]
pub struct ExConnection(rusqlite::Connection);

/// Relies on rusqlite::Connection::open: opens the database at the given
/// path, creating an empty one when the path does not exist.
#[verifier::external_body]
fn open_connection(database_path: &str) -> (r: Result<rusqlite::Connection, String>) {
    rusqlite::Connection::open(database_path).map_err(|e| format!("{e}"))
}

/// Relies on rusqlite::Connection::query_row (with OptionalExtension): the
/// alias column of the first `nodes` row whose pubkey equals the key, `None`
/// when no row matches, and an error when the store cannot be queried. What
/// comes back depends on what is on disk.
#[verifier::external_body]
fn query_alias_row(connection: &rusqlite::Connection, pubkey: &str) -> (r: Result<
    Option<String>,
    String,
>) {
    connection
        .query_row(
            "SELECT alias FROM nodes WHERE pubkey = ?1 LIMIT 1",
            [pubkey],
            |row| row.get::<usize, String>(0),
        )
        .optional()
        .map_err(|e| format!("{e}"))
}

/// Read-only access to the channel-graph snapshot: a table of announced
/// nodes, keyed by public key, with their aliases.
pub struct GraphDatabase {
    connection: rusqlite::Connection,
}

impl GraphDatabase {
    /// Opens the snapshot at the given path.
    pub fn open(database_path: &str) -> (r: Result<GraphDatabase, DirectoryError>) {
        match open_connection(database_path) {
            Ok(connection) => Ok(GraphDatabase { connection }),
            Err(cause) => Err(DirectoryError::StoreUnavailable { cause }),
        }
    }

    /// A directory over a caller-supplied store.
    pub fn from_connection(connection: rusqlite::Connection) -> (r: GraphDatabase) {
        GraphDatabase { connection }
    }

    /// Looks a public key up. Total but for store failure: whatever row the
    /// snapshot holds, the result is the identity that row induces — absent,
    /// announced without alias, or announced with a non-empty alias.
    pub fn query(&self, pubkey: String) -> (r: Result<Node, DirectoryError>)
        ensures
            match r {
                Ok(n) => n@.pubkey == pubkey@ && node_wf(n@) && exists|row: Option<Seq<char>>|
                    n@ == spec_node_from_row(pubkey@, row),
                Err(e) => e matches DirectoryError::StoreUnavailable { .. },
            },
    {
        match query_alias_row(&self.connection, pubkey.as_str()) {
            Ok(row) => {
                let ghost row_view = row.deep_view();
                let n = node_from_row(pubkey, row);
                proof {
                    assert(n@ == spec_node_from_row(n@.pubkey, row_view));
                }
                Ok(n)
            },
            Err(cause) => Err(DirectoryError::StoreUnavailable { cause }),
        }
    }

    /// Looks a public key up, shaped for presentation. Total but for store
    /// failure: the name takes the shape some row induces, the key kept.
    pub fn query_name(&self, pubkey: String) -> (r: Result<NodeName, DirectoryError>)
        ensures
            match r {
                Ok(name) => name.get_alias_spec() == pubkey@ && exists|row: Option<Seq<char>>|
                    name_presents(name, spec_node_from_row(pubkey@, row)),
                Err(e) => e matches DirectoryError::StoreUnavailable { .. },
            },
    {
        match query_alias_row(&self.connection, pubkey.as_str()) {
            Ok(row) => {
                let ghost row_view = row.deep_view();
                let ghost key_view = pubkey@;
                let name = name_from_row(pubkey, row);
                proof {
                    assert(name_presents(name, spec_node_from_row(key_view, row_view)));
                }
                Ok(name)
            },
            Err(cause) => Err(DirectoryError::StoreUnavailable { cause }),
        }
    }
}

} // verus!
