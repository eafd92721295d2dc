//! The configuration file: one opaque text document at a fixed location
//! under the user's home directory. This module owns where the file lives
//! and what reading and writing it must mean; the filesystem calls
//! themselves stay with the binary.

use vstd::prelude::*;

verus! {

/// The configuration file's path for a given home directory.
pub open spec fn config_path_of(home: Seq<char>) -> Seq<char> {
    home + "/.autopr.yaml"@
}

/// Append the configuration file's name to a home directory.
pub fn config_path(home: &str) -> (r: String)
    ensures
        r@ == config_path_of(home@),
{
    let mut r = String::from_str(home);
    r.append("/.autopr.yaml");
    r
}

/// Turn the result of looking up the home directory into the result of
/// resolving the configuration path: a found home yields its path, and a
/// lookup failure is passed through unchanged as the command's error.
pub fn resolve_config_path(home: Result<String, String>) -> (r: Result<String, String>)
    ensures
        home is Ok ==> r is Ok && r->Ok_0@ == config_path_of(home->Ok_0@),
        home is Err ==> r is Err && r->Err_0 == home->Err_0,
{
    match home {
        Ok(h) => Ok(config_path(h.as_str())),
        Err(e) => Err(e),
    }
}

/// A store of text documents keyed by path: the view of the filesystem
/// that the configuration commands rely on.
pub type DocStore = Map<Seq<char>, Seq<char>>;

/// The store after a whole document is written at a path: the previous
/// contents at that path, if any, are replaced.
pub open spec fn store_write(store: DocStore, path: Seq<char>, contents: Seq<char>) -> DocStore {
    store.insert(path, contents)
}

/// Reading a path: the contents if a document is there, and no value —
/// an error for the caller, never a crash — if none is.
pub open spec fn store_read(store: DocStore, path: Seq<char>) -> Option<Seq<char>> {
    if store.dom().contains(path) {
        Some(store[path])
    } else {
        None
    }
}

/// Law: writing the configuration and then reading it back, with the same
/// home directory, yields exactly the contents written.
pub proof fn lemma_write_read_round_trip(store: DocStore, home: Seq<char>, contents: Seq<char>)
    ensures
        store_read(store_write(store, config_path_of(home), contents), config_path_of(home))
            == Some(contents),
{
}

/// Law: reading a path at which no document exists yields no value, so a
/// missing configuration file is reported as an error, not a crash.
pub proof fn lemma_read_missing(store: DocStore, path: Seq<char>)
    requires
        !store.dom().contains(path),
    ensures
        store_read(store, path) is None,
{
}

} // verus!
