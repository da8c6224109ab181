//! The one question that the client asks the file system.

use std::path::Path;
use vstd::prelude::*;

verus! {

/// Asks the file system whether `name` is the path of something that exists.
///
/// Trusted: `Path::exists` of std. What it returns depends on the disk at
/// the time of the call, so nothing is stated of it.
#[verifier::external_body]
fn path_exists(name: &str) -> bool {
    Path::new(name).exists()
}

/// Whether the database file `db_file_name` exists. The answer is that of
/// the file system at the time of the call; the session takes it as
/// `Reply::Exists`.
pub fn db_file_check(db_file_name: &str) -> bool {
    path_exists(db_file_name)
}

} // verus!
