//! Where the ratings are kept on disk.

use vstd::prelude::*;

verus! {

/// The name of the directory that holds the data of this program.
pub const APP_NAME: &'static str = "rambt";

/// The name of the file that holds the ratings.
pub const DATABASE_NAME: &'static str = "ratings.db";

/// Why no place for the ratings could be named.
#[derive(Clone, Copy, Debug, PartialEq, Eq, Structural)]
pub enum PathError {
    /// The user has no directory for local data.
    NoDataDir,
}

impl PathError {
    /// The error in words.
    pub fn message(&self) -> (text: String)
        ensures
            text@ == "Couldn't find local data directory"@,
    {
        String::from_str("Couldn't find local data directory")
    }
}

/// The path that `std::path::Path::join` gives for `name` under `base`, on
/// the platform that the program is built for.
pub uninterp spec fn joined_path(base: Seq<char>, name: Seq<char>) -> Seq<char>;

/// The path of the directory of this program under the directory `base`.
pub open spec fn data_dir_under(base: Seq<char>) -> Seq<char> {
    joined_path(base, APP_NAME@)
}

/// The path of the file with the ratings under the directory `base`.
pub open spec fn database_path_under(base: Seq<char>) -> Seq<char> {
    joined_path(data_dir_under(base), DATABASE_NAME@)
}

/// Calls `dirs::data_local_dir`. The answer depends on the user and the
/// environment, so nothing is claimed of it. A path that is not valid Unicode
/// counts as no path.
#[verifier::external_body]
fn data_local_dir() -> (dir: Option<String>) {
    match dirs::data_local_dir() {
        Some(path) => path.into_os_string().into_string().ok(),
        None => None,
    }
}

/// Calls `std::path::Path::join`: the result is the path that it gives for
/// `name` under `base`.
#[verifier::external_body]
fn join_path(base: &str, name: &str) -> (path: String)
    ensures
        path@ == joined_path(base@, name@),
{
    std::path::Path::new(base).join(name).to_string_lossy().into_owned()
}

/// The directory of this program under the user's directory for local data,
/// `base`; an error when the user has none.
pub fn data_dir_in(base: Option<String>) -> (dir: Result<String, PathError>)
    ensures
        match base {
            Some(base) => dir matches Ok(path) && path@ == data_dir_under(base@),
            None => dir == Err::<String, PathError>(PathError::NoDataDir),
        },
{
    match base {
        Some(base) => Ok(join_path(base.as_str(), APP_NAME)),
        None => Err(PathError::NoDataDir),
    }
}

/// The file with the ratings under the user's directory for local data,
/// `base`; an error when the user has none.
pub fn database_path_in(base: Option<String>) -> (file: Result<String, PathError>)
    ensures
        match base {
            Some(base) => file matches Ok(path) && path@ == database_path_under(base@),
            None => file == Err::<String, PathError>(PathError::NoDataDir),
        },
{
    match data_dir_in(base) {
        Ok(dir) => Ok(join_path(dir.as_str(), DATABASE_NAME)),
        Err(error) => Err(error),
    }
}

/// The directory of this program under the user's directory for local data.
/// Whether the user has one is for the environment to say; where it names
/// one, the result is the directory of this program under it.
pub fn get_data_dir() -> (dir: Result<String, PathError>)
    ensures
        match dir {
            Ok(path) => exists|base: Seq<char>| path@ == data_dir_under(base),
            Err(error) => error == PathError::NoDataDir,
        },
{
    data_dir_in(data_local_dir())
}

/// The file with the ratings under the user's directory for local data.
/// Whether the user has one is for the environment to say; where it names
/// one, the result is the file with the ratings under it.
pub fn get_database_path() -> (file: Result<String, PathError>)
    ensures
        match file {
            Ok(path) => exists|base: Seq<char>| path@ == database_path_under(base),
            Err(error) => error == PathError::NoDataDir,
        },
{
    database_path_in(data_local_dir())
}

} // verus!
