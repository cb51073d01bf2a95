//! The settings of the application: where the document lies and which
//! repository holds the remote catalog.

use std::path::PathBuf;
use vstd::prelude::*;
use vstd::string::*;

verus! {

/// `std::path::PathBuf`: a path of the file system, carried through without
/// looking inside.
#[verifier::external_type_specification]
#[verifier::external_body]
pub struct ExPathBuf(PathBuf);

/// `<PathBuf as Clone>::clone`. Trusted: the copy is the path that was copied.
pub assume_specification[ <PathBuf as Clone>::clone ](path: &PathBuf) -> (copy: PathBuf)
    ensures
        copy == *path,
;

/// The settings of the application.
#[derive(Debug)]
pub struct AppConfig {
    /// Path to the teleport document.
    pub teleport_json_path: PathBuf,
    /// Owner of the repository that holds the remote catalog.
    pub remote_repo_owner: String,
    /// Name of that repository.
    pub remote_repo_name: String,
}

/// The owner of the repository that is asked unless another is set.
pub fn default_repo_owner() -> (owner: String)
    ensures
        owner@ == "rusty-bob"@,
{
    String::from_str("rusty-bob")
}

/// The name of the repository that is asked unless another is set.
pub fn default_repo_name() -> (name: String)
    ensures
        name@ == "gw2-oktw-teleports"@,
{
    String::from_str("gw2-oktw-teleports")
}

impl Clone for AppConfig {
    fn clone(&self) -> (copy: Self)
        ensures
            copy == *self,
    {
        Self {
            teleport_json_path: self.teleport_json_path.clone(),
            remote_repo_owner: self.remote_repo_owner.clone(),
            remote_repo_name: self.remote_repo_name.clone(),
        }
    }
}

impl AppConfig {
    /// Settings for the document at `teleport_json_path`, with the default
    /// repository.
    pub fn new(teleport_json_path: PathBuf) -> (config: Self)
        ensures
            config.teleport_json_path == teleport_json_path,
            config.remote_repo_owner@ == "rusty-bob"@,
            config.remote_repo_name@ == "gw2-oktw-teleports"@,
    {
        Self {
            teleport_json_path,
            remote_repo_owner: default_repo_owner(),
            remote_repo_name: default_repo_name(),
        }
    }
}

} // verus!
