//! The catalog kept in a GitHub repository: one JSON file per group.
//!
//! Nothing here touches the network. The provider says which URL to ask, and
//! reads the answer once the caller has brought it.

use crate::error::io_error;
use crate::error::io_error_of;
use crate::error::IoKind;
use crate::error::TeleportError;
use crate::text::ends_with;
use crate::text::is_suffix;
use crate::text::same_text;
use crate::text::trim_end_matches;
use crate::text::trim_suffix;
use crate::types::TeleportGroup;
use vstd::prelude::*;
use vstd::string::*;

verus! {

/// The client marker that every request carries.
pub const USER_AGENT: &'static str = "tp_sync";

/// One entry of a directory listing.
#[derive(Debug, Clone, PartialEq)]
pub struct GitHubFile {
    pub name: String,
    pub file_type: String,
}

/// What came back for a request.
#[derive(Debug)]
pub enum Reply<T> {
    /// No answer came; with the reason.
    Unreachable(String),
    /// The answer's status was not a success; with the status.
    Refused(String),
    /// The answer's body was not what was asked for; with the reason.
    Malformed(String),
    /// The answer's body.
    Body(T),
}

/// Whether an HTTP status code reports success.
pub fn status_is_success(code: u16) -> (success: bool)
    ensures
        success == (200 <= code < 300),
{
    200 <= code && code < 300
}

/// Whether a listing entry stands for a group: a file whose name ends in `.json`.
pub open spec fn is_group_file(file: GitHubFile) -> bool {
    file.file_type@ == "file"@ && is_suffix(file.name@, ".json"@)
}

/// The group that a listing entry stands for: its name without `.json`.
pub open spec fn group_name_of(file: GitHubFile) -> Seq<char> {
    trim_suffix(file.name@, ".json"@)
}

/// The group names that a listing offers, in its order.
pub open spec fn listed_names(files: Seq<GitHubFile>) -> Seq<Seq<char>> {
    files.filter(|f: GitHubFile| is_group_file(f)).map_values(|f: GitHubFile| group_name_of(f))
}

/// The URL of the listing of `path` in the repository `owner`/`repo`.
pub open spec fn api_url_of(owner: Seq<char>, repo: Seq<char>, path: Seq<char>) -> Seq<char> {
    "https://api.github.com/repos/"@ + owner + "/"@ + repo + "/contents/"@ + path
}

/// The URL of the file `filename` under `path` on `branch` of `owner`/`repo`.
pub open spec fn raw_file_url_of(
    owner: Seq<char>,
    repo: Seq<char>,
    branch: Seq<char>,
    path: Seq<char>,
    filename: Seq<char>,
) -> Seq<char> {
    "https://raw.githubusercontent.com/"@ + owner + "/"@ + repo + "/"@ + branch + "/"@ + path
        + "/"@ + filename
}

/// The failure reported when the repository is not named.
pub open spec fn not_configured_error() -> TeleportError {
    TeleportError::IoError(
        io_error_of(IoKind::InvalidInput, "Remote repository owner and name must be set"@),
    )
}

/// A repository on GitHub that holds teleport groups.
pub struct GitHubProvider {
    repo_owner: String,
    repo_name: String,
    branch: String,
    teleports_path: String,
}

impl GitHubProvider {
    pub closed spec fn repo_owner(&self) -> Seq<char> {
        self.repo_owner@
    }

    pub closed spec fn repo_name(&self) -> Seq<char> {
        self.repo_name@
    }

    pub closed spec fn branch(&self) -> Seq<char> {
        self.branch@
    }

    pub closed spec fn teleports_path(&self) -> Seq<char> {
        self.teleports_path@
    }

    /// Whether both the owner and the repository are named.
    pub open spec fn configured(&self) -> bool {
        self.repo_owner().len() > 0 && self.repo_name().len() > 0
    }

    /// The URL that lists the groups.
    pub open spec fn api_url_spec(&self) -> Seq<char> {
        api_url_of(self.repo_owner(), self.repo_name(), self.teleports_path())
    }

    /// The URL of the file `filename`.
    pub open spec fn raw_file_url_spec(&self, filename: Seq<char>) -> Seq<char> {
        raw_file_url_of(
            self.repo_owner(),
            self.repo_name(),
            self.branch(),
            self.teleports_path(),
            filename,
        )
    }

    /// The groups under `teleports` on the `main` branch of `repo_owner`/`repo_name`.
    pub fn new(repo_owner: String, repo_name: String) -> (provider: Self)
        ensures
            provider.repo_owner() == repo_owner@,
            provider.repo_name() == repo_name@,
            provider.branch() == "main"@,
            provider.teleports_path() == "teleports"@,
    {
        Self {
            repo_owner,
            repo_name,
            branch: String::from_str("main"),
            teleports_path: String::from_str("teleports"),
        }
    }

    /// Whether both the owner and the repository are named.
    pub fn is_configured(&self) -> (configured: bool)
        ensures
            configured == self.configured(),
    {
        !self.repo_owner.as_str().is_empty() && !self.repo_name.as_str().is_empty()
    }

    /// The URL that lists the groups.
    pub fn api_url(&self) -> (url: String)
        ensures
            url@ == self.api_url_spec(),
    {
        String::from_str("https://api.github.com/repos/").concat(self.repo_owner.as_str()).concat(
            "/",
        ).concat(self.repo_name.as_str()).concat("/contents/").concat(self.teleports_path.as_str())
    }

    /// The URL of the file `filename`.
    pub fn raw_file_url(&self, filename: &str) -> (url: String)
        ensures
            url@ == self.raw_file_url_spec(filename@),
    {
        String::from_str("https://raw.githubusercontent.com/").concat(
            self.repo_owner.as_str(),
        ).concat("/").concat(self.repo_name.as_str()).concat("/").concat(
            self.branch.as_str(),
        ).concat("/").concat(self.teleports_path.as_str()).concat("/").concat(filename)
    }

    /// The URL to ask for the listing; a failure if the repository is not named.
    pub fn list_request(&self) -> (request: Result<String, TeleportError>)
        ensures
            self.configured() ==> (request matches Ok(url) && url@ == self.api_url_spec()),
            !self.configured() ==> request == Err::<String, TeleportError>(not_configured_error()),
    {
        if !self.is_configured() {
            return Err(not_configured());
        }
        Ok(self.api_url())
    }

    /// The URL to ask for the group `name`; a failure if the repository is not
    /// named.
    pub fn fetch_request(&self, name: &str) -> (request: Result<String, TeleportError>)
        ensures
            self.configured() ==> (request matches Ok(url) && url@ == self.raw_file_url_spec(
                name@ + ".json"@,
            )),
            !self.configured() ==> request == Err::<String, TeleportError>(not_configured_error()),
    {
        if !self.is_configured() {
            return Err(not_configured());
        }
        let filename = name.to_owned().concat(".json");
        Ok(self.raw_file_url(filename.as_str()))
    }

    /// Reads the answer to a listing request: the names of the groups on offer,
    /// or why there are none.
    pub fn list_available_groups(&self, reply: Reply<Vec<GitHubFile>>) -> (outcome: Result<
        Vec<String>,
        TeleportError,
    >)
        ensures
            match reply {
                Reply::Unreachable(reason) => outcome == Err::<Vec<String>, TeleportError>(
                    TeleportError::IoError(
                        io_error_of(IoKind::Other, "Failed to fetch from GitHub: "@ + reason@),
                    ),
                ),
                Reply::Refused(status) => outcome == Err::<Vec<String>, TeleportError>(
                    TeleportError::IoError(
                        io_error_of(IoKind::Other, "GitHub API returned status: "@ + status@),
                    ),
                ),
                Reply::Malformed(reason) => outcome == Err::<Vec<String>, TeleportError>(
                    TeleportError::IoError(
                        io_error_of(
                            IoKind::InvalidData,
                            "Failed to parse GitHub response: "@ + reason@,
                        ),
                    ),
                ),
                Reply::Body(files) => outcome matches Ok(names) && names.deep_view()
                    == listed_names(files@),
            },
    {
        match reply {
            Reply::Unreachable(reason) => Err(
                failure(IoKind::Other, "Failed to fetch from GitHub: ", reason.as_str()),
            ),
            Reply::Refused(status) => Err(
                failure(IoKind::Other, "GitHub API returned status: ", status.as_str()),
            ),
            Reply::Malformed(reason) => Err(
                failure(IoKind::InvalidData, "Failed to parse GitHub response: ", reason.as_str()),
            ),
            Reply::Body(files) => Ok(group_names_in(&files)),
        }
    }

    /// Reads the answer to a request for the group `name`: the group, or why
    /// there is none. A status that is not a success means that the remote has
    /// no such group.
    pub fn fetch_group(&self, name: &str, reply: Reply<TeleportGroup>) -> (outcome: Result<
        TeleportGroup,
        TeleportError,
    >)
        ensures
            match reply {
                Reply::Unreachable(reason) => outcome == Err::<TeleportGroup, TeleportError>(
                    TeleportError::IoError(
                        io_error_of(
                            IoKind::Other,
                            "Failed to fetch group from GitHub: "@ + reason@,
                        ),
                    ),
                ),
                Reply::Refused(_) => {
                    &&& outcome matches Err(TeleportError::GroupNotFound(missing))
                    &&& missing@ == name@
                },
                Reply::Malformed(reason) => outcome == Err::<TeleportGroup, TeleportError>(
                    TeleportError::IoError(
                        io_error_of(IoKind::InvalidData, "Failed to parse group JSON: "@ + reason@),
                    ),
                ),
                Reply::Body(group) => outcome == Ok::<TeleportGroup, TeleportError>(group),
            },
    {
        match reply {
            Reply::Unreachable(reason) => Err(
                failure(IoKind::Other, "Failed to fetch group from GitHub: ", reason.as_str()),
            ),
            Reply::Refused(_) => Err(TeleportError::GroupNotFound(name.to_owned())),
            Reply::Malformed(reason) => Err(
                failure(IoKind::InvalidData, "Failed to parse group JSON: ", reason.as_str()),
            ),
            Reply::Body(group) => Ok(group),
        }
    }
}

/// The failure of kind `kind` whose message is `prefix` followed by `detail`.
fn failure(kind: IoKind, prefix: &str, detail: &str) -> (error: TeleportError)
    ensures
        error == TeleportError::IoError(io_error_of(kind, prefix@ + detail@)),
{
    TeleportError::IoError(io_error(kind, prefix.to_owned().concat(detail)))
}

/// The failure reported when the repository is not named.
fn not_configured() -> (error: TeleportError)
    ensures
        error == not_configured_error(),
{
    TeleportError::IoError(
        io_error(
            IoKind::InvalidInput,
            String::from_str("Remote repository owner and name must be set"),
        ),
    )
}

/// How the names that a listing offers grow with its last entry.
pub proof fn lemma_listed_names_step(files: Seq<GitHubFile>)
    requires
        files.len() > 0,
    ensures
        listed_names(files) == if is_group_file(files.last()) {
            listed_names(files.drop_last()).push(group_name_of(files.last()))
        } else {
            listed_names(files.drop_last())
        },
{
    reveal(Seq::filter);
    let kept = files.drop_last().filter(|f: GitHubFile| is_group_file(f));
    if is_group_file(files.last()) {
        assert(files.filter(|f: GitHubFile| is_group_file(f)) == kept.push(files.last()));
        assert(listed_names(files) =~= listed_names(files.drop_last()).push(
            group_name_of(files.last()),
        ));
    } else {
        assert(files.filter(|f: GitHubFile| is_group_file(f)) == kept);
    }
}

/// The group names that `files` offers, in order.
pub fn group_names_in(files: &Vec<GitHubFile>) -> (names: Vec<String>)
    ensures
        names.deep_view() == listed_names(files@),
{
    let mut names: Vec<String> = Vec::new();
    let mut i: usize = 0;
    proof {
        reveal(Seq::filter);
        assert(files@.take(0) =~= Seq::<GitHubFile>::empty());
    }
    while i < files.len()
        invariant
            i <= files.len(),
            names.deep_view() == listed_names(files@.take(i as int)),
        decreases files.len() - i,
    {
        let file = &files[i];
        let ghost before = files@.take(i as int);
        let ghost upto = files@.take(i + 1);
        let ghost kept_before = names.deep_view();
        proof {
            assert(upto.drop_last() =~= before);
            assert(upto.last() == *file);
            lemma_listed_names_step(upto);
        }
        if same_text(file.file_type.as_str(), "file") && ends_with(file.name.as_str(), ".json") {
            names.push(trim_end_matches(file.name.as_str(), ".json").to_owned());
            proof {
                assert(names.deep_view() =~= kept_before.push(group_name_of(*file)));
            }
        }
        i += 1;
    }
    assert(files@.take(files.len() as int) =~= files@);
    names
}

} // verus!
