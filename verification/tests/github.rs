use tp_sync::remote::github::group_names_in;
use tp_sync::remote::github::status_is_success;
use tp_sync::remote::github::USER_AGENT;
use tp_sync::remote::FetchBatch;
use tp_sync::remote::GitHubFile;
use tp_sync::remote::GitHubProvider;
use tp_sync::remote::Reply;
use tp_sync::TeleportError;
use tp_sync::TeleportGroup;

fn provider() -> GitHubProvider {
    GitHubProvider::new("rusty-bob".to_string(), "gw2-oktw-teleports".to_string())
}

fn entry(name: &str, file_type: &str) -> GitHubFile {
    GitHubFile { name: name.to_string(), file_type: file_type.to_string() }
}

fn group(name: &str) -> TeleportGroup {
    TeleportGroup { name: name.to_string(), teleports: Vec::new() }
}

fn io_parts(error: TeleportError) -> (std::io::ErrorKind, String) {
    match error {
        TeleportError::IoError(e) => (e.kind(), e.to_string()),
        other => panic!("not an I/O error: {other:?}"),
    }
}

#[test]
fn client_marker() {
    assert_eq!(USER_AGENT, "tp_sync");
}

#[test]
fn listing_url() {
    assert_eq!(
        provider().api_url(),
        "https://api.github.com/repos/rusty-bob/gw2-oktw-teleports/contents/teleports"
    );
    assert_eq!(provider().list_request().unwrap(), provider().api_url());
}

#[test]
fn file_url() {
    assert_eq!(
        provider().raw_file_url("Homestead.json"),
        "https://raw.githubusercontent.com/rusty-bob/gw2-oktw-teleports/main/teleports/Homestead.json"
    );
}

#[test]
fn fetch_url_appends_the_suffix() {
    assert_eq!(
        provider().fetch_request("Arborstone").unwrap(),
        "https://raw.githubusercontent.com/rusty-bob/gw2-oktw-teleports/main/teleports/Arborstone.json"
    );
}

#[test]
fn unnamed_repository_is_caught_before_any_request() {
    let no_owner = GitHubProvider::new(String::new(), "repo".to_string());
    let no_repo = GitHubProvider::new("owner".to_string(), String::new());
    assert!(!no_owner.is_configured());
    assert!(!no_repo.is_configured());
    assert!(provider().is_configured());
    let (kind, text) = io_parts(no_owner.list_request().unwrap_err());
    assert_eq!(kind, std::io::ErrorKind::InvalidInput);
    assert_eq!(text, "Remote repository owner and name must be set");
    let (kind, text) = io_parts(no_repo.fetch_request("x").unwrap_err());
    assert_eq!(kind, std::io::ErrorKind::InvalidInput);
    assert_eq!(text, "Remote repository owner and name must be set");
}

#[test]
fn success_is_the_two_hundreds() {
    assert!(!status_is_success(199));
    assert!(status_is_success(200));
    assert!(status_is_success(204));
    assert!(status_is_success(299));
    assert!(!status_is_success(300));
    assert!(!status_is_success(404));
    assert!(!status_is_success(0));
    assert!(!status_is_success(u16::MAX));
}

#[test]
fn listing_keeps_json_files_and_strips_the_suffix() {
    let files = vec![
        entry("Homestead.json", "file"),
        entry("README.md", "file"),
        entry("archive.json", "dir"),
        entry("Arborstone.json", "file"),
        entry("twice.json.json", "file"),
        entry(".json", "file"),
        entry("notes.JSON", "file"),
        entry("Wizard's Tower.json", "file"),
    ];
    let names = provider().list_available_groups(Reply::Body(files)).unwrap();
    assert_eq!(names, vec!["Homestead", "Arborstone", "twice", "", "Wizard's Tower"]);
}

#[test]
fn empty_listing_offers_nothing() {
    assert!(provider().list_available_groups(Reply::Body(Vec::new())).unwrap().is_empty());
    assert!(group_names_in(&vec![entry("a.txt", "file")]).is_empty());
}

#[test]
fn listing_that_could_not_be_asked() {
    let outcome = provider().list_available_groups(Reply::Unreachable("dns failure".to_string()));
    let (kind, text) = io_parts(outcome.unwrap_err());
    assert_eq!(kind, std::io::ErrorKind::Other);
    assert_eq!(text, "Failed to fetch from GitHub: dns failure");
}

#[test]
fn listing_that_was_refused() {
    let outcome = provider().list_available_groups(Reply::Refused("403 Forbidden".to_string()));
    let (kind, text) = io_parts(outcome.unwrap_err());
    assert_eq!(kind, std::io::ErrorKind::Other);
    assert_eq!(text, "GitHub API returned status: 403 Forbidden");
}

#[test]
fn listing_that_was_malformed() {
    let outcome = provider().list_available_groups(Reply::Malformed("expected value".to_string()));
    let (kind, text) = io_parts(outcome.unwrap_err());
    assert_eq!(kind, std::io::ErrorKind::InvalidData);
    assert_eq!(text, "Failed to parse GitHub response: expected value");
}

#[test]
fn fetched_group_is_handed_on() {
    let outcome = provider().fetch_group("Homestead", Reply::Body(group("Homestead")));
    assert_eq!(outcome.unwrap(), group("Homestead"));
}

#[test]
fn refused_fetch_means_no_such_group() {
    let outcome = provider().fetch_group("Ghost", Reply::Refused("404 Not Found".to_string()));
    assert!(matches!(outcome, Err(TeleportError::GroupNotFound(ref n)) if n == "Ghost"));
    let outcome = provider().fetch_group("Ghost", Reply::Refused("500 Internal Server Error".to_string()));
    assert!(matches!(outcome, Err(TeleportError::GroupNotFound(ref n)) if n == "Ghost"));
}

#[test]
fn fetch_that_could_not_be_asked() {
    let outcome = provider().fetch_group("x", Reply::Unreachable("timeout".to_string()));
    let (kind, text) = io_parts(outcome.unwrap_err());
    assert_eq!(kind, std::io::ErrorKind::Other);
    assert_eq!(text, "Failed to fetch group from GitHub: timeout");
}

#[test]
fn fetch_that_was_malformed() {
    let outcome = provider().fetch_group("x", Reply::Malformed("missing field".to_string()));
    let (kind, text) = io_parts(outcome.unwrap_err());
    assert_eq!(kind, std::io::ErrorKind::InvalidData);
    assert_eq!(text, "Failed to parse group JSON: missing field");
}

#[test]
fn batch_keeps_groups_in_order() {
    let mut batch = FetchBatch::new();
    assert!(batch.accept(Ok(group("a"))));
    assert!(batch.accept(Ok(group("b"))));
    assert!(batch.accept(Ok(group("c"))));
    assert_eq!(batch.finish().unwrap(), vec![group("a"), group("b"), group("c")]);
}

#[test]
fn empty_batch_gives_no_groups() {
    assert!(FetchBatch::new().finish().unwrap().is_empty());
}

#[test]
fn batch_stops_at_the_first_failure() {
    let mut batch = FetchBatch::new();
    assert!(batch.accept(Ok(group("a"))));
    assert!(!batch.accept(Err(TeleportError::GroupNotFound("b".to_string()))));
    assert!(!batch.accept(Ok(group("c"))));
    assert!(!batch.accept(Err(TeleportError::GroupNotFound("d".to_string()))));
    let outcome = batch.finish();
    assert!(matches!(outcome, Err(TeleportError::GroupNotFound(ref n)) if n == "b"));
}
