use std::path::PathBuf;
use tp_sync::config::default_repo_name;
use tp_sync::config::default_repo_owner;
use tp_sync::config::AppConfig;

#[test]
fn default_repository() {
    assert_eq!(default_repo_owner(), "rusty-bob");
    assert_eq!(default_repo_name(), "gw2-oktw-teleports");
}

#[test]
fn new_config_points_at_the_default_repository() {
    let config = AppConfig::new(PathBuf::from("/tmp/teleport.json"));
    assert_eq!(config.teleport_json_path, PathBuf::from("/tmp/teleport.json"));
    assert_eq!(config.remote_repo_owner, "rusty-bob");
    assert_eq!(config.remote_repo_name, "gw2-oktw-teleports");
}

#[test]
fn clone_of_a_config_keeps_every_field() {
    let mut config = AppConfig::new(PathBuf::from("a/b.json"));
    config.remote_repo_owner = "someone".to_string();
    let copy = config.clone();
    assert_eq!(copy.teleport_json_path, PathBuf::from("a/b.json"));
    assert_eq!(copy.remote_repo_owner, "someone");
    assert_eq!(copy.remote_repo_name, "gw2-oktw-teleports");
}
