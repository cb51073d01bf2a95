use tp_sync::sync::SyncStateManager;
use tp_sync::ui::handle_key_event;
use tp_sync::ui::App;
use tp_sync::ui::AppEvent;
use tp_sync::ui::AppMode;
use tp_sync::ui::Key;
use tp_sync::ui::Pane;
use tp_sync::TeleportConfig;
use tp_sync::TeleportError;
use tp_sync::TeleportGroup;
use tp_sync::TeleportManager;

fn group(name: &str) -> TeleportGroup {
    TeleportGroup { name: name.to_string(), teleports: Vec::new() }
}

fn engine(names: &[&str]) -> SyncStateManager {
    let mut config = TeleportConfig::default();
    for name in names {
        config.teleport_groups.push(group(name));
    }
    SyncStateManager::new(TeleportManager::from_file(config, "teleport.json".to_string()))
}

fn listing(names: &[&str]) -> Result<Vec<String>, TeleportError> {
    Ok(names.iter().map(|n| n.to_string()).collect())
}

fn app(local: &[&str], remote: &[&str]) -> App {
    App::new(engine(local), listing(remote)).unwrap()
}

fn offline() -> Result<Vec<String>, TeleportError> {
    Err(TeleportError::IoError(std::io::Error::other("offline")))
}

#[test]
fn new_app_shows_both_lists() {
    let app = app(&["a", "b"], &["b", "c", "d"]);
    assert_eq!(app.local_groups, vec!["a", "b"]);
    assert_eq!(app.remote_groups, vec!["c", "d"]);
    assert_eq!(app.active_pane, Pane::Local);
    assert!(matches!(app.mode, AppMode::Normal));
    assert_eq!(app.local_list_state.selected(), Some(0));
    assert_eq!(app.remote_list_state.selected(), None);
    assert_eq!(app.status_message, None);
    assert!(!app.is_loading);
}

#[test]
fn new_app_without_local_groups_selects_nothing() {
    let app = app(&[], &["c"]);
    assert!(app.local_groups.is_empty());
    assert_eq!(app.local_list_state.selected(), None);
    assert_eq!(app.selected_group(), None);
}

#[test]
fn new_app_fails_with_the_listing() {
    let outcome = App::new(engine(&["a"]), offline());
    assert!(matches!(outcome, Err(TeleportError::IoError(ref e)) if e.to_string() == "offline"));
}

#[test]
fn refresh_follows_the_store() {
    let mut app = app(&["a"], &["a", "b"]);
    app.sync_manager.sync_group(Ok(group("b"))).unwrap();
    app.refresh_data(listing(&["a", "b", "c"])).unwrap();
    assert_eq!(app.local_groups, vec!["a", "b"]);
    assert_eq!(app.remote_groups, vec!["c"]);
    assert!(!app.is_loading);
}

#[test]
fn failed_refresh_keeps_the_remote_list_and_goes_on_loading() {
    let mut app = app(&["a"], &["b"]);
    app.sync_manager.remove_local_group("a").unwrap();
    assert!(app.refresh_data(offline()).is_err());
    assert!(app.local_groups.is_empty());
    assert_eq!(app.remote_groups, vec!["b"]);
    assert!(app.is_loading);
    assert_eq!(app.status_text(), "Loading...");
}

#[test]
fn selected_group_follows_the_active_pane() {
    let mut app = app(&["a", "b"], &["c"]);
    assert_eq!(app.selected_group(), Some(&"a".to_string()));
    app.switch_pane();
    assert_eq!(app.active_pane, Pane::Remote);
    assert_eq!(app.remote_list_state.selected(), Some(0));
    assert_eq!(app.selected_group(), Some(&"c".to_string()));
    app.switch_pane();
    assert_eq!(app.active_pane, Pane::Local);
    assert_eq!(app.selected_group(), Some(&"a".to_string()));
}

#[test]
fn selection_past_the_end_selects_nothing() {
    let mut app = app(&["a"], &[]);
    app.local_list_state.select(Some(5));
    assert_eq!(app.selected_group(), None);
}

#[test]
fn switch_keeps_an_earlier_selection() {
    let mut app = app(&["a", "b"], &["c", "d"]);
    app.navigate_down();
    app.switch_pane();
    app.navigate_down();
    assert_eq!(app.remote_list_state.selected(), Some(1));
    app.switch_pane();
    assert_eq!(app.local_list_state.selected(), Some(1));
    app.switch_pane();
    assert_eq!(app.remote_list_state.selected(), Some(1));
}

#[test]
fn switch_to_an_empty_pane_selects_nothing() {
    let mut app = app(&["a"], &[]);
    app.switch_pane();
    assert_eq!(app.active_pane, Pane::Remote);
    assert_eq!(app.remote_list_state.selected(), None);
}

#[test]
fn navigate_down_wraps_to_the_first() {
    let mut app = app(&["a", "b", "c"], &[]);
    app.navigate_down();
    assert_eq!(app.local_list_state.selected(), Some(1));
    app.navigate_down();
    assert_eq!(app.local_list_state.selected(), Some(2));
    app.navigate_down();
    assert_eq!(app.local_list_state.selected(), Some(0));
}

#[test]
fn navigate_up_wraps_to_the_last() {
    let mut app = app(&["a", "b", "c"], &[]);
    app.navigate_up();
    assert_eq!(app.local_list_state.selected(), Some(2));
    app.navigate_up();
    assert_eq!(app.local_list_state.selected(), Some(1));
    app.navigate_up();
    assert_eq!(app.local_list_state.selected(), Some(0));
}

#[test]
fn navigate_from_no_selection_selects_the_first() {
    let mut app = app(&[], &["x", "y"]);
    app.active_pane = Pane::Remote;
    app.navigate_down();
    assert_eq!(app.remote_list_state.selected(), Some(0));
    app.remote_list_state.select(None);
    app.navigate_up();
    assert_eq!(app.remote_list_state.selected(), Some(0));
}

#[test]
fn navigate_from_a_selection_past_the_end() {
    let mut app = app(&["a", "b"], &[]);
    app.local_list_state.select(Some(9));
    app.navigate_down();
    assert_eq!(app.local_list_state.selected(), Some(0));
    app.local_list_state.select(Some(9));
    app.navigate_up();
    assert_eq!(app.local_list_state.selected(), Some(8));
}

#[test]
fn navigate_in_an_empty_pane_does_nothing() {
    let mut app = app(&[], &[]);
    app.navigate_down();
    app.navigate_up();
    assert_eq!(app.local_list_state.selected(), None);
}

#[test]
fn delete_asks_for_confirmation_in_the_local_pane_only() {
    let mut app = app(&["a", "b"], &["c"]);
    app.navigate_down();
    app.handle_delete();
    assert!(matches!(app.mode, AppMode::ConfirmDelete(ref n) if n == "b"));
    app.cancel_confirmation();
    assert!(matches!(app.mode, AppMode::Normal));
    app.switch_pane();
    app.handle_delete();
    assert!(matches!(app.mode, AppMode::Normal));
}

#[test]
fn space_asks_for_confirmation_in_the_remote_pane_only() {
    let mut app = app(&["a"], &["c", "d"]);
    app.handle_space();
    assert!(matches!(app.mode, AppMode::Normal));
    app.switch_pane();
    app.handle_space();
    assert!(matches!(app.mode, AppMode::ConfirmInstall(ref n) if n == "c"));
}

#[test]
fn requests_without_a_selection_do_nothing() {
    let mut app = app(&[], &[]);
    app.handle_delete();
    assert!(matches!(app.mode, AppMode::Normal));
    app.active_pane = Pane::Remote;
    app.handle_space();
    assert!(matches!(app.mode, AppMode::Normal));
}

#[test]
fn confirmed_removal_that_went_well() {
    let mut app = app(&["a", "b"], &["c"]);
    app.handle_delete();
    let removal = app.sync_manager.remove_local_group("a").map(|_| ());
    app.confirm_delete("a".to_string(), removal, listing(&["a", "c"])).unwrap();
    assert_eq!(app.status_message.as_deref(), Some("✓ Deleted 'a'"));
    assert!(matches!(app.mode, AppMode::Normal));
    assert_eq!(app.local_groups, vec!["b"]);
    assert_eq!(app.remote_groups, vec!["a", "c"]);
    assert_eq!(app.status_text(), "✓ Deleted 'a'");
}

#[test]
fn confirmed_removal_that_failed() {
    let mut app = app(&["a"], &[]);
    let removal = app.sync_manager.remove_local_group("zz").map(|_| ());
    app.confirm_delete("zz".to_string(), removal, listing(&[])).unwrap();
    assert_eq!(app.status_message.as_deref(), Some("✗ Error: Group 'zz' not found"));
    assert_eq!(app.local_groups, vec!["a"]);
}

#[test]
fn confirmed_installation_that_went_well() {
    let mut app = app(&["a"], &["b"]);
    let installation = app.sync_manager.sync_group(Ok(group("b"))).map(|_| ());
    app.confirm_install("b".to_string(), installation, listing(&["a", "b"])).unwrap();
    assert_eq!(app.status_message.as_deref(), Some("✓ Installed 'b'"));
    assert!(matches!(app.mode, AppMode::Normal));
    assert_eq!(app.local_groups, vec!["a", "b"]);
    assert!(app.remote_groups.is_empty());
    assert!(!app.is_loading);
}

#[test]
fn confirmed_installation_that_failed() {
    let mut app = app(&["a"], &["b"]);
    let installation = app.sync_manager.sync_group(Ok(group("a"))).map(|_| ());
    app.mode = AppMode::ConfirmInstall("a".to_string());
    app.confirm_install("a".to_string(), installation, listing(&["b"])).unwrap();
    assert_eq!(app.status_message.as_deref(), Some("✗ Error: Group 'a' is already installed"));
    assert!(matches!(app.mode, AppMode::Normal));
    assert_eq!(app.local_groups, vec!["a"]);
    assert_eq!(app.remote_groups, vec!["b"]);
}

#[test]
fn confirmation_with_a_failed_listing_hands_the_failure_on() {
    let mut app = app(&["a"], &["b"]);
    let outcome = app.confirm_install("b".to_string(), Ok(()), offline());
    assert!(matches!(outcome, Err(TeleportError::IoError(_))));
    assert_eq!(app.status_message.as_deref(), Some("✓ Installed 'b'"));
    assert!(matches!(app.mode, AppMode::Normal));
    assert!(app.is_loading);
}

#[test]
fn status_text_prefers_loading_then_message_then_hint() {
    let mut app = app(&[], &[]);
    assert_eq!(
        app.status_text(),
        "TAB: Switch pane | ↑↓: Navigate | SPACE: Install | DEL: Remove | q: Quit"
    );
    app.status_message = Some("done".to_string());
    assert_eq!(app.status_text(), "done");
    app.is_loading = true;
    assert_eq!(app.status_text(), "Loading...");
}

#[test]
fn confirmation_prompt_by_mode() {
    let mut app = app(&[], &[]);
    assert_eq!(app.confirmation_prompt(), None);
    app.mode = AppMode::ConfirmDelete("a".to_string());
    assert_eq!(
        app.confirmation_prompt(),
        Some((
            "Confirm Deletion".to_string(),
            "Delete 'a'?\n\nPress 'y' to confirm, 'n' to cancel".to_string()
        ))
    );
    app.mode = AppMode::ConfirmInstall("b".to_string());
    assert_eq!(
        app.confirmation_prompt(),
        Some((
            "Confirm Installation".to_string(),
            "Install 'b'?\n\nPress 'y' to confirm, 'n' to cancel".to_string()
        ))
    );
}

#[test]
fn keys_while_nothing_is_pending() {
    let mut app = app(&["a", "b"], &["c"]);
    assert_eq!(handle_key_event(&mut app, Key::Char('q')), Some(AppEvent::Quit));
    assert_eq!(handle_key_event(&mut app, Key::Down), None);
    assert_eq!(app.local_list_state.selected(), Some(1));
    assert_eq!(handle_key_event(&mut app, Key::Up), None);
    assert_eq!(app.local_list_state.selected(), Some(0));
    assert_eq!(handle_key_event(&mut app, Key::Tab), None);
    assert_eq!(app.active_pane, Pane::Remote);
    assert_eq!(handle_key_event(&mut app, Key::Char(' ')), None);
    assert!(matches!(app.mode, AppMode::ConfirmInstall(ref n) if n == "c"));
}

#[test]
fn other_keys_do_nothing() {
    let mut app = app(&["a"], &["c"]);
    for key in [Key::Other, Key::Esc, Key::Char('x'), Key::Char('y'), Key::Char('Q')] {
        assert_eq!(handle_key_event(&mut app, key), None);
    }
    assert_eq!(app.active_pane, Pane::Local);
    assert!(matches!(app.mode, AppMode::Normal));
    assert_eq!(app.local_list_state.selected(), Some(0));
}

#[test]
fn delete_key_then_yes_hands_the_removal_to_the_caller() {
    let mut app = app(&["a"], &[]);
    assert_eq!(handle_key_event(&mut app, Key::Delete), None);
    assert!(matches!(app.mode, AppMode::ConfirmDelete(ref n) if n == "a"));
    assert_eq!(handle_key_event(&mut app, Key::Char('x')), None);
    assert_eq!(handle_key_event(&mut app, Key::Char('q')), None);
    assert!(matches!(app.mode, AppMode::ConfirmDelete(_)));
    assert_eq!(handle_key_event(&mut app, Key::Char('y')), Some(AppEvent::Delete("a".to_string())));
    assert!(matches!(app.mode, AppMode::ConfirmDelete(_)));
    assert_eq!(handle_key_event(&mut app, Key::Char('Y')), Some(AppEvent::Delete("a".to_string())));
}

#[test]
fn space_key_then_yes_hands_the_installation_to_the_caller() {
    let mut app = app(&[], &["c"]);
    handle_key_event(&mut app, Key::Tab);
    handle_key_event(&mut app, Key::Char(' '));
    assert_eq!(handle_key_event(&mut app, Key::Char('Y')), Some(AppEvent::Install("c".to_string())));
    assert_eq!(handle_key_event(&mut app, Key::Char('y')), Some(AppEvent::Install("c".to_string())));
}

#[test]
fn no_leaves_the_confirmation() {
    for key in [Key::Char('n'), Key::Char('N'), Key::Esc] {
        let mut app = app(&["a"], &[]);
        handle_key_event(&mut app, Key::Delete);
        assert_eq!(handle_key_event(&mut app, key), None);
        assert!(matches!(app.mode, AppMode::Normal));
        assert_eq!(app.local_groups, vec!["a"]);
    }
}
