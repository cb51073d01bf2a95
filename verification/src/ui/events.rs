//! What each key does to the interface.

use crate::ui::app::index_above;
use crate::ui::app::index_below;
use crate::ui::app::selection;
use crate::ui::app::selects;
use crate::ui::app::App;
use crate::ui::app::AppMode;
use crate::ui::app::Pane;
use vstd::prelude::*;

verus! {

/// A key of the keyboard, as far as the interface tells keys apart.
#[derive(Debug, Clone, Copy, PartialEq, Eq)]
pub enum Key {
    Char(char),
    Tab,
    Up,
    Down,
    Delete,
    Esc,
    Other,
}

/// What the caller is to do after a key.
#[derive(Debug, PartialEq)]
pub enum AppEvent {
    /// Leave the program.
    Quit,
    /// Remove the named group, then report with `App::confirm_delete`.
    Delete(String),
    /// Install the named group, then report with `App::confirm_install`.
    Install(String),
}

/// Whether `key` says yes to a confirmation.
pub open spec fn is_yes(key: Key) -> bool {
    key == Key::Char('y') || key == Key::Char('Y')
}

/// Whether `key` says no to a confirmation.
pub open spec fn is_no(key: Key) -> bool {
    key == Key::Char('n') || key == Key::Char('N') || key == Key::Esc
}

/// Applies `key` to `app` and says what the caller is to do.
///
/// While nothing is pending, `q` quits, Tab switches the pane, the arrows
/// move the selection, Delete and Space ask for confirmation. While a
/// confirmation is pending, `y` hands the confirmed action to the caller, `n`
/// and Esc leave the confirmation; other keys do nothing.
pub fn handle_key_event(app: &mut App, key: Key) -> (event: Option<AppEvent>)
    ensures
        match old(app).mode {
            AppMode::Normal => after_normal_key(*old(app), key, *final(app), event),
            AppMode::ConfirmDelete(name) => after_confirm_key(
                *old(app),
                key,
                *final(app),
                event,
                name@,
                true,
            ),
            AppMode::ConfirmInstall(name) => after_confirm_key(
                *old(app),
                key,
                *final(app),
                event,
                name@,
                false,
            ),
        },
{
    let pending = match &app.mode {
        AppMode::Normal => None,
        AppMode::ConfirmDelete(name) => Some((true, name.clone())),
        AppMode::ConfirmInstall(name) => Some((false, name.clone())),
    };
    match pending {
        None => handle_normal_mode(app, key),
        Some((true, name)) => handle_confirm_delete(app, key, name),
        Some((false, name)) => handle_confirm_install(app, key, name),
    }
}

/// Whether `after` and `event` are what `key` makes of `before` while nothing
/// is pending.
pub open spec fn after_normal_key(before: App, key: Key, after: App, event: Option<AppEvent>) -> bool {
    if key == Key::Char('q') {
        after == before && event == Some(AppEvent::Quit)
    } else if key == Key::Tab {
        event is None && after_switch(before, after)
    } else if key == Key::Up {
        event is None && after_move(before, after, true)
    } else if key == Key::Down {
        event is None && after_move(before, after, false)
    } else if key == Key::Delete {
        event is None && after_request(before, after, true)
    } else if key == Key::Char(' ') {
        event is None && after_request(before, after, false)
    } else {
        after == before && event is None
    }
}

/// Whether `after` and `event` are what `key` makes of `before` while the
/// removal or the installation of `name` waits for confirmation.
pub open spec fn after_confirm_key(
    before: App,
    key: Key,
    after: App,
    event: Option<AppEvent>,
    name: Seq<char>,
    removal: bool,
) -> bool {
    if is_yes(key) {
        &&& after == before
        &&& if removal {
            event matches Some(AppEvent::Delete(confirmed)) && confirmed@ == name
        } else {
            event matches Some(AppEvent::Install(confirmed)) && confirmed@ == name
        }
    } else if is_no(key) {
        after == (App { mode: AppMode::Normal, ..before }) && event is None
    } else {
        after == before && event is None
    }
}

/// Whether `after` is `before` with the other pane active.
pub open spec fn after_switch(before: App, after: App) -> bool {
    match before.active_pane {
        Pane::Local => {
            &&& after == (App {
                active_pane: Pane::Remote,
                remote_list_state: after.remote_list_state,
                ..before
            })
            &&& if selection(before.remote_list_state) is None
                && before.remote_groups@.len() > 0 {
                selection(after.remote_list_state) == Some(0usize)
            } else {
                after.remote_list_state == before.remote_list_state
            }
        },
        Pane::Remote => {
            &&& after == (App {
                active_pane: Pane::Local,
                local_list_state: after.local_list_state,
                ..before
            })
            &&& if selection(before.local_list_state) is None
                && before.local_groups@.len() > 0 {
                selection(after.local_list_state) == Some(0usize)
            } else {
                after.local_list_state == before.local_list_state
            }
        },
    }
}

/// Whether `after` is `before` with the selection of the active pane moved by
/// one, up or down.
pub open spec fn after_move(before: App, after: App, up: bool) -> bool {
    let len = before.active_groups().len();
    if len == 0 {
        after == before
    } else {
        &&& selects(
            after.active_selection(),
            if up {
                index_above(before.active_selection(), len)
            } else {
                index_below(before.active_selection(), len)
            },
        )
        &&& match before.active_pane {
            Pane::Local => after == (App {
                local_list_state: after.local_list_state,
                ..before
            }),
            Pane::Remote => after == (App {
                remote_list_state: after.remote_list_state,
                ..before
            }),
        }
    }
}

/// Whether `after` is `before` with a confirmation asked for: of a removal in
/// the local pane, of an installation in the remote pane.
pub open spec fn after_request(before: App, after: App, removal: bool) -> bool {
    let right_pane = match before.active_pane {
        Pane::Local => removal,
        Pane::Remote => !removal,
    };
    match before.selected_name() {
        Some(name) => if right_pane {
            &&& after == (App { mode: after.mode, ..before })
            &&& if removal {
                after.mode matches AppMode::ConfirmDelete(pending) && pending@ == name@
            } else {
                after.mode matches AppMode::ConfirmInstall(pending) && pending@ == name@
            }
        } else {
            after == before
        },
        None => after == before,
    }
}

fn handle_normal_mode(app: &mut App, key: Key) -> (event: Option<AppEvent>)
    ensures
        after_normal_key(*old(app), key, *final(app), event),
{
    match key {
        Key::Char('q') => Some(AppEvent::Quit),
        Key::Tab => {
            app.switch_pane();
            None
        },
        Key::Up => {
            app.navigate_up();
            None
        },
        Key::Down => {
            app.navigate_down();
            None
        },
        Key::Delete => {
            app.handle_delete();
            None
        },
        Key::Char(' ') => {
            app.handle_space();
            None
        },
        _ => None,
    }
}

fn handle_confirm_delete(app: &mut App, key: Key, group_name: String) -> (event: Option<AppEvent>)
    ensures
        after_confirm_key(*old(app), key, *final(app), event, group_name@, true),
{
    match key {
        Key::Char('y') | Key::Char('Y') => Some(AppEvent::Delete(group_name)),
        Key::Char('n') | Key::Char('N') | Key::Esc => {
            app.cancel_confirmation();
            None
        },
        _ => None,
    }
}

fn handle_confirm_install(app: &mut App, key: Key, group_name: String) -> (event: Option<AppEvent>)
    ensures
        after_confirm_key(*old(app), key, *final(app), event, group_name@, false),
{
    match key {
        Key::Char('y') | Key::Char('Y') => Some(AppEvent::Install(group_name)),
        Key::Char('n') | Key::Char('N') | Key::Esc => {
            app.cancel_confirmation();
            None
        },
        _ => None,
    }
}

} // verus!
