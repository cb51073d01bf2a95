//! The state of the interface: two lists of group names, a selection in each,
//! and a confirmation that may be pending.
//!
//! The interface neither asks the remote nor writes files. Where the user
//! confirms an installation or a removal, the caller carries it out and
//! reports how it went.

use crate::error::TeleportError;
use crate::sync::state::available_names;
use crate::sync::state::distinct;
use crate::sync::state::state_views;
use crate::sync::state::sync_states;
use crate::sync::state::GroupSyncState;
use crate::sync::state::SyncStateManager;
use crate::sync::state::SyncStatus;
use crate::types::group_views;
use crate::types::TeleportGroup;
use crate::types::TeleportGroupView;
use ratatui::widgets::ListState;
use vstd::prelude::*;
use vstd::string::*;

verus! {

/// `ratatui::widgets::ListState`: the state of a list on screen, carried
/// through to the code that draws it.
#[verifier::external_type_specification]
#[verifier::external_body]
pub struct ExListState(ListState);

/// The index that a list state has selected, if it has one.
pub uninterp spec fn selection(state: ListState) -> Option<usize>;

/// `<ListState as Default>::default`. Trusted: a fresh list state has nothing
/// selected.
pub assume_specification[ <ListState as Default>::default ]() -> (state: ListState)
    ensures
        selection(state) is None,
;

/// `ListState::selected`. Trusted: it gives the selected index.
pub assume_specification[ ListState::selected ](state: &ListState) -> (index: Option<usize>)
    ensures
        index == selection(*state),
;

/// `ListState::select`. Trusted: afterwards `index` is what is selected.
pub assume_specification[ ListState::select ](state: &mut ListState, index: Option<usize>)
    ensures
        selection(*final(state)) == index,
;

/// The two lists of the interface.
#[derive(Debug, Clone, PartialEq)]
pub enum Pane {
    Local,
    Remote,
}

/// What the interface is waiting for.
#[derive(Debug, Clone)]
pub enum AppMode {
    Normal,
    ConfirmDelete(String),
    ConfirmInstall(String),
}

/// The state of the interface.
pub struct App {
    pub sync_manager: SyncStateManager,
    pub active_pane: Pane,
    pub mode: AppMode,
    pub local_list_state: ListState,
    pub remote_list_state: ListState,
    pub local_groups: Vec<String>,
    pub remote_groups: Vec<String>,
    pub status_message: Option<String>,
    pub is_loading: bool,
}

/// The index that moving up selects in a list of `len` entries.
pub open spec fn index_above(selected: Option<usize>, len: nat) -> int {
    match selected {
        Some(i) => if i == 0 {
            len - 1
        } else {
            i - 1
        },
        None => 0,
    }
}

/// The index that moving down selects in a list of `len` entries.
pub open spec fn index_below(selected: Option<usize>, len: nat) -> int {
    match selected {
        Some(i) => if i >= len - 1 {
            0
        } else {
            i + 1
        },
        None => 0,
    }
}

/// Whether `selected` is the index `index`.
pub open spec fn selects(selected: Option<usize>, index: int) -> bool {
    match selected {
        Some(i) => i == index,
        None => false,
    }
}

/// The message after a removal that went well.
pub open spec fn deleted_text(name: Seq<char>) -> Seq<char> {
    "✓ Deleted '"@ + name + "'"@
}

/// The message after an installation that went well.
pub open spec fn installed_text(name: Seq<char>) -> Seq<char> {
    "✓ Installed '"@ + name + "'"@
}

/// Whether `text` is the message for the failure `error`.
pub open spec fn is_failure_text(error: TeleportError, text: Seq<char>) -> bool {
    exists|message: String| #[trigger]
        error.has_message(message) && text == "✗ Error: "@ + message@
}

/// The hint shown while nothing else is to be said.
pub open spec fn help_text() -> Seq<char> {
    "TAB: Switch pane | ↑↓: Navigate | SPACE: Install | DEL: Remove | q: Quit"@
}

/// The names in `states` that are available, in order.
pub open spec fn available_in(states: Seq<(Seq<char>, SyncStatus)>) -> Seq<Seq<char>> {
    states.filter(|s: (Seq<char>, SyncStatus)| s.1 == SyncStatus::Available).map_values(
        |s: (Seq<char>, SyncStatus)| s.0,
    )
}

/// How `available_in` grows with the last state.
pub proof fn lemma_available_in_step(states: Seq<(Seq<char>, SyncStatus)>)
    requires
        states.len() > 0,
    ensures
        available_in(states) == if states.last().1 == SyncStatus::Available {
            available_in(states.drop_last()).push(states.last().0)
        } else {
            available_in(states.drop_last())
        },
{
    reveal(Seq::filter);
    let kept = states.drop_last().filter(
        |s: (Seq<char>, SyncStatus)| s.1 == SyncStatus::Available,
    );
    if states.last().1 == SyncStatus::Available {
        assert(states.filter(|s: (Seq<char>, SyncStatus)| s.1 == SyncStatus::Available)
            == kept.push(states.last()));
        assert(available_in(states) =~= available_in(states.drop_last()).push(states.last().0));
    } else {
        assert(states.filter(|s: (Seq<char>, SyncStatus)| s.1 == SyncStatus::Available) == kept);
    }
}

/// Among the states of a reconciliation, the available ones are the remote
/// names that are not local.
pub proof fn lemma_available_in_sync_states(local: Seq<Seq<char>>, remote: Seq<Seq<char>>)
    ensures
        available_in(sync_states(local, remote)) == available_names(local, remote),
{
    let installed = distinct(local).map_values(
        |name: Seq<char>| (name, SyncStatus::Installed),
    );
    let offered = available_names(local, remote).map_values(
        |name: Seq<char>| (name, SyncStatus::Available),
    );
    lemma_available_in_prefix(installed, offered, offered.len() as int);
    assert(offered.take(offered.len() as int) =~= offered);
    assert(available_in(installed + offered) =~= available_names(local, remote)) by {
        lemma_none_available(installed, installed.len() as int);
        assert(installed.take(installed.len() as int) =~= installed);
    }
}

/// Installed states hold no available name.
proof fn lemma_none_available(installed: Seq<(Seq<char>, SyncStatus)>, n: int)
    requires
        0 <= n <= installed.len(),
        forall|i: int| 0 <= i < installed.len() ==> installed[i].1 == SyncStatus::Installed,
    ensures
        available_in(installed.take(n)) == Seq::<Seq<char>>::empty(),
    decreases n,
{
    reveal(Seq::filter);
    if n == 0 {
        assert(installed.take(0) =~= Seq::<(Seq<char>, SyncStatus)>::empty());
    } else {
        lemma_none_available(installed, n - 1);
        assert(installed.take(n).drop_last() =~= installed.take(n - 1));
        lemma_available_in_step(installed.take(n));
    }
}

/// After installed states, available states give their names in order.
proof fn lemma_available_in_prefix(
    installed: Seq<(Seq<char>, SyncStatus)>,
    offered: Seq<(Seq<char>, SyncStatus)>,
    n: int,
)
    requires
        0 <= n <= offered.len(),
        forall|i: int| 0 <= i < installed.len() ==> installed[i].1 == SyncStatus::Installed,
        forall|i: int| 0 <= i < offered.len() ==> offered[i].1 == SyncStatus::Available,
    ensures
        available_in(installed + offered.take(n)) == offered.take(n).map_values(
            |s: (Seq<char>, SyncStatus)| s.0,
        ),
    decreases n,
{
    if n == 0 {
        lemma_none_available(installed, installed.len() as int);
        assert(installed.take(installed.len() as int) =~= installed);
        assert(installed + offered.take(0) =~= installed);
        assert(offered.take(0).map_values(|s: (Seq<char>, SyncStatus)| s.0) =~= Seq::<
            Seq<char>,
        >::empty());
    } else {
        lemma_available_in_prefix(installed, offered, n - 1);
        let all = installed + offered.take(n);
        assert(all.drop_last() =~= installed + offered.take(n - 1));
        assert(all.last() == offered[n - 1]);
        lemma_available_in_step(all);
        assert(offered.take(n).map_values(|s: (Seq<char>, SyncStatus)| s.0) =~= offered.take(
            n - 1,
        ).map_values(|s: (Seq<char>, SyncStatus)| s.0).push(offered[n - 1].0));
    }
}

impl App {
    /// The list state of the active pane.
    pub open spec fn active_selection(&self) -> Option<usize> {
        match self.active_pane {
            Pane::Local => selection(self.local_list_state),
            Pane::Remote => selection(self.remote_list_state),
        }
    }

    /// The names shown in the active pane.
    pub open spec fn active_groups(&self) -> Seq<String> {
        match self.active_pane {
            Pane::Local => self.local_groups@,
            Pane::Remote => self.remote_groups@,
        }
    }

    /// The name that is selected in the active pane, if one is.
    pub open spec fn selected_name(&self) -> Option<String> {
        match self.active_selection() {
            Some(i) => if i < self.active_groups().len() {
                Some(self.active_groups()[i as int])
            } else {
                None
            },
            None => None,
        }
    }

    /// Whether `self` is `before` with the lists brought up to date: the local
    /// names as the store has them and, where the listing `remote` came, the
    /// remote names that are not local. Where the listing failed, the remote
    /// names stay and the interface goes on loading.
    pub open spec fn is_refresh_of(&self, before: App, remote: Result<Vec<String>, TeleportError>) -> bool {
        &&& *self == (App {
            local_groups: self.local_groups,
            remote_groups: self.remote_groups,
            is_loading: self.is_loading,
            ..before
        })
        &&& self.local_groups.deep_view() == before.sync_manager.local_names()
        &&& match remote {
            Ok(names) => {
                &&& !self.is_loading
                &&& self.remote_groups.deep_view() == available_names(
                    before.sync_manager.local_names(),
                    names.deep_view(),
                )
            },
            Err(_) => self.is_loading && self.remote_groups == before.remote_groups,
        }
    }

    /// The interface over `sync_manager`, brought up to date with the listing
    /// `remote`, with the first local group selected if there is one.
    pub fn new(sync_manager: SyncStateManager, remote: Result<Vec<String>, TeleportError>) -> (outcome:
        Result<Self, TeleportError>)
        ensures
            match remote {
                Ok(names) => {
                    &&& outcome matches Ok(app)
                    &&& app.sync_manager == sync_manager
                    &&& app.active_pane == Pane::Local
                    &&& app.mode == AppMode::Normal
                    &&& app.status_message is None
                    &&& !app.is_loading
                    &&& app.local_groups.deep_view() == sync_manager.local_names()
                    &&& app.remote_groups.deep_view() == available_names(
                        sync_manager.local_names(),
                        names.deep_view(),
                    )
                    &&& selection(app.local_list_state) == if app.local_groups@.len() > 0 {
                        Some(0usize)
                    } else {
                        None
                    }
                    &&& selection(app.remote_list_state) is None
                },
                Err(e) => outcome matches Err(failure) && failure == e,
            },
    {
        let mut app = Self {
            sync_manager,
            active_pane: Pane::Local,
            mode: AppMode::Normal,
            local_list_state: ListState::default(),
            remote_list_state: ListState::default(),
            local_groups: Vec::new(),
            remote_groups: Vec::new(),
            status_message: None,
            is_loading: false,
        };
        match app.refresh_data(remote) {
            Ok(()) => {},
            Err(e) => { return Err(e); },
        }
        if app.local_groups.len() > 0 {
            app.local_list_state.select(Some(0));
        }
        Ok(app)
    }

    /// Brings the two lists up to date with the store and with the listing
    /// `remote`. A failed listing is handed on.
    pub fn refresh_data(&mut self, remote: Result<Vec<String>, TeleportError>) -> (outcome: Result<
        (),
        TeleportError,
    >)
        ensures
            final(self).is_refresh_of(*old(self), remote),
            match remote {
                Ok(_) => outcome is Ok,
                Err(e) => outcome == Err::<(), TeleportError>(e),
            },
    {
        self.is_loading = true;
        let local = self.sync_manager.get_local_groups();
        self.local_groups = names_of(&local);
        let ghost listing = remote;
        proof {
            let stored = self.sync_manager.local().groups();
            assert(group_views(local@).len() == local@.len());
            assert(group_views(stored).len() == stored.len());
            assert forall|j: int| 0 <= j < stored.len() implies local@[j].name@
                == stored[j].name@ by {
                assert(group_views(local@)[j] == local@[j]@);
                assert(group_views(stored)[j] == stored[j]@);
            }
            assert(self.local_groups.deep_view() =~= self.sync_manager.local_names());
        }
        let states = match self.sync_manager.compute_sync_states(remote) {
            Ok(states) => states,
            Err(e) => { return Err(e); },
        };
        proof {
            if let Ok(names) = listing {
                lemma_available_in_sync_states(
                    self.sync_manager.local_names(),
                    names.deep_view(),
                );
            }
        }
        self.remote_groups = available_of(states);
        self.is_loading = false;
        Ok(())
    }

    /// The name that is selected in the active pane, if one is.
    pub fn selected_group(&self) -> (name: Option<&String>)
        ensures
            match self.selected_name() {
                Some(selected) => name == Some(&selected),
                None => name is None,
            },
    {
        match self.active_pane {
            Pane::Local => match self.local_list_state.selected() {
                Some(i) => if i < self.local_groups.len() {
                    Some(&self.local_groups[i])
                } else {
                    None
                },
                None => None,
            },
            Pane::Remote => match self.remote_list_state.selected() {
                Some(i) => if i < self.remote_groups.len() {
                    Some(&self.remote_groups[i])
                } else {
                    None
                },
                None => None,
            },
        }
    }

    /// Makes the other pane the active one, and selects its first entry if it
    /// has entries and none is selected.
    pub fn switch_pane(&mut self)
        ensures
            match old(self).active_pane {
                Pane::Local => {
                    &&& *final(self) == (App {
                        active_pane: Pane::Remote,
                        remote_list_state: final(self).remote_list_state,
                        ..*old(self)
                    })
                    &&& if selection(old(self).remote_list_state) is None
                        && old(self).remote_groups@.len() > 0 {
                        selection(final(self).remote_list_state) == Some(0usize)
                    } else {
                        final(self).remote_list_state == old(self).remote_list_state
                    }
                },
                Pane::Remote => {
                    &&& *final(self) == (App {
                        active_pane: Pane::Local,
                        local_list_state: final(self).local_list_state,
                        ..*old(self)
                    })
                    &&& if selection(old(self).local_list_state) is None
                        && old(self).local_groups@.len() > 0 {
                        selection(final(self).local_list_state) == Some(0usize)
                    } else {
                        final(self).local_list_state == old(self).local_list_state
                    }
                },
            },
    {
        match self.active_pane {
            Pane::Local => {
                if self.remote_list_state.selected().is_none() && self.remote_groups.len() > 0 {
                    self.remote_list_state.select(Some(0));
                }
                self.active_pane = Pane::Remote;
            },
            Pane::Remote => {
                if self.local_list_state.selected().is_none() && self.local_groups.len() > 0 {
                    self.local_list_state.select(Some(0));
                }
                self.active_pane = Pane::Local;
            },
        }
    }

    /// Moves the selection of the active pane up by one, from the first entry
    /// to the last. An empty pane stays as it is.
    pub fn navigate_up(&mut self)
        ensures
            old(self).active_groups().len() == 0 ==> *final(self) == *old(self),
            old(self).active_groups().len() > 0 ==> {
                &&& selects(
                    final(self).active_selection(),
                    index_above(old(self).active_selection(), old(self).active_groups().len()),
                )
                &&& match old(self).active_pane {
                    Pane::Local => *final(self) == (App {
                        local_list_state: final(self).local_list_state,
                        ..*old(self)
                    }),
                    Pane::Remote => *final(self) == (App {
                        remote_list_state: final(self).remote_list_state,
                        ..*old(self)
                    }),
                }
            },
    {
        match self.active_pane {
            Pane::Local => {
                let len = self.local_groups.len();
                if len > 0 {
                    let target = step_up(self.local_list_state.selected(), len);
                    self.local_list_state.select(Some(target));
                }
            },
            Pane::Remote => {
                let len = self.remote_groups.len();
                if len > 0 {
                    let target = step_up(self.remote_list_state.selected(), len);
                    self.remote_list_state.select(Some(target));
                }
            },
        }
    }

    /// Moves the selection of the active pane down by one, from the last entry
    /// to the first. An empty pane stays as it is.
    pub fn navigate_down(&mut self)
        ensures
            old(self).active_groups().len() == 0 ==> *final(self) == *old(self),
            old(self).active_groups().len() > 0 ==> {
                &&& selects(
                    final(self).active_selection(),
                    index_below(old(self).active_selection(), old(self).active_groups().len()),
                )
                &&& match old(self).active_pane {
                    Pane::Local => *final(self) == (App {
                        local_list_state: final(self).local_list_state,
                        ..*old(self)
                    }),
                    Pane::Remote => *final(self) == (App {
                        remote_list_state: final(self).remote_list_state,
                        ..*old(self)
                    }),
                }
            },
    {
        match self.active_pane {
            Pane::Local => {
                let len = self.local_groups.len();
                if len > 0 {
                    let target = step_down(self.local_list_state.selected(), len);
                    self.local_list_state.select(Some(target));
                }
            },
            Pane::Remote => {
                let len = self.remote_groups.len();
                if len > 0 {
                    let target = step_down(self.remote_list_state.selected(), len);
                    self.remote_list_state.select(Some(target));
                }
            },
        }
    }

    /// Asks for confirmation to remove the selected local group. Does nothing
    /// in the remote pane or where nothing is selected.
    pub fn handle_delete(&mut self)
        ensures
            match (old(self).active_pane, old(self).selected_name()) {
                (Pane::Local, Some(name)) => {
                    &&& final(self).mode matches AppMode::ConfirmDelete(pending)
                    &&& pending@ == name@
                    &&& *final(self) == (App { mode: final(self).mode, ..*old(self) })
                },
                _ => *final(self) == *old(self),
            },
    {
        if let Pane::Local = self.active_pane {
            let pending = match self.selected_group() {
                Some(name) => Some(name.clone()),
                None => None,
            };
            if let Some(name) = pending {
                self.mode = AppMode::ConfirmDelete(name);
            }
        }
    }

    /// Asks for confirmation to install the selected remote group. Does
    /// nothing in the local pane or where nothing is selected.
    pub fn handle_space(&mut self)
        ensures
            match (old(self).active_pane, old(self).selected_name()) {
                (Pane::Remote, Some(name)) => {
                    &&& final(self).mode matches AppMode::ConfirmInstall(pending)
                    &&& pending@ == name@
                    &&& *final(self) == (App { mode: final(self).mode, ..*old(self) })
                },
                _ => *final(self) == *old(self),
            },
    {
        if let Pane::Remote = self.active_pane {
            let pending = match self.selected_group() {
                Some(name) => Some(name.clone()),
                None => None,
            };
            if let Some(name) = pending {
                self.mode = AppMode::ConfirmInstall(name);
            }
        }
    }

    /// Takes note of how the removal of `group_name` went, leaves the
    /// confirmation, and brings the lists up to date with the listing `remote`.
    pub fn confirm_delete(
        &mut self,
        group_name: String,
        removal: Result<(), TeleportError>,
        remote: Result<Vec<String>, TeleportError>,
    ) -> (outcome: Result<(), TeleportError>)
        ensures
            final(self).is_refresh_of(
                App {
                    status_message: final(self).status_message,
                    mode: AppMode::Normal,
                    ..*old(self)
                },
                remote,
            ),
            final(self).status_message matches Some(text) && match removal {
                Ok(_) => text@ == deleted_text(group_name@),
                Err(e) => is_failure_text(e, text@),
            },
            match remote {
                Ok(_) => outcome is Ok,
                Err(e) => outcome == Err::<(), TeleportError>(e),
            },
    {
        match removal {
            Ok(_) => {
                self.status_message = Some(
                    String::from_str("✓ Deleted '").concat(group_name.as_str()).concat("'"),
                );
            },
            Err(e) => {
                self.status_message = Some(failure_text(&e));
            },
        }
        self.mode = AppMode::Normal;
        self.refresh_data(remote)
    }

    /// Takes note of how the installation of `group_name` went, leaves the
    /// confirmation, and brings the lists up to date with the listing `remote`.
    pub fn confirm_install(
        &mut self,
        group_name: String,
        installation: Result<(), TeleportError>,
        remote: Result<Vec<String>, TeleportError>,
    ) -> (outcome: Result<(), TeleportError>)
        ensures
            final(self).is_refresh_of(
                App {
                    status_message: final(self).status_message,
                    mode: AppMode::Normal,
                    ..*old(self)
                },
                remote,
            ),
            final(self).status_message matches Some(text) && match installation {
                Ok(_) => text@ == installed_text(group_name@),
                Err(e) => is_failure_text(e, text@),
            },
            match remote {
                Ok(_) => outcome is Ok,
                Err(e) => outcome == Err::<(), TeleportError>(e),
            },
    {
        self.is_loading = true;
        match installation {
            Ok(_) => {
                self.status_message = Some(
                    String::from_str("✓ Installed '").concat(group_name.as_str()).concat("'"),
                );
            },
            Err(e) => {
                self.status_message = Some(failure_text(&e));
            },
        }
        self.mode = AppMode::Normal;
        self.refresh_data(remote)
    }

    /// Leaves a pending confirmation.
    pub fn cancel_confirmation(&mut self)
        ensures
            *final(self) == (App { mode: AppMode::Normal, ..*old(self) }),
    {
        self.mode = AppMode::Normal;
    }

    /// The line of the status bar: that the lists are loading, else the last
    /// message, else the hint.
    pub fn status_text(&self) -> (text: String)
        ensures
            text@ == if self.is_loading {
                "Loading..."@
            } else {
                match self.status_message {
                    Some(message) => message@,
                    None => help_text(),
                }
            },
    {
        if self.is_loading {
            String::from_str("Loading...")
        } else {
            match &self.status_message {
                Some(message) => message.clone(),
                None => String::from_str(
                    "TAB: Switch pane | ↑↓: Navigate | SPACE: Install | DEL: Remove | q: Quit",
                ),
            }
        }
    }

    /// The title and the question of the confirmation that is pending, if one
    /// is.
    pub fn confirmation_prompt(&self) -> (prompt: Option<(String, String)>)
        ensures
            match self.mode {
                AppMode::Normal => prompt is None,
                AppMode::ConfirmDelete(name) => {
                    &&& prompt matches Some((title, question))
                    &&& title@ == "Confirm Deletion"@
                    &&& question@ == "Delete '"@ + name@
                        + "'?\n\nPress 'y' to confirm, 'n' to cancel"@
                },
                AppMode::ConfirmInstall(name) => {
                    &&& prompt matches Some((title, question))
                    &&& title@ == "Confirm Installation"@
                    &&& question@ == "Install '"@ + name@
                        + "'?\n\nPress 'y' to confirm, 'n' to cancel"@
                },
            },
    {
        match &self.mode {
            AppMode::Normal => None,
            AppMode::ConfirmDelete(name) => Some(
                (
                    String::from_str("Confirm Deletion"),
                    String::from_str("Delete '").concat(name.as_str()).concat(
                        "'?\n\nPress 'y' to confirm, 'n' to cancel",
                    ),
                ),
            ),
            AppMode::ConfirmInstall(name) => Some(
                (
                    String::from_str("Confirm Installation"),
                    String::from_str("Install '").concat(name.as_str()).concat(
                        "'?\n\nPress 'y' to confirm, 'n' to cancel",
                    ),
                ),
            ),
        }
    }
}

/// The message for the failure `error`.
fn failure_text(error: &TeleportError) -> (text: String)
    ensures
        is_failure_text(*error, text@),
{
    let message = error.to_string();
    String::from_str("✗ Error: ").concat(message.as_str())
}

/// The index that moving up selects in a list of `len` entries.
fn step_up(selected: Option<usize>, len: usize) -> (index: usize)
    requires
        len > 0,
    ensures
        index == index_above(selected, len as nat),
{
    match selected {
        Some(i) => if i == 0 {
            len - 1
        } else {
            i - 1
        },
        None => 0,
    }
}

/// The index that moving down selects in a list of `len` entries.
fn step_down(selected: Option<usize>, len: usize) -> (index: usize)
    requires
        len > 0,
    ensures
        index == index_below(selected, len as nat),
{
    match selected {
        Some(i) => if i >= len - 1 {
            0
        } else {
            i + 1
        },
        None => 0,
    }
}

/// The names of `groups`, in order.
fn names_of(groups: &Vec<TeleportGroup>) -> (names: Vec<String>)
    ensures
        names.deep_view() == group_views(groups@).map_values(
            |g: TeleportGroupView| g.name,
        ),
{
    let mut names: Vec<String> = Vec::new();
    let mut i: usize = 0;
    while i < groups.len()
        invariant
            i <= groups.len(),
            names.len() == i,
            forall|j: int| 0 <= j < i ==> names[j]@ == groups[j].name@,
        decreases groups.len() - i,
    {
        names.push(groups[i].name.clone());
        i += 1;
    }
    assert(names.deep_view() =~= group_views(groups@).map_values(
        |g: TeleportGroupView| g.name,
    ));
    names
}

/// The names in `states` that are available, in order.
fn available_of(states: Vec<GroupSyncState>) -> (names: Vec<String>)
    ensures
        names.deep_view() == available_in(state_views(states@)),
{
    let mut names: Vec<String> = Vec::new();
    let mut i: usize = 0;
    proof {
        reveal(Seq::filter);
        assert(state_views(states@).take(0) =~= Seq::<(Seq<char>, SyncStatus)>::empty());
    }
    while i < states.len()
        invariant
            i <= states.len(),
            names.deep_view() == available_in(state_views(states@).take(i as int)),
        decreases states.len() - i,
    {
        let ghost before = names.deep_view();
        proof {
            let upto = state_views(states@).take(i + 1);
            assert(upto.drop_last() =~= state_views(states@).take(i as int));
            assert(upto.last() == states[i as int]@);
            lemma_available_in_step(upto);
        }
        if let SyncStatus::Available = states[i].status {
            names.push(states[i].name.clone());
            assert(names.deep_view() =~= before.push(states[i as int].name@));
        }
        i += 1;
    }
    assert(state_views(states@).take(states.len() as int) =~= state_views(states@));
    names
}

} // verus!
