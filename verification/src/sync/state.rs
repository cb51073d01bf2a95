//! The reconciliation engine: which groups are installed, which are on offer,
//! and what installing or removing one does to the local store.
//!
//! The engine neither asks the remote nor writes files. Its caller asks the
//! remote and hands in the answer; where the store changed, the engine hands
//! back the path that the document is to be written to.

use crate::error::TeleportError;
use crate::manager::group_names;
use crate::manager::has_group;
use crate::manager::lemma_position_of;
use crate::manager::position_of;
use crate::manager::TeleportManager;
use crate::types::group_views;
use crate::types::TeleportConfig;
use crate::types::TeleportGroup;
use vstd::prelude::*;

verus! {

/// How a group name stands between the local store and the remote.
#[derive(Debug, Clone, PartialEq)]
pub enum SyncStatus {
    /// Present locally.
    Installed,
    /// Offered by the remote and absent locally.
    Available,
}

/// A group name with its status.
#[derive(Debug, Clone)]
pub struct GroupSyncState {
    pub name: String,
    pub status: SyncStatus,
}

impl View for GroupSyncState {
    type V = (Seq<char>, SyncStatus);

    open spec fn view(&self) -> (Seq<char>, SyncStatus) {
        (self.name@, self.status)
    }
}

/// What each of `states` says, in order.
pub open spec fn state_views(states: Seq<GroupSyncState>) -> Seq<(Seq<char>, SyncStatus)> {
    states.map_values(|s: GroupSyncState| s@)
}

/// `names` without repetitions: each name where it first stands.
pub open spec fn distinct(names: Seq<Seq<char>>) -> Seq<Seq<char>>
    decreases names.len(),
{
    if names.len() == 0 {
        Seq::empty()
    } else {
        let before = distinct(names.drop_last());
        if before.contains(names.last()) {
            before
        } else {
            before.push(names.last())
        }
    }
}

/// The names in `remote` that are not in `local`, in the order of `remote`.
pub open spec fn available_names(local: Seq<Seq<char>>, remote: Seq<Seq<char>>) -> Seq<Seq<char>> {
    remote.filter(|name: Seq<char>| !local.contains(name))
}

/// The reconciliation of `local` with `remote`: every local name once, as
/// installed, then every remote name that is not local, as available.
pub open spec fn sync_states(local: Seq<Seq<char>>, remote: Seq<Seq<char>>) -> Seq<
    (Seq<char>, SyncStatus),
> {
    distinct(local).map_values(|name: Seq<char>| (name, SyncStatus::Installed))
        + available_names(local, remote).map_values(|name: Seq<char>| (name, SyncStatus::Available))
}

/// The names that `states` are about, in order.
pub open spec fn state_names(states: Seq<(Seq<char>, SyncStatus)>) -> Seq<Seq<char>> {
    states.map_values(|s: (Seq<char>, SyncStatus)| s.0)
}

/// Whether `states` sorts the names of `local` and `remote` into installed
/// and available: a name is installed exactly if it is local, available
/// exactly if it is remote and not local, and, where the remote lists no name
/// twice, no name stands twice.
pub open spec fn is_partition(
    states: Seq<(Seq<char>, SyncStatus)>,
    local: Seq<Seq<char>>,
    remote: Seq<Seq<char>>,
) -> bool {
    &&& forall|name: Seq<char>| #[trigger]
        states.contains((name, SyncStatus::Installed)) <==> local.contains(name)
    &&& forall|name: Seq<char>| #[trigger]
        states.contains((name, SyncStatus::Available)) <==> remote.contains(name)
            && !local.contains(name)
    &&& remote.no_duplicates() ==> state_names(states).no_duplicates()
}

/// The path that a store which came from `file_path` is written to, or the
/// failure when it came from none.
pub open spec fn persist_target(file_path: Option<String>) -> Result<String, TeleportError> {
    match file_path {
        Some(path) => Ok(path),
        None => Err(TeleportError::NoAssociatedPath),
    }
}

/// Whether `after` differs from `before` in its groups at most.
pub open spec fn only_groups_differ(before: TeleportManager, after: TeleportManager) -> bool {
    &&& after.file_path() == before.file_path()
    &&& after.config() == (TeleportConfig {
        teleport_groups: after.config().teleport_groups,
        ..before.config()
    })
}

/// Combines the local store with what the caller learns from the remote.
pub struct SyncStateManager {
    local_manager: TeleportManager,
}

impl SyncStateManager {
    /// The local store.
    pub closed spec fn local(&self) -> TeleportManager {
        self.local_manager
    }

    /// The names of the local groups, in order.
    pub open spec fn local_names(&self) -> Seq<Seq<char>> {
        group_names(self.local().groups())
    }

    /// An engine over `local_manager`.
    pub fn new(local_manager: TeleportManager) -> (engine: Self)
        ensures
            engine.local() == local_manager,
    {
        Self { local_manager }
    }

    /// The local store, as the caller needs it to write the document.
    pub fn local_manager(&self) -> (manager: &TeleportManager)
        ensures
            *manager == self.local(),
    {
        &self.local_manager
    }

    /// A copy of every local group, in order.
    pub fn get_local_groups(&self) -> (groups: Vec<TeleportGroup>)
        ensures
            group_views(groups@) == group_views(self.local().groups()),
    {
        let groups = self.local_manager.get_all_groups();
        let mut copies: Vec<TeleportGroup> = Vec::new();
        let mut i: usize = 0;
        while i < groups.len()
            invariant
                i <= groups.len(),
                copies.len() == i,
                forall|j: int| 0 <= j < i ==> copies[j]@ == groups[j]@,
            decreases groups.len() - i,
        {
            copies.push(groups[i].clone());
            i += 1;
        }
        assert(group_views(copies@) =~= group_views(groups@));
        copies
    }

    /// The status of every name that is local or in `remote`, the answer of
    /// the remote to a listing request. A failed listing is handed on.
    pub fn compute_sync_states(&self, remote: Result<Vec<String>, TeleportError>) -> (outcome:
        Result<Vec<GroupSyncState>, TeleportError>)
        ensures
            match remote {
                Ok(names) => {
                    &&& outcome matches Ok(states)
                    &&& state_views(states@) == sync_states(self.local_names(), names.deep_view())
                    &&& is_partition(state_views(states@), self.local_names(), names.deep_view())
                },
                Err(e) => outcome == Err::<Vec<GroupSyncState>, TeleportError>(e),
            },
    {
        match remote {
            Ok(names) => {
                proof {
                    lemma_sync_states_partition(self.local_names(), names.deep_view());
                }
                Ok(reconcile(self.local_manager.get_all_groups(), &names))
            },
            Err(e) => Err(e),
        }
    }

    /// Installs the group that the remote gave for a fetch request, and says
    /// where the document is to be written. A failed fetch is handed on and a
    /// group whose name is already local is refused; neither changes the
    /// store. Once the group is in, it stays in, also where there is no path
    /// to write to.
    pub fn sync_group(&mut self, fetched: Result<TeleportGroup, TeleportError>) -> (outcome: Result<
        String,
        TeleportError,
    >)
        ensures
            match fetched {
                Err(e) => outcome == Err::<String, TeleportError>(e) && *final(self) == *old(self),
                Ok(group) => if has_group(old(self).local().groups(), group.name@) {
                    &&& outcome == Err::<String, TeleportError>(
                        TeleportError::GroupAlreadyExists(group.name),
                    )
                    &&& *final(self) == *old(self)
                } else {
                    &&& outcome == persist_target(old(self).local().file_path())
                    &&& final(self).local().groups() == old(self).local().groups().push(group)
                    &&& only_groups_differ(old(self).local(), final(self).local())
                },
            },
            old(self).local().well_formed() ==> final(self).local().well_formed(),
    {
        let group = match fetched {
            Ok(group) => group,
            Err(e) => { return Err(e); },
        };
        match self.local_manager.add_group(group) {
            Ok(()) => self.local_manager.original_path(),
            Err(e) => Err(e),
        }
    }

    /// Removes the first local group called `name`, and says where the
    /// document is to be written. Once the group is out, it stays out, also
    /// where there is no path to write to.
    pub fn remove_local_group(&mut self, name: &str) -> (outcome: Result<String, TeleportError>)
        ensures
            match position_of(old(self).local().groups(), name@) {
                Some(i) => {
                    &&& outcome == persist_target(old(self).local().file_path())
                    &&& final(self).local().groups() == old(self).local().groups().remove(i)
                    &&& only_groups_differ(old(self).local(), final(self).local())
                },
                None => {
                    &&& outcome matches Err(TeleportError::GroupNotFound(missing))
                    &&& missing@ == name@
                    &&& *final(self) == *old(self)
                },
            },
            !has_group(old(self).local().groups(), name@) ==> *final(self) == *old(self),
            old(self).local().well_formed() ==> final(self).local().well_formed(),
    {
        proof {
            lemma_position_of(self.local().groups(), name@);
        }
        match self.local_manager.remove_group(name) {
            Ok(_) => self.local_manager.original_path(),
            Err(e) => Err(e),
        }
    }
}

/// Whether one of `states` is about `name`.
fn mentions(states: &Vec<GroupSyncState>, name: &String) -> (found: bool)
    ensures
        found == state_views(states@).map_values(|s: (Seq<char>, SyncStatus)| s.0).contains(name@),
{
    let ghost names = state_views(states@).map_values(|s: (Seq<char>, SyncStatus)| s.0);
    let mut i: usize = 0;
    while i < states.len()
        invariant
            i <= states.len(),
            names == state_views(states@).map_values(|s: (Seq<char>, SyncStatus)| s.0),
            forall|j: int| 0 <= j < i ==> names[j] != name@,
        decreases states.len() - i,
    {
        if states[i].name == *name {
            assert(names[i as int] == name@);
            return true;
        }
        i += 1;
    }
    false
}

/// Whether one of `groups` is called `name`.
fn is_local(groups: &[TeleportGroup], name: &String) -> (found: bool)
    ensures
        found == group_names(groups@).contains(name@),
{
    let mut i: usize = 0;
    while i < groups.len()
        invariant
            i <= groups.len(),
            forall|j: int| 0 <= j < i ==> group_names(groups@)[j] != name@,
        decreases groups.len() - i,
    {
        if groups[i].name == *name {
            assert(group_names(groups@)[i as int] == name@);
            return true;
        }
        i += 1;
    }
    false
}

/// How `distinct` grows with the last name.
pub proof fn lemma_distinct_step(names: Seq<Seq<char>>)
    requires
        names.len() > 0,
    ensures
        distinct(names) == if distinct(names.drop_last()).contains(names.last()) {
            distinct(names.drop_last())
        } else {
            distinct(names.drop_last()).push(names.last())
        },
{
}

/// How the available names grow with the last remote name.
pub proof fn lemma_available_step(local: Seq<Seq<char>>, remote: Seq<Seq<char>>)
    requires
        remote.len() > 0,
    ensures
        available_names(local, remote) == if local.contains(remote.last()) {
            available_names(local, remote.drop_last())
        } else {
            available_names(local, remote.drop_last()).push(remote.last())
        },
{
    reveal(Seq::filter);
}

/// `distinct` keeps every name and keeps none twice.
pub proof fn lemma_distinct(names: Seq<Seq<char>>)
    ensures
        distinct(names).no_duplicates(),
        forall|name: Seq<char>| #[trigger] distinct(names).contains(name) <==> names.contains(name),
    decreases names.len(),
{
    if names.len() > 0 {
        let rest = names.drop_last();
        let last = names.last();
        lemma_distinct(rest);
        assert forall|name: Seq<char>| #[trigger]
            distinct(names).contains(name) <==> names.contains(name) by {
            if names.contains(name) {
                let i = choose|i: int| 0 <= i < names.len() && names[i] == name;
                if i < names.len() - 1 {
                    assert(rest[i] == name);
                    assert(distinct(rest).contains(name));
                    let j = choose|j: int| 0 <= j < distinct(rest).len() && distinct(rest)[j] == name;
                    assert(distinct(names)[j] == name);
                } else if !distinct(rest).contains(last) {
                    assert(distinct(names)[distinct(rest).len() as int] == name);
                }
            }
            if distinct(names).contains(name) {
                let j = choose|j: int| 0 <= j < distinct(names).len() && distinct(names)[j] == name;
                if j < distinct(rest).len() {
                    assert(distinct(rest)[j] == name);
                    assert(distinct(rest).contains(name));
                    assert(rest.contains(name));
                    let i = choose|i: int| 0 <= i < rest.len() && rest[i] == name;
                    assert(names[i] == name);
                } else {
                    assert(names[names.len() - 1] == name);
                }
            }
        }
    }
}

/// The available names are the remote names that are not local; where the
/// remote lists no name twice, neither do they.
pub proof fn lemma_available(local: Seq<Seq<char>>, remote: Seq<Seq<char>>)
    ensures
        forall|name: Seq<char>| #[trigger]
            available_names(local, remote).contains(name) <==> remote.contains(name)
                && !local.contains(name),
        remote.no_duplicates() ==> available_names(local, remote).no_duplicates(),
    decreases remote.len(),
{
    reveal(Seq::filter);
    if remote.len() > 0 {
        let rest = remote.drop_last();
        let last = remote.last();
        let kept = available_names(local, rest);
        let all = available_names(local, remote);
        lemma_available(local, rest);
        lemma_available_step(local, remote);
        assert forall|name: Seq<char>| #[trigger]
            all.contains(name) <==> remote.contains(name) && !local.contains(name) by {
            if remote.contains(name) && !local.contains(name) {
                let i = choose|i: int| 0 <= i < remote.len() && remote[i] == name;
                if i < remote.len() - 1 {
                    assert(rest[i] == name);
                    assert(kept.contains(name));
                    let j = choose|j: int| 0 <= j < kept.len() && kept[j] == name;
                    assert(all[j] == name);
                } else {
                    assert(all[kept.len() as int] == name);
                }
            }
            if all.contains(name) {
                let j = choose|j: int| 0 <= j < all.len() && all[j] == name;
                if j < kept.len() {
                    assert(kept[j] == name);
                    assert(kept.contains(name));
                    assert(rest.contains(name));
                    let i = choose|i: int| 0 <= i < rest.len() && rest[i] == name;
                    assert(remote[i] == name);
                } else {
                    assert(remote[remote.len() - 1] == name);
                }
            }
        }
        if remote.no_duplicates() {
            assert(rest.no_duplicates());
            if !local.contains(last) {
                assert forall|i: int| 0 <= i < kept.len() implies kept[i] != last by {
                    if kept[i] == last {
                        assert(kept.contains(last));
                        let k = choose|k: int| 0 <= k < rest.len() && rest[k] == last;
                        assert(remote[k] == remote[remote.len() - 1]);
                    }
                }
            }
        }
    }
}

/// The reconciliation sorts every name that is local or remote into exactly
/// one of installed and available, leaves out every other name, and, where
/// the remote lists no name twice, names nothing twice.
pub proof fn lemma_sync_states_partition(local: Seq<Seq<char>>, remote: Seq<Seq<char>>)
    ensures
        is_partition(sync_states(local, remote), local, remote),
{
    let installed = distinct(local).map_values(|name: Seq<char>| (name, SyncStatus::Installed));
    let offered = available_names(local, remote).map_values(
        |name: Seq<char>| (name, SyncStatus::Available),
    );
    let states = sync_states(local, remote);
    lemma_distinct(local);
    lemma_available(local, remote);
    assert forall|name: Seq<char>| #[trigger]
        states.contains((name, SyncStatus::Installed)) <==> local.contains(name) by {
        if local.contains(name) {
            assert(distinct(local).contains(name));
            let i = choose|i: int| 0 <= i < distinct(local).len() && distinct(local)[i] == name;
            assert(states[i] == (name, SyncStatus::Installed));
        }
        if states.contains((name, SyncStatus::Installed)) {
            let i = choose|i: int|
                0 <= i < states.len() && states[i] == (name, SyncStatus::Installed);
            if i < installed.len() {
                assert(distinct(local)[i] == name);
                assert(distinct(local).contains(name));
            } else {
                assert(offered[i - installed.len()].1 == SyncStatus::Available);
            }
        }
    }
    assert forall|name: Seq<char>| #[trigger]
        states.contains((name, SyncStatus::Available)) <==> remote.contains(name)
            && !local.contains(name) by {
        if remote.contains(name) && !local.contains(name) {
            let found = available_names(local, remote);
            assert(found.contains(name));
            let i = choose|i: int| 0 <= i < found.len() && found[i] == name;
            assert(states[installed.len() + i] == (name, SyncStatus::Available));
        }
        if states.contains((name, SyncStatus::Available)) {
            let i = choose|i: int|
                0 <= i < states.len() && states[i] == (name, SyncStatus::Available);
            if i < installed.len() {
                assert(installed[i].1 == SyncStatus::Installed);
            } else {
                assert(available_names(local, remote)[i - installed.len()] == name);
                assert(available_names(local, remote).contains(name));
            }
        }
    }
    if remote.no_duplicates() {
        let found = available_names(local, remote);
        assert(state_names(states) =~= distinct(local) + found);
        assert forall|i: int, j: int|
            0 <= i < distinct(local).len() && 0 <= j < found.len() implies distinct(local)[i]
            != found[j] by {
            assert(distinct(local).contains(distinct(local)[i]));
            assert(found.contains(found[j]));
        }
        vstd::seq_lib::lemma_no_dup_in_concat(distinct(local), found);
    }
}

/// A group that was installed is reported as installed, whatever the remote
/// lists.
pub proof fn lemma_installed_after_sync(
    groups: Seq<TeleportGroup>,
    group: TeleportGroup,
    remote: Seq<Seq<char>>,
)
    ensures
        sync_states(group_names(groups.push(group)), remote).contains(
            (group.name@, SyncStatus::Installed),
        ),
        !sync_states(group_names(groups.push(group)), remote).contains(
            (group.name@, SyncStatus::Available),
        ),
{
    let local = group_names(groups.push(group));
    lemma_sync_states_partition(local, remote);
    assert(local[groups.len() as int] == group.name@);
    assert(local.contains(group.name@));
}

/// A group that was removed from a store without repeated names is no longer
/// reported as installed; it is reported as available exactly if the remote
/// lists it.
pub proof fn lemma_available_after_removal(
    groups: Seq<TeleportGroup>,
    name: Seq<char>,
    i: int,
    remote: Seq<Seq<char>>,
)
    requires
        crate::manager::names_unique(groups),
        position_of(groups, name) == Some(i),
    ensures
        !sync_states(group_names(groups.remove(i)), remote).contains(
            (name, SyncStatus::Installed),
        ),
        sync_states(group_names(groups.remove(i)), remote).contains((name, SyncStatus::Available))
            <==> remote.contains(name),
{
    let before = group_names(groups);
    let after = group_names(groups.remove(i));
    lemma_position_of(groups, name);
    lemma_sync_states_partition(after, remote);
    assert(after =~= before.remove(i));
    if after.contains(name) {
        let j = choose|j: int| 0 <= j < after.len() && after[j] == name;
        let jj = if j < i { j } else { j + 1 };
        assert(before[jj] == name);
        assert(before[i] == name);
    }
}

/// The status of every name in `groups` or in `remote`.
pub fn reconcile(groups: &[TeleportGroup], remote: &Vec<String>) -> (states: Vec<GroupSyncState>)
    ensures
        state_views(states@) == sync_states(group_names(groups@), remote.deep_view()),
{
    let ghost local = group_names(groups@);
    let ghost offered = remote.deep_view();
    let mut states: Vec<GroupSyncState> = Vec::new();
    let mut i: usize = 0;
    proof {
        assert(local.take(0) =~= Seq::<Seq<char>>::empty());
        assert(state_views(states@) =~= distinct(local.take(0)).map_values(
            |name: Seq<char>| (name, SyncStatus::Installed),
        ));
    }
    while i < groups.len()
        invariant
            i <= groups.len(),
            local == group_names(groups@),
            state_views(states@) == distinct(local.take(i as int)).map_values(
                |name: Seq<char>| (name, SyncStatus::Installed),
            ),
        decreases groups.len() - i,
    {
        let ghost seen = distinct(local.take(i as int));
        let ghost before = state_views(states@);
        proof {
            assert(local.take(i + 1).drop_last() =~= local.take(i as int));
            assert(local.take(i + 1).last() == groups[i as int].name@);
            lemma_distinct_step(local.take(i + 1));
            assert(before.map_values(|s: (Seq<char>, SyncStatus)| s.0) =~= seen);
        }
        if !mentions(&states, &groups[i].name) {
            states.push(
                GroupSyncState { name: groups[i].name.clone(), status: SyncStatus::Installed },
            );
            proof {
                assert(state_views(states@) =~= before.push(
                    (groups[i as int].name@, SyncStatus::Installed),
                ));
                assert(state_views(states@) =~= distinct(local.take(i + 1)).map_values(
                    |name: Seq<char>| (name, SyncStatus::Installed),
                ));
            }
        }
        i += 1;
    }
    let mut j: usize = 0;
    proof {
        reveal(Seq::filter);
        assert(local.take(groups.len() as int) =~= local);
        assert(offered.take(0) =~= Seq::<Seq<char>>::empty());
        assert(state_views(states@) =~= sync_states(local, offered.take(0)));
    }
    while j < remote.len()
        invariant
            j <= remote.len(),
            local == group_names(groups@),
            offered == remote.deep_view(),
            state_views(states@) == sync_states(local, offered.take(j as int)),
        decreases remote.len() - j,
    {
        let ghost before = state_views(states@);
        proof {
            assert(offered.take(j + 1).drop_last() =~= offered.take(j as int));
            assert(offered.take(j + 1).last() == remote[j as int]@);
            lemma_available_step(local, offered.take(j + 1));
        }
        if !is_local(groups, &remote[j]) {
            states.push(GroupSyncState { name: remote[j].clone(), status: SyncStatus::Available });
            proof {
                assert(state_views(states@) =~= before.push(
                    (remote[j as int]@, SyncStatus::Available),
                ));
                assert(state_views(states@) =~= sync_states(local, offered.take(j + 1)));
            }
        }
        j += 1;
    }
    proof {
        assert(offered.take(remote.len() as int) =~= offered);
    }
    states
}

} // verus!
