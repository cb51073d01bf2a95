//! The local store: the in-memory document and the operations that change it.

use crate::error::TeleportError;
use crate::types::TeleportConfig;
use crate::types::TeleportGroup;
use std::collections::hash_map::DefaultHasher;
use std::hash::Hash;
use std::hash::Hasher;
use vstd::prelude::*;
use vstd::std_specs::hash::DefaultHasherAdditionalSpecFns;
use vstd::string::*;

verus! {

/// The names of `groups`, in order.
pub open spec fn group_names(groups: Seq<TeleportGroup>) -> Seq<Seq<char>> {
    groups.map_values(|g: TeleportGroup| g.name@)
}

/// Whether some group in `groups` is called `name`.
pub open spec fn has_group(groups: Seq<TeleportGroup>, name: Seq<char>) -> bool {
    group_names(groups).contains(name)
}

/// Where the first group called `name` stands in `groups`, if there is one.
pub open spec fn position_of(groups: Seq<TeleportGroup>, name: Seq<char>) -> Option<int> {
    group_names(groups).index_of_first(name)
}

/// Whether no two groups in `groups` share a name.
pub open spec fn names_unique(groups: Seq<TeleportGroup>) -> bool {
    group_names(groups).no_duplicates()
}

/// `position_of` is `Some(i)` exactly for the first index whose group has the
/// name, and `None` exactly when no group has it.
pub proof fn lemma_position_of(groups: Seq<TeleportGroup>, name: Seq<char>)
    ensures
        match position_of(groups, name) {
            Some(i) => {
                &&& 0 <= i < groups.len()
                &&& groups[i].name@ == name
                &&& forall|j: int| 0 <= j < i ==> groups[j].name@ != name
            },
            None => forall|j: int| 0 <= j < groups.len() ==> groups[j].name@ != name,
        },
        has_group(groups, name) <==> position_of(groups, name) is Some,
{
    let names = group_names(groups);
    names.index_of_first_ensures(name);
    match position_of(groups, name) {
        Some(i) => {
            assert forall|j: int| 0 <= j < i implies groups[j].name@ != name by {
                assert(names[j] != name);
            }
        },
        None => {
            assert forall|j: int| 0 <= j < groups.len() implies groups[j].name@ != name by {
                assert(names[j] == groups[j].name@);
            }
        },
    }
}

/// An index whose group has the name, with none before it that has, is the
/// position of the name.
pub proof fn lemma_position_is(groups: Seq<TeleportGroup>, name: Seq<char>, i: int)
    requires
        0 <= i < groups.len(),
        groups[i].name@ == name,
        forall|j: int| 0 <= j < i ==> groups[j].name@ != name,
    ensures
        position_of(groups, name) == Some(i),
{
    lemma_position_of(groups, name);
    assert(group_names(groups)[i] == name);
}

/// Where no group has the name, the name has no position.
pub proof fn lemma_position_none(groups: Seq<TeleportGroup>, name: Seq<char>)
    requires
        forall|j: int| 0 <= j < groups.len() ==> groups[j].name@ != name,
    ensures
        position_of(groups, name) is None,
        !has_group(groups, name),
{
    lemma_position_of(groups, name);
}

/// A group that is added under a name which no group had is then the group
/// found under that name, and its name is taken: adding another group of
/// that name is refused.
pub proof fn lemma_added_group_is_found(groups: Seq<TeleportGroup>, group: TeleportGroup)
    requires
        !has_group(groups, group.name@),
    ensures
        position_of(groups.push(group), group.name@) == Some(groups.len() as int),
        groups.push(group)[groups.len() as int] == group,
        has_group(groups.push(group), group.name@),
{
    lemma_position_of(groups, group.name@);
    lemma_position_is(groups.push(group), group.name@, groups.len() as int);
    lemma_position_of(groups.push(group), group.name@);
}

/// What hashing a piece of text feeds into a hasher: the writes, in order.
pub uninterp spec fn text_writes(text: Seq<char>) -> Seq<Seq<u8>>;

/// The fingerprint of a piece of text: what a fresh default hasher gives
/// after the text was hashed into it.
pub open spec fn text_fingerprint(text: Seq<char>) -> u64 {
    DefaultHasher::spec_finish(text_writes(text))
}

/// Calls `<str as Hash>::hash` on a `DefaultHasher`. Trusted: the writes that
/// reach the hasher depend on the text alone and follow those already made.
#[verifier::external_body]
fn hash_text(hasher: &mut DefaultHasher, text: &str)
    ensures
        final(hasher)@ == old(hasher)@ + text_writes(text@),
{
    text.hash(hasher)
}

/// The fingerprint of `text`.
pub fn fingerprint(text: &str) -> (digest: u64)
    ensures
        digest == text_fingerprint(text@),
{
    let mut hasher = DefaultHasher::new();
    hash_text(&mut hasher, text);
    assert(hasher@ =~= text_writes(text@));
    hasher.finish()
}

/// The index of the first group in `groups` called `name`.
fn find_position(groups: &Vec<TeleportGroup>, name: &String) -> (found: Option<usize>)
    ensures
        match found {
            Some(i) => position_of(groups@, name@) == Some(i as int) && i < groups.len(),
            None => position_of(groups@, name@) is None,
        },
{
    let mut i: usize = 0;
    while i < groups.len()
        invariant
            i <= groups.len(),
            forall|j: int| 0 <= j < i ==> groups[j].name@ != name@,
        decreases groups.len() - i,
    {
        if groups[i].name == *name {
            proof {
                lemma_position_is(groups@, name@, i as int);
            }
            return Some(i);
        }
        i += 1;
    }
    proof {
        lemma_position_none(groups@, name@);
    }
    None
}

/// Owner of the in-memory document and of the path it was read from.
pub struct TeleportManager {
    config: TeleportConfig,
    file_path: Option<String>,
}

impl TeleportManager {
    /// The document held.
    pub closed spec fn config(&self) -> TeleportConfig {
        self.config
    }

    /// The path that the document was read from, if it was read from one.
    pub closed spec fn file_path(&self) -> Option<String> {
        self.file_path
    }

    /// The groups held, in order.
    pub open spec fn groups(&self) -> Seq<TeleportGroup> {
        self.config().teleport_groups@
    }

    /// Whether the groups held have names that differ from each other.
    pub open spec fn well_formed(&self) -> bool {
        names_unique(self.groups())
    }

    /// A manager of an empty document, with no path.
    pub fn new() -> (manager: Self)
        ensures
            manager.config().is_default(),
            manager.groups() == Seq::<TeleportGroup>::empty(),
            manager.file_path() is None,
            manager.well_formed(),
    {
        let manager = Self { config: TeleportConfig::default(), file_path: None };
        manager
    }

    /// A manager of `config`, with no path.
    pub fn from_config(config: TeleportConfig) -> (manager: Self)
        ensures
            manager.config() == config,
            manager.file_path() is None,
    {
        Self { config, file_path: None }
    }

    /// A manager of `config`, which was read from `path`.
    pub fn from_file(config: TeleportConfig, path: String) -> (manager: Self)
        ensures
            manager.config() == config,
            manager.file_path() == Some(path),
    {
        Self { config, file_path: Some(path) }
    }

    /// The path to write the document to when it is saved where it came from.
    pub fn original_path(&self) -> (target: Result<String, TeleportError>)
        ensures
            match self.file_path() {
                Some(path) => target == Ok::<String, TeleportError>(path),
                None => target == Err::<String, TeleportError>(TeleportError::NoAssociatedPath),
            },
    {
        match &self.file_path {
            Some(path) => Ok(path.clone()),
            None => Err(TeleportError::NoAssociatedPath),
        }
    }

    /// Appends `group`, unless a group of its name is already held.
    pub fn add_group(&mut self, group: TeleportGroup) -> (outcome: Result<(), TeleportError>)
        ensures
            has_group(old(self).groups(), group.name@) ==> {
                &&& outcome == Err::<(), TeleportError>(
                    TeleportError::GroupAlreadyExists(group.name),
                )
                &&& *final(self) == *old(self)
            },
            !has_group(old(self).groups(), group.name@) ==> {
                &&& outcome is Ok
                &&& final(self).groups() == old(self).groups().push(group)
                &&& final(self).config() == (TeleportConfig {
                    teleport_groups: final(self).config().teleport_groups,
                    ..old(self).config()
                })
                &&& final(self).file_path() == old(self).file_path()
            },
            old(self).well_formed() ==> final(self).well_formed(),
    {
        proof {
            lemma_position_of(self.groups(), group.name@);
        }
        if find_position(&self.config.teleport_groups, &group.name).is_some() {
            return Err(TeleportError::GroupAlreadyExists(group.name));
        }
        proof {
            let before = group_names(self.groups());
            assert(group_names(self.groups().push(group)) =~= before.push(group.name@));
            assert forall|i: int, j: int|
                0 <= i < before.len() + 1 && 0 <= j < before.len() + 1 && i != j
                    && before.no_duplicates() implies before.push(group.name@)[i]
                != before.push(group.name@)[j] by {
                if i < before.len() && j < before.len() {
                } else if i < before.len() {
                    assert(before.contains(before[i]));
                } else {
                    assert(before.contains(before[j]));
                }
            }
        }
        self.config.teleport_groups.push(group);
        Ok(())
    }

    /// Removes the first group called `name` and hands it out; the others keep
    /// their order.
    pub fn remove_group(&mut self, name: &str) -> (outcome: Result<TeleportGroup, TeleportError>)
        ensures
            match position_of(old(self).groups(), name@) {
                Some(i) => {
                    &&& outcome == Ok::<TeleportGroup, TeleportError>(old(self).groups()[i])
                    &&& final(self).groups() == old(self).groups().remove(i)
                    &&& final(self).config() == (TeleportConfig {
                        teleport_groups: final(self).config().teleport_groups,
                        ..old(self).config()
                    })
                    &&& final(self).file_path() == old(self).file_path()
                },
                None => {
                    &&& outcome matches Err(TeleportError::GroupNotFound(missing))
                    &&& missing@ == name@
                    &&& *final(self) == *old(self)
                },
            },
            outcome is Ok <==> has_group(old(self).groups(), name@),
            old(self).well_formed() ==> final(self).well_formed(),
    {
        let wanted = name.to_owned();
        proof {
            lemma_position_of(self.groups(), name@);
        }
        match find_position(&self.config.teleport_groups, &wanted) {
            Some(index) => {
                proof {
                    let before = group_names(self.groups());
                    let after = group_names(self.groups().remove(index as int));
                    assert(after =~= before.remove(index as int));
                    assert forall|i: int, j: int|
                        0 <= i < after.len() && 0 <= j < after.len() && i != j
                            && before.no_duplicates() implies after[i] != after[j] by {
                        let ii = if i < index { i } else { i + 1 };
                        let jj = if j < index { j } else { j + 1 };
                        assert(after[i] == before[ii]);
                        assert(after[j] == before[jj]);
                    }
                }
                Ok(self.config.teleport_groups.remove(index))
            },
            None => Err(TeleportError::GroupNotFound(wanted)),
        }
    }

    /// All groups, in order.
    pub fn get_all_groups(&self) -> (groups: &[TeleportGroup])
        ensures
            groups@ == self.groups(),
    {
        self.config.teleport_groups.as_slice()
    }

    /// All groups, open to change.
    pub fn get_all_groups_mut(&mut self) -> (groups: &mut Vec<TeleportGroup>)
        ensures
            groups@ == old(self).groups(),
            final(self).groups() == final(groups)@,
            final(self).config() == (TeleportConfig {
                teleport_groups: final(self).config().teleport_groups,
                ..old(self).config()
            }),
            final(self).file_path() == old(self).file_path(),
    {
        &mut self.config.teleport_groups
    }

    /// The first group called `name`.
    pub fn get_group(&self, name: &str) -> (group: Option<&TeleportGroup>)
        ensures
            match position_of(self.groups(), name@) {
                Some(i) => group == Some(&self.groups()[i]),
                None => group is None,
            },
            group is Some <==> has_group(self.groups(), name@),
    {
        let wanted = name.to_owned();
        proof {
            lemma_position_of(self.groups(), name@);
        }
        match find_position(&self.config.teleport_groups, &wanted) {
            Some(index) => Some(&self.config.teleport_groups[index]),
            None => None,
        }
    }

    /// The first group called `name`, open to change.
    pub fn get_group_mut(&mut self, name: &str) -> (group: Option<&mut TeleportGroup>)
        ensures
            match position_of(old(self).groups(), name@) {
                Some(i) => {
                    &&& group matches Some(found)
                    &&& *found == old(self).groups()[i]
                    &&& final(self).groups() == old(self).groups().update(i, *final(found))
                    &&& final(self).config() == (TeleportConfig {
                        teleport_groups: final(self).config().teleport_groups,
                        ..old(self).config()
                    })
                    &&& final(self).file_path() == old(self).file_path()
                },
                None => group is None && *final(self) == *old(self),
            },
    {
        let wanted = name.to_owned();
        match find_position(&self.config.teleport_groups, &wanted) {
            Some(index) => Some(&mut self.config.teleport_groups[index]),
            None => None,
        }
    }

    /// A fingerprint of the group called `name`, taken over the text that
    /// `canonical` gives for it. Two copies of a group whose canonical texts
    /// agree have the same fingerprint.
    pub fn get_group_hash<F: Fn(&TeleportGroup) -> String>(&self, name: &str, canonical: F) -> (outcome:
        Result<u64, TeleportError>)
        requires
            position_of(self.groups(), name@) matches Some(i) ==> canonical.requires(
                (&self.groups()[i],),
            ),
        ensures
            match position_of(self.groups(), name@) {
                Some(i) => exists|text: String|
                    {
                        &&& #[trigger] canonical.ensures((&self.groups()[i],), text)
                        &&& outcome == Ok::<u64, TeleportError>(text_fingerprint(text@))
                    },
                None => {
                    &&& outcome matches Err(TeleportError::GroupNotFound(missing))
                    &&& missing@ == name@
                },
            },
    {
        let wanted = name.to_owned();
        match find_position(&self.config.teleport_groups, &wanted) {
            Some(index) => {
                let text = canonical(&self.config.teleport_groups[index]);
                Ok(fingerprint(text.as_str()))
            },
            None => Err(TeleportError::GroupNotFound(wanted)),
        }
    }

    /// The whole document.
    pub fn get_config(&self) -> (config: &TeleportConfig)
        ensures
            *config == self.config(),
    {
        &self.config
    }

    /// The whole document, open to change.
    pub fn get_config_mut(&mut self) -> (config: &mut TeleportConfig)
        ensures
            *config == old(self).config(),
            final(self).config() == *final(config),
            final(self).file_path() == old(self).file_path(),
    {
        &mut self.config
    }

    /// How many groups are held.
    pub fn group_count(&self) -> (count: usize)
        ensures
            count == self.groups().len(),
    {
        self.config.teleport_groups.len()
    }
}

impl Default for TeleportManager {
    fn default() -> (manager: Self)
        ensures
            manager.config().is_default(),
            manager.file_path() is None,
    {
        Self::new()
    }
}

} // verus!
