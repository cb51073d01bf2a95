//! Fetching several groups one after another.
//!
//! The caller asks the remote for each name in turn and hands every answer
//! to a `FetchBatch`, which keeps the groups in the order they came and stops
//! at the first failure.

use crate::error::TeleportError;
use crate::types::TeleportGroup;
use vstd::prelude::*;

verus! {

/// The groups fetched so far, or the failure that ended the fetching.
pub struct FetchBatch {
    groups: Vec<TeleportGroup>,
    failure: Option<TeleportError>,
}

impl FetchBatch {
    /// The groups that came before any failure, in order.
    pub closed spec fn groups(&self) -> Seq<TeleportGroup> {
        self.groups@
    }

    /// The first failure, if there was one.
    pub closed spec fn failure(&self) -> Option<TeleportError> {
        self.failure
    }

    /// A batch into which nothing was fetched yet.
    pub fn new() -> (batch: Self)
        ensures
            batch.groups() == Seq::<TeleportGroup>::empty(),
            batch.failure() is None,
    {
        Self { groups: Vec::new(), failure: None }
    }

    /// Takes the answer to the next fetch and says whether to go on
    /// fetching. A group is kept behind those that came before; the first
    /// failure is kept, and ends the batch: what comes after it is dropped.
    pub fn accept(&mut self, fetched: Result<TeleportGroup, TeleportError>) -> (go_on: bool)
        ensures
            match (old(self).failure(), fetched) {
                (None, Ok(group)) => {
                    &&& go_on
                    &&& final(self).groups() == old(self).groups().push(group)
                    &&& final(self).failure() is None
                },
                (None, Err(e)) => {
                    &&& !go_on
                    &&& final(self).groups() == old(self).groups()
                    &&& final(self).failure() == Some(e)
                },
                (Some(_), _) => !go_on && *final(self) == *old(self),
            },
    {
        if self.failure.is_some() {
            return false;
        }
        match fetched {
            Ok(group) => {
                self.groups.push(group);
                true
            },
            Err(e) => {
                self.failure = Some(e);
                false
            },
        }
    }

    /// The outcome of the batch: the first failure if there was one, else
    /// every group in the order it came.
    pub fn finish(self) -> (outcome: Result<Vec<TeleportGroup>, TeleportError>)
        ensures
            match self.failure() {
                Some(e) => outcome == Err::<Vec<TeleportGroup>, TeleportError>(e),
                None => outcome matches Ok(groups) && groups@ == self.groups(),
            },
    {
        match self.failure {
            Some(e) => Err(e),
            None => Ok(self.groups),
        }
    }
}

} // verus!
