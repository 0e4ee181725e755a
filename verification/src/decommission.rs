//! Removing the instance: the two deletions, by fixed name, in order.

use vstd::prelude::*;
use crate::error::{KwpmError, RemoteApiError};
use crate::names::{MARIADB_NAMESPACE, MARIADB_VOLUME};
use crate::progress::Progress;
use crate::resources::ResourceKind;

verus! {

/// Number of deletions that remove an instance.
pub const REMOVAL_STEPS: usize = 2;

/// One deletion: the kind of the resource and its name.
#[derive(Debug, PartialEq, Eq)]
pub struct Deletion {
    pub kind: ResourceKind,
    pub name: String,
}

impl View for Deletion {
    type V = (ResourceKind, Seq<char>);

    open spec fn view(&self) -> (ResourceKind, Seq<char>) {
        (self.kind, self.name@)
    }
}

/// The deletions that remove an instance, in order. Deleting the namespace
/// takes with it all that lives inside; the persistent volume belongs to
/// the cluster and is deleted by itself.
pub open spec fn removal_order() -> Seq<(ResourceKind, Seq<char>)> {
    seq![
        (ResourceKind::Namespace, MARIADB_NAMESPACE@),
        (ResourceKind::PersistentVolume, MARIADB_VOLUME@),
    ]
}

/// The deletion at `index` of the removal order, where there is one.
pub fn removal_step(index: usize) -> (deletion: Option<Deletion>)
    ensures
        index < REMOVAL_STEPS ==> deletion is Some && deletion->Some_0@ == removal_order()[index as int],
        index >= REMOVAL_STEPS ==> deletion is None,
{
    if index == 0 {
        Some(Deletion { kind: ResourceKind::Namespace, name: MARIADB_NAMESPACE.to_owned() })
    } else if index == 1 {
        Some(Deletion { kind: ResourceKind::PersistentVolume, name: MARIADB_VOLUME.to_owned() })
    } else {
        None
    }
}

/// The removal of the instance under way. The caller makes the deletion
/// that [`Decommissioning::next_deletion`] names and hands its outcome to
/// [`Decommissioning::record`], until no deletion is due. Whether the
/// resources exist is not looked at: deleting what is not there fails at
/// the orchestrator, and that failure is the result.
#[derive(Debug, PartialEq, Eq)]
pub struct Decommissioning {
    pub progress: Progress,
}

impl Decommissioning {
    /// The deletion that is due, if any is.
    pub open spec fn due(self) -> Option<(ResourceKind, Seq<char>)> {
        if self.progress.finished(REMOVAL_STEPS as nat) {
            None
        } else {
            Some(removal_order()[self.progress.completed as int])
        }
    }

    /// The removal with no deletion made yet.
    pub fn begin() -> (run: Decommissioning)
        ensures
            run.progress == (Progress { completed: 0, failure: None }),
    {
        Decommissioning { progress: Progress::start() }
    }

    /// The deletion to make next: the first of the removal order that has
    /// not been made, unless a deletion failed or both are done.
    pub fn next_deletion(&self) -> (deletion: Option<Deletion>)
        ensures
            self.due() is None <==> deletion is None,
            deletion is Some ==> self.due() == Some(deletion->Some_0@),
    {
        if self.progress.is_finished(REMOVAL_STEPS) {
            None
        } else {
            removal_step(self.progress.completed)
        }
    }

    /// Takes the outcome of the deletion that was due. After a failure no
    /// further deletion is due.
    pub fn record(&mut self, outcome: Result<(), RemoteApiError>)
        ensures
            final(self).progress == old(self).progress.after(REMOVAL_STEPS as nat, outcome),
    {
        self.progress.record(REMOVAL_STEPS, outcome);
    }

    /// What the operation returns: nothing while a deletion is due, the
    /// failure of the deletion that failed, or success once both are made.
    pub fn result(&self) -> (result: Option<Result<(), KwpmError>>)
        ensures
            result == self.progress.result(REMOVAL_STEPS as nat),
    {
        self.progress.outcome(REMOVAL_STEPS)
    }
}

} // verus!
