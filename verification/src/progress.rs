//! Progress through a fixed sequence of remote calls, each issued only
//! after the one before it succeeded.

use vstd::prelude::*;
use crate::error::{KwpmError, RemoteApiError};

verus! {

/// How far a sequence of remote calls has come: the number of calls that
/// succeeded, and the failure that ended the sequence, if one did.
#[derive(Debug, PartialEq, Eq)]
pub struct Progress {
    pub completed: usize,
    pub failure: Option<RemoteApiError>,
}

impl Progress {
    /// A sequence of `steps` calls is finished once a call failed or all
    /// of them succeeded.
    pub open spec fn finished(self, steps: nat) -> bool {
        self.failure is Some || self.completed >= steps
    }

    /// The progress after the outcome of the call that was due. A success
    /// moves on by one call; a failure ends the sequence where it stands.
    /// A finished sequence takes no further outcome.
    pub open spec fn after(self, steps: nat, outcome: Result<(), RemoteApiError>) -> Progress {
        if self.finished(steps) {
            self
        } else {
            match outcome {
                Ok(_) => Progress { completed: (self.completed + 1) as usize, failure: None },
                Err(e) => Progress { completed: self.completed, failure: Some(e) },
            }
        }
    }

    /// The progress after a series of outcomes, taken in order.
    pub open spec fn after_all(
        self,
        steps: nat,
        outcomes: Seq<Result<(), RemoteApiError>>,
    ) -> Progress
        decreases outcomes.len(),
    {
        if outcomes.len() == 0 {
            self
        } else {
            self.after(steps, outcomes[0]).after_all(steps, outcomes.drop_first())
        }
    }

    /// What the operation returns: nothing while calls are due, the
    /// failure of the call that failed, or success once all calls succeeded.
    pub open spec fn result(self, steps: nat) -> Option<Result<(), KwpmError>> {
        match self.failure {
            Some(e) => Some(Err(KwpmError::RemoteApi(e))),
            None => if self.completed >= steps {
                Some(Ok(()))
            } else {
                None
            },
        }
    }

    /// The progress of a sequence of which no call has been made.
    pub fn start() -> (progress: Progress)
        ensures
            progress == (Progress { completed: 0, failure: None }),
    {
        Progress { completed: 0, failure: None }
    }

    /// Whether a sequence of `steps` calls is finished.
    pub fn is_finished(&self, steps: usize) -> (b: bool)
        ensures
            b == self.finished(steps as nat),
    {
        self.failure.is_some() || self.completed >= steps
    }

    /// Takes the outcome of the call that was due.
    pub fn record(&mut self, steps: usize, outcome: Result<(), RemoteApiError>)
        ensures
            *final(self) == old(self).after(steps as nat, outcome),
    {
        if self.is_finished(steps) {
            return ;
        }
        match outcome {
            Ok(_) => {
                self.completed = self.completed + 1;
            },
            Err(e) => {
                self.failure = Some(e);
            },
        }
    }

    /// What the operation returns, as far as it is known.
    pub fn outcome(&self, steps: usize) -> (result: Option<Result<(), KwpmError>>)
        ensures
            result == self.result(steps as nat),
    {
        match &self.failure {
            Some(e) => Some(Err(KwpmError::RemoteApi(e.clone()))),
            None => if self.completed >= steps {
                Some(Ok(()))
            } else {
                None
            },
        }
    }
}

/// The number of successes with which a series of outcomes begins.
pub open spec fn leading_successes(outcomes: Seq<Result<(), RemoteApiError>>) -> nat
    decreases outcomes.len(),
{
    if outcomes.len() == 0 || outcomes[0] is Err {
        0
    } else {
        1 + leading_successes(outcomes.drop_first())
    }
}

/// The successes with which a series of outcomes begins are no more than
/// the outcomes, and the outcome that follows them, if any, is a failure.
pub proof fn lemma_leading_successes(outcomes: Seq<Result<(), RemoteApiError>>)
    ensures
        leading_successes(outcomes) <= outcomes.len(),
        forall|i: int| 0 <= i < leading_successes(outcomes) ==> outcomes[i] is Ok,
        leading_successes(outcomes) < outcomes.len() ==> outcomes[
            leading_successes(outcomes) as int
        ] is Err,
    decreases outcomes.len(),
{
    if outcomes.len() == 0 || outcomes[0] is Err {
    } else {
        let rest = outcomes.drop_first();
        lemma_leading_successes(rest);
        assert forall|i: int| 0 <= i < leading_successes(outcomes) implies outcomes[i] is Ok by {
            if i > 0 {
                assert(outcomes[i] == rest[i - 1]);
            }
        }
        if leading_successes(outcomes) < outcomes.len() {
            assert(outcomes[leading_successes(outcomes) as int] == rest[leading_successes(rest) as int]);
        }
    }
}

/// The first failure ends a sequence: from any unfinished point, the calls
/// that count are the successes up to the first failure or to the end of
/// the sequence, whichever comes first; that failure, if it came in time,
/// is the one kept, and no later outcome changes anything.
pub proof fn lemma_first_failure_ends(
    from: Progress,
    steps: nat,
    outcomes: Seq<Result<(), RemoteApiError>>,
)
    requires
        from.failure is None,
        from.completed <= steps,
        steps <= usize::MAX,
    ensures
        ({
            let wins = leading_successes(outcomes);
            let end = from.after_all(steps, outcomes);
            if from.completed + wins >= steps {
                end.completed == steps && end.failure is None
            } else if wins < outcomes.len() {
                end.completed == from.completed + wins && end.failure == Some(
                    outcomes[wins as int]->Err_0,
                )
            } else {
                end.completed == from.completed + wins && end.failure is None
            }
        }),
    decreases outcomes.len(),
{
    if outcomes.len() == 0 {
    } else {
        let rest = outcomes.drop_first();
        let next = from.after(steps, outcomes[0]);
        lemma_leading_successes(outcomes);
        lemma_leading_successes(rest);
        if from.completed >= steps {
            lemma_finished_stays(next, steps, rest);
        } else if outcomes[0] is Err {
            lemma_finished_stays(next, steps, rest);
        } else {
            lemma_first_failure_ends(next, steps, rest);
            if leading_successes(outcomes) < outcomes.len() {
                assert(outcomes[leading_successes(outcomes) as int] == rest[leading_successes(rest) as int]);
            }
        }
    }
}

/// A finished sequence stays as it is, whatever outcomes follow.
pub proof fn lemma_finished_stays(
    from: Progress,
    steps: nat,
    outcomes: Seq<Result<(), RemoteApiError>>,
)
    requires
        from.finished(steps),
    ensures
        from.after_all(steps, outcomes) == from,
    decreases outcomes.len(),
{
    if outcomes.len() > 0 {
        lemma_finished_stays(from, steps, outcomes.drop_first());
    }
}

} // verus!
