//! The claim/release session guard, instantiated for deletion.
//!
//! Any operation needing exclusive access to the device follows the same
//! scoped-acquisition pattern: claim the device for a username, run the
//! body, and release on every exit path. The remote calls themselves are
//! performed by the surrounding plumbing; this flow makes every decision
//! and accounts for each claim and release, so that "release exactly once
//! after a successful claim" and "the body's error is never masked by the
//! release's" are verified facts.

use vstd::prelude::*;
use crate::error::AppError;

verus! {

/// What a deletion deletes: one named finger, or every finger enrolled
/// for the session's user.
#[derive(Debug)]
pub enum DeleteTarget {
    Finger(String),
    AllForUser,
}

/// The phase of a guarded deletion.
#[derive(Debug, Clone, Copy, PartialEq, Eq, Structural)]
pub enum DeletePhase {
    Claiming,
    Deleting,
    Releasing,
    Done,
}

/// What the surrounding plumbing must do next.
#[derive(Debug, Clone, Copy, PartialEq, Eq, Structural)]
pub enum DeleteAction {
    Delete,
    Release,
    Finished,
}

/// How a guarded run reports its outcome: the claim's failure first,
/// else the body's, else the release's, else success. An earlier, more
/// specific failure is never masked by a later one.
pub open spec fn spec_guard_outcome(
    claim_error: Option<AppError>,
    body_error: Option<AppError>,
    release_error: Option<AppError>,
) -> Result<(), AppError> {
    match claim_error {
        Some(e) => Err(e),
        None => match body_error {
            Some(e) => Err(e),
            None => match release_error {
                Some(e) => Err(e),
                None => Ok(()),
            },
        },
    }
}

/// A claim-guarded deletion in progress. Drive it by performing the
/// remote call the returned action names and feeding the result back.
#[derive(Debug)]
pub struct DeleteFlow {
    username: String,
    target: DeleteTarget,
    phase: DeletePhase,
    claim_accepted: bool,
    releases_issued: u32,
    claim_error: Option<AppError>,
    body_error: Option<AppError>,
    release_error: Option<AppError>,
}

impl DeleteFlow {
    pub closed spec fn spec_phase(self) -> DeletePhase {
        self.phase
    }

    pub closed spec fn spec_username(self) -> Seq<char> {
        self.username@
    }

    pub closed spec fn spec_target(self) -> DeleteTarget {
        self.target
    }

    pub closed spec fn spec_claim_accepted(self) -> bool {
        self.claim_accepted
    }

    /// How many release requests were handed to the caller.
    pub closed spec fn spec_releases(self) -> u32 {
        self.releases_issued
    }

    pub closed spec fn spec_claim_error(self) -> Option<AppError> {
        self.claim_error
    }

    pub closed spec fn spec_body_error(self) -> Option<AppError> {
        self.body_error
    }

    pub closed spec fn spec_release_error(self) -> Option<AppError> {
        self.release_error
    }

    /// The flow's invariant: each phase pins down what has been claimed,
    /// released and recorded so far.
    pub closed spec fn wf(self) -> bool {
        &&& (self.phase is Claiming ==> {
            &&& !self.claim_accepted
            &&& self.releases_issued == 0
            &&& self.claim_error is None
            &&& self.body_error is None
            &&& self.release_error is None
        })
        &&& (self.phase is Deleting ==> {
            &&& self.claim_accepted
            &&& self.releases_issued == 0
            &&& self.claim_error is None
            &&& self.body_error is None
            &&& self.release_error is None
        })
        &&& (self.phase is Releasing ==> {
            &&& self.claim_accepted
            &&& self.releases_issued == 1
            &&& self.claim_error is None
            &&& self.release_error is None
        })
        &&& (self.phase is Done ==> {
            &&& (self.claim_accepted ==> self.releases_issued == 1 && self.claim_error is None)
            &&& (!self.claim_accepted ==> self.releases_issued == 0 && self.claim_error is Some
                && self.body_error is None && self.release_error is None)
        })
    }

    /// Starts a guarded deletion; the caller must now issue the claim
    /// call for this username.
    pub fn begin(username: String, target: DeleteTarget) -> (f: DeleteFlow)
        ensures
            f.wf(),
            f.spec_phase() is Claiming,
            f.spec_username() == username@,
            f.spec_target() == target,
            f.spec_releases() == 0,
    {
        DeleteFlow {
            username,
            target,
            phase: DeletePhase::Claiming,
            claim_accepted: false,
            releases_issued: 0,
            claim_error: None,
            body_error: None,
            release_error: None,
        }
    }

    /// Consumes the claim call's outcome. A rejected claim ends the run
    /// immediately: the body is never attempted and nothing is released.
    pub fn on_claim_result(&mut self, r: Result<(), AppError>) -> (a: DeleteAction)
        requires
            old(self).wf(),
            old(self).spec_phase() is Claiming,
        ensures
            final(self).wf(),
            final(self).spec_username() == old(self).spec_username(),
            final(self).spec_target() == old(self).spec_target(),
            r is Ok ==> {
                &&& final(self).spec_phase() is Deleting
                &&& final(self).spec_claim_accepted()
                &&& a is Delete
            },
            r matches Err(e) ==> {
                &&& final(self).spec_phase() is Done
                &&& !final(self).spec_claim_accepted()
                &&& final(self).spec_releases() == 0
                &&& final(self).spec_claim_error() == Some(e)
                &&& a is Finished
            },
    {
        match r {
            Ok(_) => {
                self.claim_accepted = true;
                self.phase = DeletePhase::Deleting;
                DeleteAction::Delete
            },
            Err(e) => {
                self.claim_error = Some(e);
                self.phase = DeletePhase::Done;
                DeleteAction::Finished
            },
        }
    }

    /// Consumes the deletion call's outcome. Whether it succeeded or
    /// failed, exactly one release request is handed out next.
    pub fn on_delete_result(&mut self, r: Result<(), AppError>) -> (a: DeleteAction)
        requires
            old(self).wf(),
            old(self).spec_phase() is Deleting,
        ensures
            final(self).wf(),
            final(self).spec_username() == old(self).spec_username(),
            final(self).spec_target() == old(self).spec_target(),
            final(self).spec_phase() is Releasing,
            final(self).spec_releases() == 1,
            a is Release,
            r is Ok ==> final(self).spec_body_error() is None,
            r matches Err(e) ==> final(self).spec_body_error() == Some(e),
    {
        if let Err(e) = r {
            self.body_error = Some(e);
        }
        self.releases_issued = 1;
        self.phase = DeletePhase::Releasing;
        DeleteAction::Release
    }

    /// Consumes the release call's outcome and ends the run. A release
    /// failure is recorded, never issued again.
    pub fn on_release_result(&mut self, r: Result<(), AppError>)
        requires
            old(self).wf(),
            old(self).spec_phase() is Releasing,
        ensures
            final(self).wf(),
            final(self).spec_phase() is Done,
            final(self).spec_claim_accepted(),
            final(self).spec_releases() == 1,
            final(self).spec_claim_error() is None,
            final(self).spec_body_error() == old(self).spec_body_error(),
            r is Ok ==> final(self).spec_release_error() is None,
            r matches Err(e) ==> final(self).spec_release_error() == Some(e),
    {
        if let Err(e) = r {
            self.release_error = Some(e);
        }
        self.phase = DeletePhase::Done;
    }

    /// The run's reported outcome: the claim's failure first, else the
    /// body's, else the release's, else success.
    pub fn finish(self) -> (r: Result<(), AppError>)
        requires
            self.wf(),
            self.spec_phase() is Done,
        ensures
            r == spec_guard_outcome(
                self.spec_claim_error(),
                self.spec_body_error(),
                self.spec_release_error(),
            ),
    {
        match self.claim_error {
            Some(e) => Err(e),
            None => match self.body_error {
                Some(e) => Err(e),
                None => match self.release_error {
                    Some(e) => Err(e),
                    None => Ok(()),
                },
            },
        }
    }

    /// The username this deletion is scoped to.
    pub fn username(&self) -> (r: &str)
        ensures
            r@ == self.spec_username(),
    {
        self.username.as_str()
    }

    /// What this deletion deletes.
    pub fn target(&self) -> (r: &DeleteTarget)
        ensures
            *r == self.spec_target(),
    {
        &self.target
    }
}

/// Law: once a guarded deletion has finished, a release was requested
/// exactly once when the claim was accepted, and never when it was not —
/// on every exit path, including a failing body.
pub proof fn lemma_release_exactly_once(f: DeleteFlow)
    requires
        f.wf(),
        f.spec_phase() is Done,
    ensures
        f.spec_claim_accepted() ==> f.spec_releases() == 1,
        !f.spec_claim_accepted() ==> f.spec_releases() == 0,
{
}

/// Law: when the body of a guarded run fails, the reported error is the
/// body's error, whatever the release returned.
pub proof fn lemma_body_error_wins(body: AppError, release_error: Option<AppError>)
    ensures
        spec_guard_outcome(None, Some(body), release_error) == Err::<(), AppError>(body),
{
}

} // verus!
