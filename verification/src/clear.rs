//! Clearing every user's fingerprints, best-effort.
//!
//! For each username in turn: claim the device; if the claim fails,
//! record the error and continue with the next username — one locked
//! account must not block clearing the others. On a successful claim,
//! list that user's fingers, attempt to delete each (recording, not
//! stopping on, individual failures), then release, recording a release
//! failure too. When every username has been processed, report the last
//! recorded error, or success when none was recorded.

use vstd::prelude::*;
use crate::error::AppError;

verus! {

/// The phase of a clear-all run.
#[derive(Debug, Clone, Copy, PartialEq, Eq, Structural)]
pub enum ClearPhase {
    Claiming,
    Listing,
    Deleting,
    Releasing,
    Done,
}

/// What the surrounding plumbing must do next.
#[derive(Debug, Clone, Copy, PartialEq, Eq, Structural)]
pub enum ClearAction {
    Claim,
    ListFingers,
    DeleteFinger,
    Release,
    Finished,
}

/// A clear-all run in progress. Drive it by performing the remote call
/// the returned action names — for the user and finger the getters name
/// — and feeding the result back.
#[derive(Debug)]
pub struct ClearAllFlow {
    usernames: Vec<String>,
    user_idx: usize,
    fingers: Vec<String>,
    finger_idx: usize,
    phase: ClearPhase,
    last_error: Option<AppError>,
    claims_accepted: usize,
    releases_issued: usize,
}

impl ClearAllFlow {
    pub closed spec fn spec_phase(self) -> ClearPhase {
        self.phase
    }

    pub closed spec fn spec_usernames(self) -> Seq<String> {
        self.usernames@
    }

    /// The position of the user being processed.
    pub closed spec fn spec_user_idx(self) -> usize {
        self.user_idx
    }

    /// The fingers listed for the user being processed.
    pub closed spec fn spec_fingers(self) -> Seq<String> {
        self.fingers@
    }

    pub closed spec fn spec_finger_idx(self) -> usize {
        self.finger_idx
    }

    /// The most recently recorded failure, if any.
    pub closed spec fn spec_last_error(self) -> Option<AppError> {
        self.last_error
    }

    /// How many claims the device accepted.
    pub closed spec fn spec_claims_accepted(self) -> usize {
        self.claims_accepted
    }

    /// How many release requests were handed to the caller.
    pub closed spec fn spec_releases(self) -> usize {
        self.releases_issued
    }

    /// The run's invariant: the position is in range for the phase, and
    /// the releases handed out track the claims accepted — one behind
    /// while a claimed user is being processed, equal otherwise.
    pub closed spec fn wf(self) -> bool {
        &&& self.user_idx <= self.usernames@.len()
        &&& (self.phase is Claiming ==> {
            &&& self.user_idx < self.usernames@.len()
            &&& self.releases_issued == self.claims_accepted
            &&& self.claims_accepted <= self.user_idx
        })
        &&& (self.phase is Listing ==> {
            &&& self.user_idx < self.usernames@.len()
            &&& self.claims_accepted >= 1
            &&& self.releases_issued == self.claims_accepted - 1
            &&& self.claims_accepted <= self.user_idx + 1
        })
        &&& (self.phase is Deleting ==> {
            &&& self.user_idx < self.usernames@.len()
            &&& self.finger_idx < self.fingers@.len()
            &&& self.claims_accepted >= 1
            &&& self.releases_issued == self.claims_accepted - 1
            &&& self.claims_accepted <= self.user_idx + 1
        })
        &&& (self.phase is Releasing ==> {
            &&& self.user_idx < self.usernames@.len()
            &&& self.releases_issued == self.claims_accepted
            &&& self.claims_accepted <= self.user_idx + 1
        })
        &&& (self.phase is Done ==> {
            &&& self.user_idx == self.usernames@.len()
            &&& self.releases_issued == self.claims_accepted
            &&& self.claims_accepted <= self.user_idx
        })
    }

    /// Starts a clear-all run over the given usernames; with none to
    /// process the run is already finished, successfully.
    pub fn begin(usernames: Vec<String>) -> (f: ClearAllFlow)
        ensures
            f.wf(),
            f.spec_usernames() == usernames@,
            f.spec_user_idx() == 0,
            f.spec_last_error() is None,
            f.spec_claims_accepted() == 0,
            f.spec_releases() == 0,
            usernames@.len() > 0 ==> f.spec_phase() is Claiming,
            usernames@.len() == 0 ==> f.spec_phase() is Done,
    {
        let phase = if usernames.len() > 0 {
            ClearPhase::Claiming
        } else {
            ClearPhase::Done
        };
        ClearAllFlow {
            usernames,
            user_idx: 0,
            fingers: Vec::new(),
            finger_idx: 0,
            phase,
            last_error: None,
            claims_accepted: 0,
            releases_issued: 0,
        }
    }

    /// Consumes a claim call's outcome. A rejected claim is recorded
    /// and the run continues with the next username: the batch is never
    /// aborted by one user's failure, and nothing is released for a
    /// claim the device did not accept.
    pub fn on_claim_result(&mut self, r: Result<(), AppError>) -> (a: ClearAction)
        requires
            old(self).wf(),
            old(self).spec_phase() is Claiming,
        ensures
            final(self).wf(),
            final(self).spec_usernames() == old(self).spec_usernames(),
            r is Ok ==> {
                &&& final(self).spec_phase() is Listing
                &&& a is ListFingers
                &&& final(self).spec_user_idx() == old(self).spec_user_idx()
                &&& final(self).spec_claims_accepted() == old(self).spec_claims_accepted() + 1
                &&& final(self).spec_releases() == old(self).spec_releases()
                &&& final(self).spec_last_error() == old(self).spec_last_error()
            },
            r matches Err(e) ==> {
                &&& final(self).spec_last_error() == Some(e)
                &&& final(self).spec_user_idx() == old(self).spec_user_idx() + 1
                &&& final(self).spec_claims_accepted() == old(self).spec_claims_accepted()
                &&& final(self).spec_releases() == old(self).spec_releases()
                &&& (old(self).spec_user_idx() + 1 < old(self).spec_usernames().len() ==> {
                    final(self).spec_phase() is Claiming && a is Claim
                })
                &&& (old(self).spec_user_idx() + 1 == old(self).spec_usernames().len() ==> {
                    final(self).spec_phase() is Done && a is Finished
                })
            },
    {
        let n: usize = self.usernames.len();
        match r {
            Ok(_) => {
                self.claims_accepted = self.claims_accepted + 1;
                self.phase = ClearPhase::Listing;
                ClearAction::ListFingers
            },
            Err(e) => {
                self.last_error = Some(e);
                self.user_idx = self.user_idx + 1;
                if self.user_idx < n {
                    self.phase = ClearPhase::Claiming;
                    ClearAction::Claim
                } else {
                    self.phase = ClearPhase::Done;
                    ClearAction::Finished
                }
            },
        }
    }

    /// Consumes the finger listing's outcome for the claimed user. A
    /// listing failure is recorded and the user is released; an empty
    /// listing releases at once; otherwise each listed finger is
    /// deleted in turn.
    pub fn on_list_result(&mut self, r: Result<Vec<String>, AppError>) -> (a: ClearAction)
        requires
            old(self).wf(),
            old(self).spec_phase() is Listing,
        ensures
            final(self).wf(),
            final(self).spec_usernames() == old(self).spec_usernames(),
            final(self).spec_user_idx() == old(self).spec_user_idx(),
            final(self).spec_claims_accepted() == old(self).spec_claims_accepted(),
            r matches Ok(fingers) ==> {
                &&& final(self).spec_last_error() == old(self).spec_last_error()
                &&& (fingers@.len() > 0 ==> {
                    &&& final(self).spec_phase() is Deleting
                    &&& a is DeleteFinger
                    &&& final(self).spec_fingers() == fingers@
                    &&& final(self).spec_finger_idx() == 0
                    &&& final(self).spec_releases() == old(self).spec_releases()
                })
                &&& (fingers@.len() == 0 ==> {
                    &&& final(self).spec_phase() is Releasing
                    &&& a is Release
                    &&& final(self).spec_releases() == old(self).spec_releases() + 1
                })
            },
            r matches Err(e) ==> {
                &&& final(self).spec_last_error() == Some(e)
                &&& final(self).spec_phase() is Releasing
                &&& a is Release
                &&& final(self).spec_releases() == old(self).spec_releases() + 1
            },
    {
        match r {
            Ok(fingers) => {
                if fingers.len() > 0 {
                    self.fingers = fingers;
                    self.finger_idx = 0;
                    self.phase = ClearPhase::Deleting;
                    ClearAction::DeleteFinger
                } else {
                    self.releases_issued = self.releases_issued + 1;
                    self.phase = ClearPhase::Releasing;
                    ClearAction::Release
                }
            },
            Err(e) => {
                self.last_error = Some(e);
                self.releases_issued = self.releases_issued + 1;
                self.phase = ClearPhase::Releasing;
                ClearAction::Release
            },
        }
    }

    /// Consumes one finger deletion's outcome. A failure is recorded,
    /// never aborts the remaining deletions. After the last finger the
    /// user is released.
    pub fn on_delete_result(&mut self, r: Result<(), AppError>) -> (a: ClearAction)
        requires
            old(self).wf(),
            old(self).spec_phase() is Deleting,
        ensures
            final(self).wf(),
            final(self).spec_usernames() == old(self).spec_usernames(),
            final(self).spec_user_idx() == old(self).spec_user_idx(),
            final(self).spec_claims_accepted() == old(self).spec_claims_accepted(),
            final(self).spec_fingers() == old(self).spec_fingers(),
            final(self).spec_finger_idx() == old(self).spec_finger_idx() + 1,
            r is Ok ==> final(self).spec_last_error() == old(self).spec_last_error(),
            r matches Err(e) ==> final(self).spec_last_error() == Some(e),
            old(self).spec_finger_idx() + 1 < old(self).spec_fingers().len() ==> {
                &&& final(self).spec_phase() is Deleting
                &&& a is DeleteFinger
                &&& final(self).spec_releases() == old(self).spec_releases()
            },
            old(self).spec_finger_idx() + 1 == old(self).spec_fingers().len() ==> {
                &&& final(self).spec_phase() is Releasing
                &&& a is Release
                &&& final(self).spec_releases() == old(self).spec_releases() + 1
            },
    {
        if let Err(e) = r {
            self.last_error = Some(e);
        }
        let m: usize = self.fingers.len();
        self.finger_idx = self.finger_idx + 1;
        if self.finger_idx < m {
            ClearAction::DeleteFinger
        } else {
            self.releases_issued = self.releases_issued + 1;
            self.phase = ClearPhase::Releasing;
            ClearAction::Release
        }
    }

    /// Consumes the release call's outcome for the claimed user. A
    /// release failure is recorded too. The run then continues with the
    /// next username, or finishes.
    pub fn on_release_result(&mut self, r: Result<(), AppError>) -> (a: ClearAction)
        requires
            old(self).wf(),
            old(self).spec_phase() is Releasing,
        ensures
            final(self).wf(),
            final(self).spec_usernames() == old(self).spec_usernames(),
            final(self).spec_user_idx() == old(self).spec_user_idx() + 1,
            final(self).spec_claims_accepted() == old(self).spec_claims_accepted(),
            final(self).spec_releases() == old(self).spec_releases(),
            r is Ok ==> final(self).spec_last_error() == old(self).spec_last_error(),
            r matches Err(e) ==> final(self).spec_last_error() == Some(e),
            old(self).spec_user_idx() + 1 < old(self).spec_usernames().len() ==> {
                final(self).spec_phase() is Claiming && a is Claim
            },
            old(self).spec_user_idx() + 1 == old(self).spec_usernames().len() ==> {
                final(self).spec_phase() is Done && a is Finished
            },
    {
        if let Err(e) = r {
            self.last_error = Some(e);
        }
        let n: usize = self.usernames.len();
        self.user_idx = self.user_idx + 1;
        if self.user_idx < n {
            self.phase = ClearPhase::Claiming;
            ClearAction::Claim
        } else {
            self.phase = ClearPhase::Done;
            ClearAction::Finished
        }
    }

    /// The run's reported outcome: the last recorded error — not an
    /// aggregate — or success when no failure was recorded.
    pub fn finish(self) -> (r: Result<(), AppError>)
        requires
            self.wf(),
            self.spec_phase() is Done,
        ensures
            match self.spec_last_error() {
                Some(e) => r == Err::<(), AppError>(e),
                None => r == Ok::<(), AppError>(()),
            },
    {
        match self.last_error {
            Some(e) => Err(e),
            None => Ok(()),
        }
    }

    /// The username being processed.
    pub fn current_username(&self) -> (r: &str)
        requires
            self.wf(),
            !(self.spec_phase() is Done),
        ensures
            r@ == self.spec_usernames()[self.spec_user_idx() as int]@,
    {
        self.usernames[self.user_idx].as_str()
    }

    /// The finger about to be deleted.
    pub fn current_finger(&self) -> (r: &str)
        requires
            self.wf(),
            self.spec_phase() is Deleting,
        ensures
            r@ == self.spec_fingers()[self.spec_finger_idx() as int]@,
    {
        self.fingers[self.finger_idx].as_str()
    }

    /// Whether the run has finished.
    pub fn is_done(&self) -> (r: bool)
        ensures
            r == (self.spec_phase() is Done),
    {
        match self.phase {
            ClearPhase::Done => true,
            _ => false,
        }
    }
}

/// Law: a finished clear-all run handed out exactly one release request
/// for every claim the device accepted: no claimed user is left
/// unreleased, none is released twice.
pub proof fn lemma_clear_release_per_claim(f: ClearAllFlow)
    requires
        f.wf(),
        f.spec_phase() is Done,
    ensures
        f.spec_releases() == f.spec_claims_accepted(),
{
}

} // verus!
