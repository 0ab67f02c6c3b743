//! The enrollment session: a cancellable, signal-driven state machine.
//!
//! A session claims the device for a user, queries the stage count
//! (best-effort), starts enrollment for a finger, consumes the device's
//! status signal stream one event at a time, and releases the device on
//! every terminal path — done signal, stream end, parse failure or
//! cooperative cancellation. The remote calls are performed by the
//! surrounding plumbing, which feeds each outcome back into the flow;
//! progress events for the presentation layer are appended to a sink.

use vstd::prelude::*;
use vstd::string::StringExecFns;
use crate::error::AppError;
use crate::text::str_eq;

verus! {

/// The phase of an enrollment session.
#[derive(Debug, Clone, Copy, PartialEq, Eq, Structural)]
pub enum EnrollPhase {
    Claiming,
    QueryingStages,
    Starting,
    Subscribing,
    Streaming,
    Stopping,
    Releasing,
    Done,
}

/// What the surrounding plumbing must do next.
#[derive(Debug, Clone, Copy, PartialEq, Eq, Structural)]
pub enum EnrollAction {
    QueryStages,
    StartEnroll,
    Subscribe,
    AwaitSignal,
    StopEnroll,
    Release,
    Finished,
}

/// How an enrollment session ended. `Faulted` marks the error paths: a
/// rejected claim, a failed start or subscription, or an unparseable
/// signal; the structured error itself is emitted as an update.
#[derive(Debug, Clone, Copy, PartialEq, Eq, Structural)]
pub enum EnrollOutcome {
    Completed,
    Failed,
    Cancelled,
    Faulted,
}

/// An event for the presentation layer, emitted in the order produced.
#[derive(Debug)]
pub enum EnrollUpdate {
    /// Enrollment is starting; the stage count if the device reported one.
    Started(Option<u32>),
    /// One consumed status signal: its message and the stages passed so far.
    Progress { message: String, stages_passed: u32 },
    /// A structured error ended or prevented the session.
    OperationError(AppError),
    /// The terminal event: exactly one per session.
    Finished(EnrollOutcome),
}

/// The user-facing message of a status signal code; an unrecognized
/// code is passed through as its own message.
pub open spec fn spec_status_message(code: Seq<char>) -> Seq<char> {
    if code == "enroll-stage-passed"@ {
        "Stage passed."@
    } else if code == "enroll-retry-scan"@ {
        "Retry the scan."@
    } else if code == "enroll-swipe-too-short"@ {
        "The swipe was too short."@
    } else if code == "enroll-finger-not-centered"@ {
        "The finger was not centered."@
    } else if code == "enroll-remove-and-retry"@ {
        "Remove your finger and try again."@
    } else if code == "enroll-unknown-error"@ {
        "An unknown enrollment error occurred."@
    } else if code == "enroll-completed"@ {
        "Enrollment completed."@
    } else if code == "enroll-failed"@ {
        "Enrollment failed."@
    } else if code == "enroll-disconnected"@ {
        "The device was disconnected."@
    } else if code == "enroll-data-full"@ {
        "The device storage is full."@
    } else if code == "enroll-too-fast"@ {
        "The swipe was too fast."@
    } else if code == "enroll-duplicate"@ {
        "This fingerprint is already enrolled."@
    } else if code == "enroll-cancelled"@ {
        "Enrollment cancelled."@
    } else {
        code
    }
}

/// Translates a status signal code into its user-facing message.
pub fn status_message(code: &str) -> (r: String)
    ensures
        r@ == spec_status_message(code@),
{
    if str_eq(code, "enroll-stage-passed") {
        "Stage passed.".to_owned()
    } else if str_eq(code, "enroll-retry-scan") {
        "Retry the scan.".to_owned()
    } else if str_eq(code, "enroll-swipe-too-short") {
        "The swipe was too short.".to_owned()
    } else if str_eq(code, "enroll-finger-not-centered") {
        "The finger was not centered.".to_owned()
    } else if str_eq(code, "enroll-remove-and-retry") {
        "Remove your finger and try again.".to_owned()
    } else if str_eq(code, "enroll-unknown-error") {
        "An unknown enrollment error occurred.".to_owned()
    } else if str_eq(code, "enroll-completed") {
        "Enrollment completed.".to_owned()
    } else if str_eq(code, "enroll-failed") {
        "Enrollment failed.".to_owned()
    } else if str_eq(code, "enroll-disconnected") {
        "The device was disconnected.".to_owned()
    } else if str_eq(code, "enroll-data-full") {
        "The device storage is full.".to_owned()
    } else if str_eq(code, "enroll-too-fast") {
        "The swipe was too fast.".to_owned()
    } else if str_eq(code, "enroll-duplicate") {
        "This fingerprint is already enrolled.".to_owned()
    } else if str_eq(code, "enroll-cancelled") {
        "Enrollment cancelled.".to_owned()
    } else {
        code.to_owned()
    }
}

/// The terminal outcome named by a done-signal's code.
pub open spec fn spec_outcome_of(code: Seq<char>) -> EnrollOutcome {
    if code == "enroll-completed"@ {
        EnrollOutcome::Completed
    } else if code == "enroll-cancelled"@ {
        EnrollOutcome::Cancelled
    } else {
        EnrollOutcome::Failed
    }
}

/// The stage counter after a status signal: `enroll-stage-passed`
/// advances it, every other code leaves it unchanged.
pub open spec fn spec_next_stage(stages: u32, code: Seq<char>) -> u32 {
    if code == "enroll-stage-passed"@ && stages < u32::MAX {
        (stages + 1) as u32
    } else {
        stages
    }
}

/// The stage count adopted from the device's reply: a positive count is
/// kept, a non-positive one or a failed query degrades to "unknown".
pub open spec fn spec_total_of(count: Result<i32, AppError>) -> Option<u32> {
    match count {
        Ok(n) => if n > 0 {
            Some(n as u32)
        } else {
            None
        },
        Err(_) => None,
    }
}

/// An enrollment session in progress. Drive it by performing the remote
/// call the returned action names and feeding the result back; deliver
/// the updates appended to the sink in order.
#[derive(Debug)]
pub struct EnrollFlow {
    username: String,
    finger_id: String,
    phase: EnrollPhase,
    claim_accepted: bool,
    cancel_requested: bool,
    stages_passed: u32,
    total_stages: Option<u32>,
    releases_issued: u32,
    stops_issued: u32,
    outcome: Option<EnrollOutcome>,
}

impl EnrollFlow {
    pub closed spec fn spec_phase(self) -> EnrollPhase {
        self.phase
    }

    pub closed spec fn spec_username(self) -> Seq<char> {
        self.username@
    }

    pub closed spec fn spec_finger_id(self) -> Seq<char> {
        self.finger_id@
    }

    pub closed spec fn spec_claim_accepted(self) -> bool {
        self.claim_accepted
    }

    pub closed spec fn spec_cancel_requested(self) -> bool {
        self.cancel_requested
    }

    pub closed spec fn spec_stages_passed(self) -> u32 {
        self.stages_passed
    }

    pub closed spec fn spec_total_stages(self) -> Option<u32> {
        self.total_stages
    }

    /// How many release requests were handed to the caller.
    pub closed spec fn spec_releases(self) -> u32 {
        self.releases_issued
    }

    /// How many stop requests were handed to the caller.
    pub closed spec fn spec_stops(self) -> u32 {
        self.stops_issued
    }

    pub closed spec fn spec_outcome(self) -> Option<EnrollOutcome> {
        self.outcome
    }

    /// The session's invariant: each phase pins down what has been
    /// claimed, stopped and released so far, and a requested
    /// cancellation always ends in the `Cancelled` outcome.
    pub closed spec fn wf(self) -> bool {
        &&& (!self.cancel_requested ==> self.stops_issued == 0)
        &&& (self.cancel_requested ==> self.stops_issued == 1 && self.claim_accepted)
        &&& (self.phase is Claiming ==> {
            &&& !self.claim_accepted
            &&& !self.cancel_requested
            &&& self.releases_issued == 0
            &&& self.outcome is None
            &&& self.stages_passed == 0
        })
        &&& (self.phase is QueryingStages || self.phase is Starting || self.phase is Subscribing
            ==> {
            &&& self.claim_accepted
            &&& !self.cancel_requested
            &&& self.releases_issued == 0
            &&& self.outcome is None
            &&& self.stages_passed == 0
        })
        &&& (self.phase is Streaming ==> {
            &&& self.claim_accepted
            &&& !self.cancel_requested
            &&& self.releases_issued == 0
            &&& self.outcome is None
        })
        &&& (self.phase is Stopping ==> {
            &&& self.claim_accepted
            &&& self.cancel_requested
            &&& self.releases_issued == 0
            &&& self.outcome is None
        })
        &&& (self.phase is Releasing ==> {
            &&& self.claim_accepted
            &&& self.releases_issued == 1
            &&& self.outcome is Some
            &&& (self.cancel_requested ==> self.outcome == Some(EnrollOutcome::Cancelled))
        })
        &&& (self.phase is Done ==> {
            &&& (self.claim_accepted ==> self.releases_issued == 1)
            &&& (!self.claim_accepted ==> self.releases_issued == 0)
            &&& self.outcome is Some
            &&& (self.cancel_requested ==> self.outcome == Some(EnrollOutcome::Cancelled))
        })
    }

    /// Starts an enrollment session; the caller must now issue the
    /// claim call for this username.
    pub fn begin(username: String, finger_id: String) -> (f: EnrollFlow)
        ensures
            f.wf(),
            f.spec_phase() is Claiming,
            f.spec_username() == username@,
            f.spec_finger_id() == finger_id@,
            f.spec_stages_passed() == 0,
            f.spec_releases() == 0,
            !f.spec_cancel_requested(),
    {
        EnrollFlow {
            username,
            finger_id,
            phase: EnrollPhase::Claiming,
            claim_accepted: false,
            cancel_requested: false,
            stages_passed: 0,
            total_stages: None,
            releases_issued: 0,
            stops_issued: 0,
            outcome: None,
        }
    }

    /// Consumes the claim call's outcome. A rejected claim ends the
    /// session at once: the error and the terminal event are emitted,
    /// no further state transition happens and nothing is released.
    pub fn on_claim_result(&mut self, r: Result<(), AppError>, sink: &mut Vec<EnrollUpdate>) -> (a:
        EnrollAction)
        requires
            old(self).wf(),
            old(self).spec_phase() is Claiming,
        ensures
            final(self).wf(),
            final(self).spec_username() == old(self).spec_username(),
            final(self).spec_finger_id() == old(self).spec_finger_id(),
            r is Ok ==> {
                &&& final(self).spec_phase() is QueryingStages
                &&& final(self).spec_claim_accepted()
                &&& a is QueryStages
                &&& final(sink)@ == old(sink)@
            },
            r matches Err(e) ==> {
                &&& final(self).spec_phase() is Done
                &&& !final(self).spec_claim_accepted()
                &&& final(self).spec_releases() == 0
                &&& final(self).spec_outcome() == Some(EnrollOutcome::Faulted)
                &&& a is Finished
                &&& final(sink)@ == old(sink)@.push(EnrollUpdate::OperationError(e)).push(
                    EnrollUpdate::Finished(EnrollOutcome::Faulted),
                )
            },
    {
        match r {
            Ok(_) => {
                self.claim_accepted = true;
                self.phase = EnrollPhase::QueryingStages;
                EnrollAction::QueryStages
            },
            Err(e) => {
                self.outcome = Some(EnrollOutcome::Faulted);
                self.phase = EnrollPhase::Done;
                sink.push(EnrollUpdate::OperationError(e));
                sink.push(EnrollUpdate::Finished(EnrollOutcome::Faulted));
                EnrollAction::Finished
            },
        }
    }

    /// Consumes the stage-count query's reply. The query is best-effort:
    /// a failure or a non-positive count degrades to an unknown count,
    /// never to an error. The "started" event is emitted either way.
    pub fn on_stage_count(&mut self, count: Result<i32, AppError>, sink: &mut Vec<
        EnrollUpdate,
    >) -> (a: EnrollAction)
        requires
            old(self).wf(),
            old(self).spec_phase() is QueryingStages,
        ensures
            final(self).wf(),
            final(self).spec_username() == old(self).spec_username(),
            final(self).spec_finger_id() == old(self).spec_finger_id(),
            final(self).spec_phase() is Starting,
            final(self).spec_total_stages() == spec_total_of(count),
            a is StartEnroll,
            final(sink)@ == old(sink)@.push(EnrollUpdate::Started(spec_total_of(count))),
    {
        let total: Option<u32> = match count {
            Ok(n) => if n > 0 {
                Some(n as u32)
            } else {
                None
            },
            Err(_) => None,
        };
        self.total_stages = total;
        self.phase = EnrollPhase::Starting;
        sink.push(EnrollUpdate::Started(total));
        EnrollAction::StartEnroll
    }

    /// Consumes the enroll-start call's outcome. A start failure must
    /// not leave the device claimed: the error is emitted and exactly
    /// one release request is handed out.
    pub fn on_start_result(&mut self, r: Result<(), AppError>, sink: &mut Vec<EnrollUpdate>) -> (a:
        EnrollAction)
        requires
            old(self).wf(),
            old(self).spec_phase() is Starting,
        ensures
            final(self).wf(),
            final(self).spec_username() == old(self).spec_username(),
            final(self).spec_finger_id() == old(self).spec_finger_id(),
            r is Ok ==> {
                &&& final(self).spec_phase() is Subscribing
                &&& a is Subscribe
                &&& final(sink)@ == old(sink)@
            },
            r matches Err(e) ==> {
                &&& final(self).spec_phase() is Releasing
                &&& final(self).spec_releases() == 1
                &&& final(self).spec_outcome() == Some(EnrollOutcome::Faulted)
                &&& a is Release
                &&& final(sink)@ == old(sink)@.push(EnrollUpdate::OperationError(e))
            },
    {
        match r {
            Ok(_) => {
                self.phase = EnrollPhase::Subscribing;
                EnrollAction::Subscribe
            },
            Err(e) => {
                self.outcome = Some(EnrollOutcome::Faulted);
                self.releases_issued = 1;
                self.phase = EnrollPhase::Releasing;
                sink.push(EnrollUpdate::OperationError(e));
                EnrollAction::Release
            },
        }
    }

    /// Consumes the outcome of subscribing to the status signal stream.
    /// A subscription failure releases the claim, like a start failure.
    pub fn on_subscribe_result(&mut self, r: Result<(), AppError>, sink: &mut Vec<
        EnrollUpdate,
    >) -> (a: EnrollAction)
        requires
            old(self).wf(),
            old(self).spec_phase() is Subscribing,
        ensures
            final(self).wf(),
            final(self).spec_username() == old(self).spec_username(),
            final(self).spec_finger_id() == old(self).spec_finger_id(),
            r is Ok ==> {
                &&& final(self).spec_phase() is Streaming
                &&& a is AwaitSignal
                &&& final(sink)@ == old(sink)@
            },
            r matches Err(e) ==> {
                &&& final(self).spec_phase() is Releasing
                &&& final(self).spec_releases() == 1
                &&& final(self).spec_outcome() == Some(EnrollOutcome::Faulted)
                &&& a is Release
                &&& final(sink)@ == old(sink)@.push(EnrollUpdate::OperationError(e))
            },
    {
        match r {
            Ok(_) => {
                self.phase = EnrollPhase::Streaming;
                EnrollAction::AwaitSignal
            },
            Err(e) => {
                self.outcome = Some(EnrollOutcome::Faulted);
                self.releases_issued = 1;
                self.phase = EnrollPhase::Releasing;
                sink.push(EnrollUpdate::OperationError(e));
                EnrollAction::Release
            },
        }
    }

    /// Consumes one status signal. Every signal emits exactly one
    /// progress event, in arrival order; a stage-passed code advances
    /// the stage counter first. A done signal ends the stream and hands
    /// out the one release request, with the outcome its code names.
    pub fn on_signal(&mut self, code: &str, done: bool, sink: &mut Vec<EnrollUpdate>) -> (a:
        EnrollAction)
        requires
            old(self).wf(),
            old(self).spec_phase() is Streaming,
        ensures
            final(self).wf(),
            final(self).spec_username() == old(self).spec_username(),
            final(self).spec_finger_id() == old(self).spec_finger_id(),
            final(self).spec_stages_passed() == spec_next_stage(
                old(self).spec_stages_passed(),
                code@,
            ),
            final(sink)@.len() == old(sink)@.len() + 1,
            final(sink)@ == old(sink)@.push(final(sink)@.last()),
            final(sink)@.last() matches EnrollUpdate::Progress { message, stages_passed } && (
            message@ == spec_status_message(code@) && stages_passed == final(self)
                .spec_stages_passed()),
            !done ==> {
                &&& final(self).spec_phase() is Streaming
                &&& a is AwaitSignal
            },
            done ==> {
                &&& final(self).spec_phase() is Releasing
                &&& final(self).spec_releases() == 1
                &&& final(self).spec_outcome() == Some(spec_outcome_of(code@))
                &&& a is Release
            },
    {
        if str_eq(code, "enroll-stage-passed") && self.stages_passed < u32::MAX {
            self.stages_passed = self.stages_passed + 1;
        }
        let message = status_message(code);
        sink.push(EnrollUpdate::Progress { message, stages_passed: self.stages_passed });
        if done {
            let oc: EnrollOutcome = if str_eq(code, "enroll-completed") {
                EnrollOutcome::Completed
            } else if str_eq(code, "enroll-cancelled") {
                EnrollOutcome::Cancelled
            } else {
                EnrollOutcome::Failed
            };
            self.outcome = Some(oc);
            self.releases_issued = 1;
            self.phase = EnrollPhase::Releasing;
            EnrollAction::Release
        } else {
            EnrollAction::AwaitSignal
        }
    }

    /// Consumes a signal that could not be parsed: a structured unknown
    /// error is emitted, the stream loop terminates, and the one release
    /// request is handed out.
    pub fn on_signal_parse_failure(&mut self, sink: &mut Vec<EnrollUpdate>) -> (a: EnrollAction)
        requires
            old(self).wf(),
            old(self).spec_phase() is Streaming,
        ensures
            final(self).wf(),
            final(self).spec_username() == old(self).spec_username(),
            final(self).spec_finger_id() == old(self).spec_finger_id(),
            final(self).spec_phase() is Releasing,
            final(self).spec_releases() == 1,
            final(self).spec_outcome() == Some(EnrollOutcome::Faulted),
            a is Release,
            final(sink)@.len() == old(sink)@.len() + 1,
            final(sink)@ == old(sink)@.push(final(sink)@.last()),
            final(sink)@.last() matches EnrollUpdate::OperationError(e) && (e matches
            AppError::Unknown(m) && m@ == "Failed to parse signal"@),
    {
        sink.push(EnrollUpdate::OperationError(AppError::Unknown("Failed to parse signal"
            .to_owned())));
        self.outcome = Some(EnrollOutcome::Faulted);
        self.releases_issued = 1;
        self.phase = EnrollPhase::Releasing;
        EnrollAction::Release
    }

    /// Consumes the end of the signal stream (the remote side closed
    /// it): the session failed, and the one release request is handed
    /// out.
    pub fn on_stream_ended(&mut self) -> (a: EnrollAction)
        requires
            old(self).wf(),
            old(self).spec_phase() is Streaming,
        ensures
            final(self).wf(),
            final(self).spec_username() == old(self).spec_username(),
            final(self).spec_finger_id() == old(self).spec_finger_id(),
            final(self).spec_phase() is Releasing,
            final(self).spec_releases() == 1,
            final(self).spec_outcome() == Some(EnrollOutcome::Failed),
            a is Release,
    {
        self.outcome = Some(EnrollOutcome::Failed);
        self.releases_issued = 1;
        self.phase = EnrollPhase::Releasing;
        EnrollAction::Release
    }

    /// Requests cooperative cancellation, observed between stream
    /// iterations: a best-effort stop request is handed out first.
    pub fn cancel(&mut self) -> (a: EnrollAction)
        requires
            old(self).wf(),
            old(self).spec_phase() is Streaming,
        ensures
            final(self).wf(),
            final(self).spec_username() == old(self).spec_username(),
            final(self).spec_finger_id() == old(self).spec_finger_id(),
            final(self).spec_phase() is Stopping,
            final(self).spec_cancel_requested(),
            final(self).spec_stops() == 1,
            final(self).spec_releases() == 0,
            a is StopEnroll,
    {
        self.cancel_requested = true;
        self.stops_issued = 1;
        self.phase = EnrollPhase::Stopping;
        EnrollAction::StopEnroll
    }

    /// Consumes the stop call's outcome, which is ignored: cancellation
    /// proceeds to release whether or not the stop call failed, and the
    /// session's outcome is `Cancelled`, not an error.
    pub fn on_stop_result(&mut self, r: Result<(), AppError>) -> (a: EnrollAction)
        requires
            old(self).wf(),
            old(self).spec_phase() is Stopping,
        ensures
            final(self).wf(),
            final(self).spec_username() == old(self).spec_username(),
            final(self).spec_finger_id() == old(self).spec_finger_id(),
            final(self).spec_phase() is Releasing,
            final(self).spec_releases() == 1,
            final(self).spec_outcome() == Some(EnrollOutcome::Cancelled),
            a is Release,
    {
        let _ = r;
        self.outcome = Some(EnrollOutcome::Cancelled);
        self.releases_issued = 1;
        self.phase = EnrollPhase::Releasing;
        EnrollAction::Release
    }

    /// Consumes the release call's outcome, which is best-effort and
    /// never changes the session's outcome, and emits the terminal
    /// event — exactly one per session.
    pub fn on_release_result(&mut self, r: Result<(), AppError>, sink: &mut Vec<
        EnrollUpdate,
    >) -> (a: EnrollAction)
        requires
            old(self).wf(),
            old(self).spec_phase() is Releasing,
        ensures
            final(self).wf(),
            final(self).spec_username() == old(self).spec_username(),
            final(self).spec_finger_id() == old(self).spec_finger_id(),
            final(self).spec_phase() is Done,
            final(self).spec_releases() == 1,
            final(self).spec_outcome() == old(self).spec_outcome(),
            a is Finished,
            old(self).spec_outcome() matches Some(oc) && final(sink)@ == old(sink)@.push(
                EnrollUpdate::Finished(oc),
            ),
    {
        let _ = r;
        self.phase = EnrollPhase::Done;
        let oc: EnrollOutcome = match self.outcome {
            Some(oc) => oc,
            None => EnrollOutcome::Failed,
        };
        sink.push(EnrollUpdate::Finished(oc));
        EnrollAction::Finished
    }

    /// The username this session is scoped to.
    pub fn username(&self) -> (r: &str)
        ensures
            r@ == self.spec_username(),
    {
        self.username.as_str()
    }

    /// The finger being enrolled.
    pub fn finger_id(&self) -> (r: &str)
        ensures
            r@ == self.spec_finger_id(),
    {
        self.finger_id.as_str()
    }

    /// The session's outcome, once it has one.
    pub fn outcome(&self) -> (r: Option<EnrollOutcome>)
        ensures
            r == self.spec_outcome(),
    {
        self.outcome
    }

    /// The stages passed so far.
    pub fn stages_passed(&self) -> (r: u32)
        ensures
            r == self.spec_stages_passed(),
    {
        self.stages_passed
    }

    /// Whether the session has finished.
    pub fn is_done(&self) -> (r: bool)
        ensures
            r == (self.spec_phase() is Done),
    {
        match self.phase {
            EnrollPhase::Done => true,
            _ => false,
        }
    }
}

/// Law: once an enrollment session has finished, a release was
/// requested exactly once when the claim was accepted — on every
/// terminal path: done signal, stream end, parse failure or
/// cancellation — and never when the claim was rejected.
pub proof fn lemma_enroll_release_exactly_once(f: EnrollFlow)
    requires
        f.wf(),
        f.spec_phase() is Done,
    ensures
        f.spec_claim_accepted() ==> f.spec_releases() == 1,
        !f.spec_claim_accepted() ==> f.spec_releases() == 0,
{
}

/// Law: a session in which cancellation was requested finishes with the
/// `Cancelled` outcome — not an error — and exactly one release request,
/// whatever the best-effort stop call returned.
pub proof fn lemma_cancelled_session(f: EnrollFlow)
    requires
        f.wf(),
        f.spec_phase() is Done,
        f.spec_cancel_requested(),
    ensures
        f.spec_outcome() == Some(EnrollOutcome::Cancelled),
        f.spec_releases() == 1,
{
}

} // verus!
