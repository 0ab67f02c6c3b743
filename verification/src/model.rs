//! The orchestrator's model: the state the presentation layer renders
//! and the decision logic applied to every event coming back from the
//! bus plumbing. Each handler updates the model and says which task the
//! plumbing must run next; the remote calls themselves never happen
//! here.

use vstd::prelude::*;
use crate::enroll::{spec_next_stage, spec_status_message, status_message};
use crate::error::{spec_message, AppError};
use crate::guard::DeleteTarget;
use crate::text::str_eq;
use crate::users::{select_user, selection_ok, UserOption};

verus! {

/// The listing without every occurrence of the named finger, order kept.
pub open spec fn spec_without(fingers: Seq<String>, name: Seq<char>) -> Seq<String>
    decreases fingers.len(),
{
    if fingers.len() == 0 {
        fingers
    } else {
        let rest = spec_without(fingers.drop_last(), name);
        if fingers.last()@ == name {
            rest
        } else {
            rest.push(fingers.last())
        }
    }
}

/// The task the plumbing must run after an event was handled.
#[derive(Debug)]
pub enum Command {
    /// Nothing to run.
    Idle,
    /// Refresh the enrolled-finger listing for the selected user.
    ListFingers,
    /// Run a guarded deletion for the selected user.
    StartDelete(DeleteTarget),
    /// Run a clear-all over every known user.
    StartClear,
}

/// The orchestrator's state: what the presentation layer renders, and
/// nothing the remote objects own.
#[derive(Debug)]
pub struct AppModel {
    /// The status line shown to the user.
    pub status: String,
    /// Whether an operation is in progress.
    pub busy: bool,
    /// Whether a device was discovered and is usable.
    pub device_present: bool,
    /// The finger currently being enrolled, if any.
    pub enrolling_finger: Option<String>,
    /// Stages passed in the running enrollment.
    pub enroll_progress: u32,
    /// The running enrollment's stage count, when the device reported one.
    pub enroll_total_stages: Option<u32>,
    /// The known users.
    pub users: Vec<UserOption>,
    /// The selected user.
    pub selected_user: Option<UserOption>,
    /// The enrolled fingers of the selected user.
    pub enrolled_fingers: Vec<String>,
    /// Whether clearing the device awaits its confirmation press.
    pub confirm_clear: bool,
}

impl AppModel {
    /// The initial model: connecting, busy, with the invoking user
    /// preselected when one was resolved.
    pub fn new(initial_user: Option<UserOption>) -> (m: AppModel)
        ensures
            m.status@ == "Connecting to system bus..."@,
            m.busy,
            !m.device_present,
            m.enrolling_finger is None,
            m.enroll_progress == 0,
            m.enroll_total_stages is None,
            m.users@.len() == 0,
            m.selected_user == initial_user,
            m.enrolled_fingers@.len() == 0,
            !m.confirm_clear,
    {
        AppModel {
            status: "Connecting to system bus...".to_owned(),
            busy: true,
            device_present: false,
            enrolling_finger: None,
            enroll_progress: 0,
            enroll_total_stages: None,
            users: Vec::new(),
            selected_user: initial_user,
            enrolled_fingers: Vec::new(),
            confirm_clear: false,
        }
    }

    /// The bus connection is up: discovery begins.
    pub fn on_connection_ready(&mut self)
        ensures
            final(self).status@ == "Searching for fingerprint device..."@,
            final(self).busy == old(self).busy,
            final(self).device_present == old(self).device_present,
            final(self).enrolling_finger == old(self).enrolling_finger,
            final(self).enroll_progress == old(self).enroll_progress,
            final(self).enroll_total_stages == old(self).enroll_total_stages,
            final(self).users == old(self).users,
            final(self).selected_user == old(self).selected_user,
            final(self).enrolled_fingers == old(self).enrolled_fingers,
            final(self).confirm_clear == old(self).confirm_clear,
    {
        self.status = "Searching for fingerprint device...".to_owned();
    }

    /// A refreshed user directory arrived: adopt it, re-select the user
    /// (keeping the previous selection when its username still appears,
    /// else the first entry, else none), and refresh the finger listing
    /// when a device and a selection are at hand.
    pub fn on_users_found(&mut self, users: Vec<UserOption>) -> (c: Command)
        ensures
            final(self).users@ == users@,
            selection_ok(users@, old(self).selected_user, final(self).selected_user),
            final(self).status == old(self).status,
            final(self).busy == old(self).busy,
            final(self).device_present == old(self).device_present,
            final(self).enrolling_finger == old(self).enrolling_finger,
            final(self).enroll_progress == old(self).enroll_progress,
            final(self).enroll_total_stages == old(self).enroll_total_stages,
            final(self).enrolled_fingers == old(self).enrolled_fingers,
            final(self).confirm_clear == old(self).confirm_clear,
            c is ListFingers || c is Idle,
            (c is ListFingers) == (final(self).device_present && final(self).selected_user
                is Some),
    {
        self.users = users;
        let sel = select_user(&self.users, self.selected_user.as_ref());
        self.selected_user = sel;
        if self.device_present && self.selected_user.is_some() {
            Command::ListFingers
        } else {
            Command::Idle
        }
    }

    /// The user picked an entry. Ignored while an operation runs;
    /// otherwise the selection changes, the stale finger listing is
    /// dropped and refreshed when a device is at hand.
    pub fn on_user_selected(&mut self, user: UserOption) -> (c: Command)
        ensures
            old(self).busy ==> {
                &&& *final(self) == *old(self)
                &&& c is Idle
            },
            !old(self).busy ==> {
                &&& final(self).selected_user == Some(user)
                &&& final(self).enrolled_fingers@.len() == 0
                &&& !final(self).confirm_clear
                &&& final(self).status == old(self).status
                &&& final(self).busy == old(self).busy
                &&& final(self).device_present == old(self).device_present
                &&& final(self).enrolling_finger == old(self).enrolling_finger
                &&& final(self).enroll_progress == old(self).enroll_progress
                &&& final(self).enroll_total_stages == old(self).enroll_total_stages
                &&& final(self).users == old(self).users
                &&& (c is ListFingers || c is Idle)
                &&& (c is ListFingers) == final(self).device_present
            },
    {
        if self.busy {
            return Command::Idle;
        }
        self.confirm_clear = false;
        self.selected_user = Some(user);
        self.enrolled_fingers = Vec::new();
        if self.device_present {
            Command::ListFingers
        } else {
            Command::Idle
        }
    }

    /// Discovery finished: either a device is at hand — operations are
    /// enabled and the selected user's fingers are listed — or none was
    /// found and the model stays busy.
    pub fn on_device_found(&mut self, present: bool) -> (c: Command)
        ensures
            final(self).device_present == present,
            present ==> {
                &&& final(self).status@ == "Fingerprint device found."@
                &&& !final(self).busy
                &&& (c is ListFingers || c is Idle)
                &&& (c is ListFingers) == (final(self).selected_user is Some)
            },
            !present ==> {
                &&& final(self).status@ == "No fingerprint device found."@
                &&& final(self).busy
                &&& c is Idle
            },
            final(self).enrolling_finger == old(self).enrolling_finger,
            final(self).enroll_progress == old(self).enroll_progress,
            final(self).enroll_total_stages == old(self).enroll_total_stages,
            final(self).users == old(self).users,
            final(self).selected_user == old(self).selected_user,
            final(self).enrolled_fingers == old(self).enrolled_fingers,
            final(self).confirm_clear == old(self).confirm_clear,
    {
        if present {
            self.device_present = true;
            self.status = "Fingerprint device found.".to_owned();
            self.busy = false;
            if self.selected_user.is_some() {
                Command::ListFingers
            } else {
                Command::Idle
            }
        } else {
            self.device_present = false;
            self.status = "No fingerprint device found.".to_owned();
            self.busy = true;
            Command::Idle
        }
    }

    /// A fresh enrolled-finger listing arrived.
    pub fn on_enrolled_fingers(&mut self, fingers: Vec<String>)
        ensures
            final(self).enrolled_fingers@ == fingers@,
            final(self).status == old(self).status,
            final(self).busy == old(self).busy,
            final(self).device_present == old(self).device_present,
            final(self).enrolling_finger == old(self).enrolling_finger,
            final(self).enroll_progress == old(self).enroll_progress,
            final(self).enroll_total_stages == old(self).enroll_total_stages,
            final(self).users == old(self).users,
            final(self).selected_user == old(self).selected_user,
            final(self).confirm_clear == old(self).confirm_clear,
    {
        self.enrolled_fingers = fingers;
    }

    /// The refreshed enrolled-finger listing's outcome: adopt the
    /// listing, or surface the failure with its context note.
    pub fn on_fingers_result(&mut self, res: Result<Vec<String>, AppError>)
        ensures
            res matches Ok(fingers) ==> {
                &&& final(self).enrolled_fingers@ == fingers@
                &&& final(self).status == old(self).status
                &&& final(self).busy == old(self).busy
                &&& final(self).enrolling_finger == old(self).enrolling_finger
            },
            res matches Err(e) ==> {
                &&& final(self).status@ == if e is Unknown {
                    "Failed to list fingers"@ + ": "@ + spec_message(e)
                } else {
                    spec_message(e)
                }
                &&& !final(self).busy
                &&& final(self).enrolling_finger is None
                &&& final(self).enrolled_fingers == old(self).enrolled_fingers
            },
            final(self).device_present == old(self).device_present,
            final(self).enroll_progress == old(self).enroll_progress,
            final(self).enroll_total_stages == old(self).enroll_total_stages,
            final(self).users == old(self).users,
            final(self).selected_user == old(self).selected_user,
            final(self).confirm_clear == old(self).confirm_clear,
    {
        match res {
            Ok(fingers) => {
                self.enrolled_fingers = fingers;
            },
            Err(e) => {
                let noted = e.with_context("Failed to list fingers");
                self.status = noted.localized_message();
                self.busy = false;
                self.enrolling_finger = None;
            },
        }
    }

    /// A structured error surfaced: show its message, end the running
    /// operation and any enrollment.
    pub fn on_operation_error(&mut self, err: &AppError)
        ensures
            final(self).status@ == spec_message(*err),
            !final(self).busy,
            final(self).enrolling_finger is None,
            final(self).device_present == old(self).device_present,
            final(self).enroll_progress == old(self).enroll_progress,
            final(self).enroll_total_stages == old(self).enroll_total_stages,
            final(self).users == old(self).users,
            final(self).selected_user == old(self).selected_user,
            final(self).enrolled_fingers == old(self).enrolled_fingers,
            final(self).confirm_clear == old(self).confirm_clear,
    {
        self.status = err.localized_message();
        self.busy = false;
        self.enrolling_finger = None;
    }

    /// Enrollment started: adopt the reported stage count (absent when
    /// the device reported none) and reset the progress counter.
    pub fn on_enroll_start(&mut self, total: Option<u32>)
        ensures
            final(self).enroll_total_stages == total,
            final(self).enroll_progress == 0,
            final(self).status@ == "Enrollment started."@,
            final(self).busy == old(self).busy,
            final(self).device_present == old(self).device_present,
            final(self).enrolling_finger == old(self).enrolling_finger,
            final(self).users == old(self).users,
            final(self).selected_user == old(self).selected_user,
            final(self).enrolled_fingers == old(self).enrolled_fingers,
            final(self).confirm_clear == old(self).confirm_clear,
    {
        self.enroll_total_stages = total;
        self.enroll_progress = 0;
        self.status = "Enrollment started.".to_owned();
    }

    /// One enrollment status signal: show its message, advance the
    /// stage counter on a passed stage, and on a done signal end the
    /// enrollment — refreshing the finger listing when it completed.
    pub fn on_enroll_status(&mut self, code: &str, done: bool) -> (c: Command)
        ensures
            final(self).status@ == spec_status_message(code@),
            final(self).enroll_progress == spec_next_stage(old(self).enroll_progress, code@),
            done ==> !final(self).busy && final(self).enrolling_finger is None,
            !done ==> final(self).busy == old(self).busy && final(self).enrolling_finger == old(self)
                .enrolling_finger,
            c is ListFingers || c is Idle,
            (c is ListFingers) == (done && code@ == "enroll-completed"@ && final(self)
                .device_present && final(self).selected_user is Some),
            final(self).device_present == old(self).device_present,
            final(self).enroll_total_stages == old(self).enroll_total_stages,
            final(self).users == old(self).users,
            final(self).selected_user == old(self).selected_user,
            final(self).enrolled_fingers == old(self).enrolled_fingers,
            final(self).confirm_clear == old(self).confirm_clear,
    {
        if str_eq(code, "enroll-stage-passed") && self.enroll_progress < u32::MAX {
            self.enroll_progress = self.enroll_progress + 1;
        }
        self.status = status_message(code);
        if done {
            self.busy = false;
            self.enrolling_finger = None;
            if str_eq(code, "enroll-completed") && self.device_present
                && self.selected_user.is_some() {
                return Command::ListFingers;
            }
        }
        Command::Idle
    }

    /// A deletion finished: drop the deleted finger from the listing —
    /// or the whole listing after a bulk deletion.
    pub fn on_delete_complete(&mut self, finger_id: Option<&str>)
        ensures
            final(self).status@ == "Fingerprint deleted."@,
            !final(self).busy,
            match finger_id {
                Some(f) => final(self).enrolled_fingers@ == spec_without(
                    old(self).enrolled_fingers@,
                    f@,
                ),
                None => final(self).enrolled_fingers@.len() == 0,
            },
            final(self).device_present == old(self).device_present,
            final(self).enrolling_finger == old(self).enrolling_finger,
            final(self).enroll_progress == old(self).enroll_progress,
            final(self).enroll_total_stages == old(self).enroll_total_stages,
            final(self).users == old(self).users,
            final(self).selected_user == old(self).selected_user,
            final(self).confirm_clear == old(self).confirm_clear,
    {
        self.status = "Fingerprint deleted.".to_owned();
        self.busy = false;
        match finger_id {
            Some(f) => {
                let mut kept: Vec<String> = Vec::new();
                let mut i: usize = 0;
                proof {
                    assert(self.enrolled_fingers@.subrange(0, 0) =~= Seq::<String>::empty());
                }
                while i < self.enrolled_fingers.len()
                    invariant
                        0 <= i <= self.enrolled_fingers@.len(),
                        kept@ == spec_without(self.enrolled_fingers@.subrange(0, i as int), f@),
                    decreases self.enrolled_fingers@.len() - i,
                {
                    let ghost prefix = self.enrolled_fingers@.subrange(0, i as int);
                    let ghost next_prefix = self.enrolled_fingers@.subrange(0, i as int + 1);
                    if !str_eq(self.enrolled_fingers[i].as_str(), f) {
                        kept.push(self.enrolled_fingers[i].clone());
                    }
                    proof {
                        assert(next_prefix.drop_last() =~= prefix);
                        assert(next_prefix.last() == self.enrolled_fingers@[i as int]);
                        assert(kept@ == spec_without(next_prefix, f@));
                    }
                    i = i + 1;
                }
                proof {
                    assert(self.enrolled_fingers@.subrange(
                        0,
                        self.enrolled_fingers@.len() as int,
                    ) =~= self.enrolled_fingers@);
                }
                self.enrolled_fingers = kept;
            },
            None => {
                self.enrolled_fingers = Vec::new();
            },
        }
    }

    /// A clear-all finished: report success, or the last recorded
    /// error's message, and end the operation.
    pub fn on_clear_complete(&mut self, res: Result<(), AppError>)
        ensures
            !final(self).busy,
            res is Ok ==> {
                &&& final(self).status@ == "Device cleared."@
                &&& final(self).enrolled_fingers@.len() == 0
            },
            res matches Err(e) ==> {
                &&& final(self).status@ == spec_message(e)
                &&& final(self).enrolled_fingers == old(self).enrolled_fingers
            },
            final(self).device_present == old(self).device_present,
            final(self).enrolling_finger == old(self).enrolling_finger,
            final(self).enroll_progress == old(self).enroll_progress,
            final(self).enroll_total_stages == old(self).enroll_total_stages,
            final(self).users == old(self).users,
            final(self).selected_user == old(self).selected_user,
            final(self).confirm_clear == old(self).confirm_clear,
    {
        match res {
            Ok(_) => {
                self.status = "Device cleared.".to_owned();
                self.enrolled_fingers = Vec::new();
            },
            Err(e) => {
                self.status = e.localized_message();
            },
        }
        self.busy = false;
    }

    /// The user asked to enroll the shown finger. Only possible with a
    /// device, a selected user and a finger page; the enrollment session
    /// itself is then started by the plumbing.
    pub fn on_register(&mut self, finger_id: Option<&str>)
        ensures
            match finger_id {
                Some(f) => (old(self).device_present && old(self).selected_user is Some) ==> {
                    &&& final(self).busy
                    &&& final(self).enrolling_finger matches Some(g) && g@ == f@
                    &&& final(self).status@ == "Starting enrollment..."@
                    &&& final(self).device_present == old(self).device_present
                    &&& final(self).enroll_progress == old(self).enroll_progress
                    &&& final(self).enroll_total_stages == old(self).enroll_total_stages
                    &&& final(self).users == old(self).users
                    &&& final(self).selected_user == old(self).selected_user
                    &&& final(self).enrolled_fingers == old(self).enrolled_fingers
                    &&& final(self).confirm_clear == old(self).confirm_clear
                },
                None => *final(self) == *old(self),
            },
            !(old(self).device_present && old(self).selected_user is Some) ==> *final(self)
                == *old(self),
    {
        if let Some(f) = finger_id {
            if self.device_present && self.selected_user.is_some() {
                self.busy = true;
                self.enrolling_finger = Some(f.to_owned());
                self.status = "Starting enrollment...".to_owned();
            }
        }
    }

    /// The user asked to clear the device. The first press only arms
    /// the confirmation; the second starts the clear-all when a device
    /// is at hand.
    pub fn on_clear_device(&mut self) -> (c: Command)
        ensures
            !old(self).confirm_clear ==> {
                &&& final(self).confirm_clear
                &&& final(self).status@
                    == "Press again to confirm clearing all enrolled fingerprints."@
                &&& final(self).busy == old(self).busy
                &&& c is Idle
            },
            old(self).confirm_clear && old(self).device_present ==> {
                &&& !final(self).confirm_clear
                &&& final(self).busy
                &&& final(self).status@ == "Clearing device..."@
                &&& c is StartClear
            },
            old(self).confirm_clear && !old(self).device_present ==> {
                &&& *final(self) == *old(self)
                &&& c is Idle
            },
            final(self).device_present == old(self).device_present,
            final(self).enrolling_finger == old(self).enrolling_finger,
            final(self).enroll_progress == old(self).enroll_progress,
            final(self).enroll_total_stages == old(self).enroll_total_stages,
            final(self).users == old(self).users,
            final(self).selected_user == old(self).selected_user,
            final(self).enrolled_fingers == old(self).enrolled_fingers,
    {
        if !self.confirm_clear {
            self.confirm_clear = true;
            self.status = "Press again to confirm clearing all enrolled fingerprints."
                .to_owned();
            return Command::Idle;
        }
        if self.device_present {
            self.status = "Clearing device...".to_owned();
            self.busy = true;
            self.confirm_clear = false;
            return Command::StartClear;
        }
        Command::Idle
    }

    /// The user asked to delete the shown finger — or, on the bulk
    /// page, every finger of the selected user. Only possible with a
    /// device and a selected user.
    pub fn on_delete(&mut self, finger_id: Option<&str>) -> (c: Command)
        ensures
            (old(self).device_present && old(self).selected_user is Some) ==> {
                &&& final(self).status@ == "Deleting..."@
                &&& final(self).busy
                &&& match finger_id {
                    Some(f) => c matches Command::StartDelete(t) && (t matches DeleteTarget::Finger(
                        g,
                    ) && g@ == f@),
                    None => c matches Command::StartDelete(t) && t is AllForUser,
                }
                &&& final(self).device_present == old(self).device_present
                &&& final(self).enrolling_finger == old(self).enrolling_finger
                &&& final(self).enroll_progress == old(self).enroll_progress
                &&& final(self).enroll_total_stages == old(self).enroll_total_stages
                &&& final(self).users == old(self).users
                &&& final(self).selected_user == old(self).selected_user
                &&& final(self).enrolled_fingers == old(self).enrolled_fingers
                &&& final(self).confirm_clear == old(self).confirm_clear
            },
            !(old(self).device_present && old(self).selected_user is Some) ==> {
                &&& *final(self) == *old(self)
                &&& c is Idle
            },
    {
        if self.device_present && self.selected_user.is_some() {
            self.status = "Deleting...".to_owned();
            self.busy = true;
            match finger_id {
                Some(f) => Command::StartDelete(DeleteTarget::Finger(f.to_owned())),
                None => Command::StartDelete(DeleteTarget::AllForUser),
            }
        } else {
            Command::Idle
        }
    }
}

} // verus!
