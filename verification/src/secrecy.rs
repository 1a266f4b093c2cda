//! A capture as a whole, from what is asked for to what is told and kept, and that
//! nothing of the secret is in either.
use vstd::prelude::*;
use vstd::string::*;

use crate::clock::{expired, saturating, ClockModel};
use crate::flow::{
    activation_tried, capture_planned, capture_provisioned, capture_reported, clean_up_told,
    expiry_checked, given_up_next, prompted, stored, tried, CaptureReportModel, CaptureStepModel,
};
use crate::lifecycle::{capture_activated, cleanup_errors, cleanup_finalized, handle_given_up};
use crate::record::ActionModel;
use crate::requests::CaptureModel;
use crate::secret::environment_fault;
use crate::state::{pruned, StateModel, MAX_RECORDS};
use crate::text::trimmed;
use crate::validate::state_written;

verus! {

/// All that a capture meets besides the secret, whatever it may be: what the state
/// file, the keyring and the helpers answer.
pub struct Surroundings {
    pub handle: Seq<char>,
    pub owner: Seq<char>,
    /// The clock when the record is made, looked at and activated, and the time at
    /// which it is cleaned up.
    pub made_at: ClockModel,
    pub checked_at: ClockModel,
    pub activated_at: ClockModel,
    pub cleaned_at: u64,
    /// Whether the capture is cancelled by the time that the user has answered, the
    /// secret is stored, and the record is activated.
    pub cancelled_asking: bool,
    pub cancelled_storing: bool,
    pub cancelled_activating: bool,
    /// The state that is read at an access, given the one that was kept last, or
    /// why none is.
    pub read: spec_fn(int, StateModel) -> Result<StateModel, Seq<char>>,
    /// The state that is kept of an access, given the one that was read and the one
    /// that is written, and what went wrong.
    pub kept: spec_fn(int, StateModel, StateModel) -> (StateModel, Option<Seq<char>>),
    /// The state that is kept while the secret is stored, and what went wrong.
    pub storing: spec_fn(StateModel) -> (StateModel, Option<Seq<char>>),
    /// What goes wrong when the helper and the keyring entry are removed.
    pub removing: spec_fn(ActionModel) -> (Option<Seq<char>>, Option<Seq<char>>),
}

/// What a capture ends with: what is told, and the state that is kept.
#[verifier::ext_equal]
pub struct CaptureEnd {
    pub told: Result<CaptureReportModel, Seq<char>>,
    pub state: StateModel,
}

/// One access to the state: it is read, changed, made ready and kept.
pub open spec fn accessed<T>(
    around: Surroundings,
    turn: int,
    last: StateModel,
    change: spec_fn(StateModel) -> Result<(StateModel, T), Seq<char>>,
) -> (StateModel, Result<T, Seq<char>>) {
    match (around.read)(turn, last) {
        Err(e) => (last, Err(e)),
        Ok(found) => match change(found) {
            Err(e) => (found, Err(e)),
            Ok((changed, value)) => match state_written(changed) {
                Err(e) => (found, Err(e)),
                Ok(written) => match (around.kept)(turn, found, written) {
                    (kept, Some(e)) => (kept, Err(e)),
                    (kept, None) => (kept, Ok(value)),
                },
            },
        },
    }
}

/// What went wrong, if anything did.
pub open spec fn trouble<T>(result: Result<T, Seq<char>>) -> Option<Seq<char>> {
    match result {
        Ok(_) => None,
        Err(e) => Some(e),
    }
}

/// A capture that has failed.
pub open spec fn refusal(error: Seq<char>, state: StateModel) -> CaptureEnd {
    CaptureEnd { told: Err(error), state }
}

/// How a capture ends whose record is given up.
pub open spec fn end_of_giving_up(
    around: Surroundings,
    step: CaptureStepModel,
    last: StateModel,
) -> CaptureEnd {
    match step {
        CaptureStepModel::GiveUp { target, note, reply, keep_on_mark, keep_on_cleanup } => {
            let (state, marked) = accessed(
                around,
                4,
                last,
                |s: StateModel| handle_given_up(s, around.handle, target, note),
            );
            match given_up_next(reply, keep_on_mark, keep_on_cleanup, trouble(marked)) {
                CaptureStepModel::Clean { answer, keep } => {
                    let action = marked->Ok_0;
                    let (helper, keyring) = (around.removing)(action);
                    let (end, finalized) = accessed(
                        around,
                        5,
                        state,
                        |s: StateModel|
                            match cleanup_finalized(s, action, helper, keyring, around.cleaned_at) {
                                Ok(after) => Ok((after, ())),
                                Err(e) => Err(e),
                            },
                    );
                    let failed = match finalized {
                        Err(e) => Some(e),
                        Ok(_) => cleanup_errors(helper, keyring),
                    };
                    refusal(clean_up_told(answer, keep, failed), end)
                },
                CaptureStepModel::Refused { error } => refusal(error, state),
                _ => arbitrary(),
            }
        },
        CaptureStepModel::Refused { error } => refusal(error, last),
        _ => arbitrary(),
    }
}

/// How a capture ends whose secret is stored and whose time is not up.
pub open spec fn end_of_activation(
    plan: CaptureModel,
    around: Surroundings,
    expires_at: u64,
    last: StateModel,
) -> CaptureEnd {
    let (state, activated) = accessed(
        around,
        3,
        last,
        |s: StateModel|
            match capture_activated(s, around.handle, around.activated_at) {
                Ok(after) => Ok((after, ())),
                Err(e) => Err(e),
            },
    );
    match activation_tried(trouble(activated), around.cancelled_activating) {
        CaptureStepModel::Granted => CaptureEnd {
            told: Ok(capture_reported(around.handle, plan, expires_at)),
            state,
        },
        step => end_of_giving_up(around, step, state),
    }
}

/// How a capture ends whose record is made.
pub open spec fn end_of_storing(
    plan: CaptureModel,
    around: Surroundings,
    expires_at: u64,
    last: StateModel,
) -> CaptureEnd {
    let (state, failed) = (around.storing)(last);
    match stored(failed, around.cancelled_storing) {
        CaptureStepModel::CheckExpiry => {
            let (checked, up) = accessed(
                around,
                2,
                state,
                |s: StateModel|
                    if s.records.contains_key(around.handle) {
                        Ok((s, expired(s.records[around.handle], around.checked_at)))
                    } else {
                        Err("capture state disappeared"@)
                    },
            );
            match expiry_checked(up) {
                CaptureStepModel::Activate => end_of_activation(plan, around, expires_at, checked),
                step => end_of_giving_up(around, step, checked),
            }
        },
        step => end_of_giving_up(around, step, state),
    }
}

/// How a capture ends for which a record is to be made.
pub open spec fn end_of_provisioning(
    plan: CaptureModel,
    around: Surroundings,
    last: StateModel,
) -> CaptureEnd {
    let (state, made) = accessed(
        around,
        1,
        last,
        |s: StateModel|
            match capture_provisioned(s, around.handle, plan, around.owner, around.made_at) {
                Ok(after) => Ok((after, after.records[around.handle].expires_at)),
                Err(e) => Err(e),
            },
    );
    match tried(trouble(made), CaptureStepModel::Store) {
        CaptureStepModel::Store => end_of_storing(plan, around, made->Ok_0, state),
        CaptureStepModel::Refused { error } => refusal(error, state),
        _ => arbitrary(),
    }
}

/// How a capture ends, given what is asked for and what the user answers.
pub open spec fn end_of_capture(
    request: CaptureModel,
    answer: Result<Seq<u8>, Seq<char>>,
    around: Surroundings,
    last: StateModel,
) -> CaptureEnd {
    match capture_planned(request) {
        Err(e) => refusal(e, last),
        Ok(plan) => {
            let (state, room) = accessed(
                around,
                0,
                last,
                |s: StateModel|
                    if pruned(s.records).len() < MAX_RECORDS {
                        Ok((StateModel { records: pruned(s.records), ..s }, ()))
                    } else {
                        Err("secret handle capacity has been reached"@)
                    },
            );
            match tried(trouble(room), CaptureStepModel::Prompt) {
                CaptureStepModel::Prompt => match prompted(answer, around.cancelled_asking) {
                    CaptureStepModel::Provision => end_of_provisioning(plan, around, state),
                    CaptureStepModel::Refused { error } => refusal(error, state),
                    _ => arbitrary(),
                },
                CaptureStepModel::Refused { error } => refusal(error, state),
                _ => arbitrary(),
            }
        },
    }
}

/// What is told of a capture and what is kept of it are the same for any two secrets
/// that can be handed over.
pub proof fn law_captures_tell_nothing_of_the_secret(
    request: CaptureModel,
    first: Seq<u8>,
    second: Seq<u8>,
    around: Surroundings,
    state: StateModel,
)
    requires
        environment_fault(first) is None,
        environment_fault(second) is None,
    ensures
        forall|cancelled: bool|
            prompted(Ok(first), cancelled) == #[trigger] prompted(Ok(second), cancelled),
        end_of_capture(request, Ok(first), around, state) == end_of_capture(
            request,
            Ok(second),
            around,
            state,
        ),
{
}

/// A capture that is granted is told with its handle, with what was asked for, and
/// with the time that was asked for counted from when its record was made; it is
/// told of a secret that can be handed over only.
pub proof fn law_granted_captures_are_told_as_asked(
    request: CaptureModel,
    answer: Result<Seq<u8>, Seq<char>>,
    around: Surroundings,
    state: StateModel,
)
    ensures
        end_of_capture(request, answer, around, state).told matches Ok(report) ==> {
            &&& answer is Ok && environment_fault(answer->Ok_0) is None
            &&& report == (CaptureReportModel {
                handle: around.handle,
                target: trimmed(request.target),
                label: trimmed(request.label),
                expires_at: saturating(around.made_at.wall, request.ttl_seconds),
                single_use: request.single_use,
                status: "active"@,
            })
            &&& around.made_at.wall + request.ttl_seconds <= u64::MAX ==> report.expires_at
                == around.made_at.wall + request.ttl_seconds
        },
{
}

} // verus!
