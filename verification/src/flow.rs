//! What is done step by step when a secret is captured, deleted, stored or run
//! with, and what is told of it.
use vstd::prelude::*;
use vstd::string::*;

use crate::clock::{expired, record_expired, Clock, ClockModel};
use crate::keyring::answer_of;
use crate::lifecycle::{
    optional_action, provisioned, provisioning_record, text_fault, validate_text, validate_ttl,
    with_record, MAX_TTL_SECONDS,
};
use crate::process::{both, both_errors};
use crate::record::{
    optional_text, ActionModel, CaptureFence, CaptureFenceModel, ClaimModel, CleanupAction,
    LifecycleStatus, RunClaim,
};
use crate::requests::{CaptureModel, CaptureRequest};
use crate::run::{
    append_cleanup_error, with_cleanup, ClaimDecision, ClaimDecisionModel, LaunchError,
};
use crate::secret::{environment_fault, validate_secret_for_environment, SecretBytes};
use crate::state::{ensure_capture_capacity, pruned, State, StateModel, MAX_RECORDS};
use crate::text::{failure, joined, same_text, separated, separated_text, trim, trimmed, verdict};
use crate::token::{fresh_handle, handle_named, random_digits};

verus! {

// ---------------------------------------------------------------------------
// Capture
// ---------------------------------------------------------------------------

/// The capture that is done when one is asked for: with its texts trimmed, and
/// with the time that was asked for or not at all.
pub open spec fn capture_planned(request: CaptureModel) -> Result<CaptureModel, Seq<char>> {
    match text_fault(request.target, "target"@) {
        Some(fault) => Err(fault),
        None => match text_fault(request.label, "label"@) {
            Some(fault) => Err(fault),
            None => if 1 <= request.ttl_seconds <= MAX_TTL_SECONDS {
                Ok(
                    CaptureModel {
                        target: trimmed(request.target),
                        label: trimmed(request.label),
                        ..request
                    },
                )
            } else {
                Err("ttl_seconds must be between 1 and 86400"@)
            },
        },
    }
}

/// The capture that is done when one is asked for.
pub fn plan_capture(request: &CaptureRequest) -> (result: Result<CaptureRequest, String>)
    ensures
        match result {
            Ok(plan) => capture_planned(request@) == Ok::<CaptureModel, Seq<char>>(plan@),
            Err(e) => capture_planned(request@) == Err::<CaptureModel, Seq<char>>(e@),
        },
{
    match validate_text(request.target.as_str(), "target") {
        Err(e) => {
            return Err(e);
        },
        Ok(_) => {},
    }
    match validate_text(request.label.as_str(), "label") {
        Err(e) => {
            return Err(e);
        },
        Ok(_) => {},
    }
    match validate_ttl(request.ttl_seconds) {
        Err(e) => Err(e),
        Ok(ttl_seconds) => Ok(
            CaptureRequest {
                target: trim(request.target.as_str()),
                label: trim(request.label.as_str()),
                ttl_seconds,
                single_use: request.single_use,
            },
        ),
    }
}

/// What has to be done next in a capture, or how it ended.
#[derive(Debug)]
pub enum CaptureStep {
    /// The user has to be asked for the secret.
    Prompt,
    /// A record has to be made.
    Provision,
    /// The keyring has to store the secret.
    Store,
    /// It has to be found out whether the time of the record is up.
    CheckExpiry,
    /// The record has to be activated.
    Activate,
    /// The record has to be given up: towards a final status, with a note, and
    /// with a reply to the user. `keep_on_mark` and `keep_on_cleanup` say whether
    /// the reply is kept when giving up or cleaning up fails.
    GiveUp {
        target: LifecycleStatus,
        note: String,
        reply: String,
        keep_on_mark: bool,
        keep_on_cleanup: bool,
    },
    /// The record has to be cleaned up.
    Clean { answer: String, keep: bool },
    /// The handle may be used.
    Granted,
    /// The capture has failed.
    Refused { error: String },
}

/// What a step stands for.
#[verifier::ext_equal]
pub enum CaptureStepModel {
    Prompt,
    Provision,
    Store,
    CheckExpiry,
    Activate,
    GiveUp {
        target: LifecycleStatus,
        note: Seq<char>,
        reply: Seq<char>,
        keep_on_mark: bool,
        keep_on_cleanup: bool,
    },
    Clean { answer: Seq<char>, keep: bool },
    Granted,
    Refused { error: Seq<char> },
}

impl View for CaptureStep {
    type V = CaptureStepModel;

    open spec fn view(&self) -> CaptureStepModel {
        match self {
            CaptureStep::Prompt => CaptureStepModel::Prompt,
            CaptureStep::Provision => CaptureStepModel::Provision,
            CaptureStep::Store => CaptureStepModel::Store,
            CaptureStep::CheckExpiry => CaptureStepModel::CheckExpiry,
            CaptureStep::Activate => CaptureStepModel::Activate,
            CaptureStep::GiveUp { target, note, reply, keep_on_mark, keep_on_cleanup } =>
                CaptureStepModel::GiveUp {
                target: *target,
                note: note@,
                reply: reply@,
                keep_on_mark: *keep_on_mark,
                keep_on_cleanup: *keep_on_cleanup,
            },
            CaptureStep::Clean { answer, keep } => CaptureStepModel::Clean {
                answer: answer@,
                keep: *keep,
            },
            CaptureStep::Granted => CaptureStepModel::Granted,
            CaptureStep::Refused { error } => CaptureStepModel::Refused { error: error@ },
        }
    }
}

/// What follows a step that is simply tried.
pub open spec fn tried(failed: Option<Seq<char>>, next: CaptureStepModel) -> CaptureStepModel {
    match failed {
        Some(error) => CaptureStepModel::Refused { error },
        None => next,
    }
}

/// What follows the attempt to make room for a record.
pub fn after_room(result: Result<(), String>) -> (step: CaptureStep)
    ensures
        step@ == tried(failure(result), CaptureStepModel::Prompt),
{
    match result {
        Err(error) => CaptureStep::Refused { error },
        Ok(_) => CaptureStep::Prompt,
    }
}

/// What an answer of the user stands for.
pub open spec fn entered(answer: Result<SecretBytes, String>) -> Result<Seq<u8>, Seq<char>> {
    match answer {
        Ok(secret) => Ok(secret@),
        Err(e) => Err(e@),
    }
}

/// What follows the answer of the user: a record is made only for a secret that
/// can be handed over and is still wanted.
pub open spec fn prompted(answer: Result<Seq<u8>, Seq<char>>, cancelled: bool) -> CaptureStepModel {
    match answer {
        Err(error) => CaptureStepModel::Refused { error },
        Ok(secret) => match environment_fault(secret) {
            Some(error) => CaptureStepModel::Refused { error },
            None => if cancelled {
                CaptureStepModel::Refused { error: "secret capture was cancelled"@ }
            } else {
                CaptureStepModel::Provision
            },
        },
    }
}

/// What follows the answer of the user.
pub fn after_prompt(answer: &Result<SecretBytes, String>, cancelled: bool) -> (step: CaptureStep)
    ensures
        step@ == prompted(entered(*answer), cancelled),
{
    match answer {
        Err(error) => CaptureStep::Refused { error: error.clone() },
        Ok(secret) => match validate_secret_for_environment(secret.as_slice()) {
            Err(error) => CaptureStep::Refused { error },
            Ok(_) => {
                if cancelled {
                    CaptureStep::Refused { error: "secret capture was cancelled".to_owned() }
                } else {
                    CaptureStep::Provision
                }
            },
        },
    }
}

/// What making a record under a handle makes of the state, if there is room for it.
pub open spec fn capture_provisioned(
    state: StateModel,
    handle: Seq<char>,
    plan: CaptureModel,
    owner: Seq<char>,
    clock: ClockModel,
) -> Result<StateModel, Seq<char>> {
    if pruned(state.records).len() >= MAX_RECORDS {
        Err("secret handle capacity has been reached"@)
    } else {
        Ok(
            with_record(
                StateModel { records: pruned(state.records), ..state },
                handle,
                provisioned(
                    handle,
                    plan.target,
                    plan.label,
                    plan.ttl_seconds,
                    plan.single_use,
                    owner,
                    clock,
                ),
            ),
        )
    }
}

/// Makes a record under a handle, if there is room for it.
pub fn provision_under(
    state: &mut State,
    handle: &str,
    plan: &CaptureRequest,
    owner: &str,
    clock: &Clock,
) -> (result: Result<CaptureFence, String>)
    requires
        old(state).wf(),
    ensures
        final(state).wf(),
        ({
            let made = capture_provisioned(old(state)@, handle@, plan@, owner@, clock@);
            match result {
                Ok(fence) => made == Ok::<StateModel, Seq<char>>(final(state)@) && fence@ == (
                CaptureFenceModel { handle: handle@, generation: 1 }),
                Err(e) => made == Err::<StateModel, Seq<char>>(e@) && final(state)@ == (
                StateModel { records: pruned(old(state)@.records), ..old(state)@ }),
            }
        }),
{
    match ensure_capture_capacity(state) {
        Err(e) => Err(e),
        Ok(_) => {
            let record = provisioning_record(
                handle,
                plan.target.as_str(),
                plan.label.as_str(),
                plan.ttl_seconds,
                plan.single_use,
                owner,
                clock,
            );
            state.records.insert(handle.to_owned(), record);
            Ok(CaptureFence { handle: handle.to_owned(), generation: 1 })
        },
    }
}

/// Makes a record under a new handle, if there is room for it.
pub fn provision_capture(state: &mut State, plan: &CaptureRequest, owner: &str, clock: &Clock) -> (result:
    Result<CaptureFence, String>)
    requires
        old(state).wf(),
    ensures
        final(state).wf(),
        match result {
            Ok(fence) => exists|id: Seq<char>|
                {
                    let handle = #[trigger] handle_named(id);
                    &&& random_digits(id)
                    &&& fence@ == (CaptureFenceModel { handle, generation: 1 })
                    &&& capture_provisioned(old(state)@, handle, plan@, owner@, clock@) == Ok::<
                        StateModel,
                        Seq<char>,
                    >(final(state)@)
                },
            Err(e) => pruned(old(state)@.records).len() >= MAX_RECORDS && final(state)@ == (
            StateModel { records: pruned(old(state)@.records), ..old(state)@ }) && e@
                == "secret handle capacity has been reached"@,
        },
{
    let handle = fresh_handle();
    provision_under(state, handle.as_str(), plan, owner, clock)
}

/// What follows the attempt to make a record.
pub fn after_provision(result: Result<(), String>) -> (step: CaptureStep)
    ensures
        step@ == tried(failure(result), CaptureStepModel::Store),
{
    match result {
        Err(error) => CaptureStep::Refused { error },
        Ok(_) => CaptureStep::Store,
    }
}

/// What follows the attempt to store the secret. From here on there is a record,
/// and it is given up before a failure is told.
pub open spec fn stored(failed: Option<Seq<char>>, cancelled: bool) -> CaptureStepModel {
    match failed {
        Some(error) => CaptureStepModel::GiveUp {
            target: LifecycleStatus::Deleted,
            note: error,
            reply: error,
            keep_on_mark: true,
            keep_on_cleanup: true,
        },
        None => if cancelled {
            CaptureStepModel::GiveUp {
                target: LifecycleStatus::Deleted,
                note: "capture was cancelled after keyring store"@,
                reply: "secret capture was cancelled"@,
                keep_on_mark: false,
                keep_on_cleanup: true,
            }
        } else {
            CaptureStepModel::CheckExpiry
        },
    }
}

/// What follows the attempt to store the secret.
pub fn after_store(result: Result<(), String>, cancelled: bool) -> (step: CaptureStep)
    ensures
        step@ == stored(failure(result), cancelled),
{
    match result {
        Err(error) => CaptureStep::GiveUp {
            target: LifecycleStatus::Deleted,
            note: error.clone(),
            reply: error,
            keep_on_mark: true,
            keep_on_cleanup: true,
        },
        Ok(_) => {
            if cancelled {
                CaptureStep::GiveUp {
                    target: LifecycleStatus::Deleted,
                    note: "capture was cancelled after keyring store".to_owned(),
                    reply: "secret capture was cancelled".to_owned(),
                    keep_on_mark: false,
                    keep_on_cleanup: true,
                }
            } else {
                CaptureStep::CheckExpiry
            }
        },
    }
}

/// Whether the time of a record that was just made is up.
pub fn capture_expired(state: &State, handle: &str, clock: &Clock) -> (result: Result<bool, String>)
    requires
        state.wf(),
    ensures
        match result {
            Ok(up) => state@.records.contains_key(handle@) && up == expired(
                state@.records[handle@],
                clock@,
            ),
            Err(e) => !state@.records.contains_key(handle@) && e@ == "capture state disappeared"@,
        },
{
    match state.records.get(handle) {
        Some(record) => Ok(record_expired(record, clock)),
        None => Err("capture state disappeared".to_owned()),
    }
}

/// What follows finding out whether the time of the record is up.
pub open spec fn expiry_checked(answer: Result<bool, Seq<char>>) -> CaptureStepModel {
    match answer {
        Err(error) => CaptureStepModel::Refused { error },
        Ok(up) => if up {
            CaptureStepModel::GiveUp {
                target: LifecycleStatus::Expired,
                note: "capture expired before activation"@,
                reply: "capture expired before activation"@,
                keep_on_mark: false,
                keep_on_cleanup: false,
            }
        } else {
            CaptureStepModel::Activate
        },
    }
}

/// What follows finding out whether the time of the record is up.
pub fn after_expiry_check(answer: Result<bool, String>) -> (step: CaptureStep)
    ensures
        step@ == expiry_checked(answer_of(answer)),
{
    match answer {
        Err(error) => CaptureStep::Refused { error },
        Ok(up) => {
            if up {
                CaptureStep::GiveUp {
                    target: LifecycleStatus::Expired,
                    note: "capture expired before activation".to_owned(),
                    reply: "capture expired before activation".to_owned(),
                    keep_on_mark: false,
                    keep_on_cleanup: false,
                }
            } else {
                CaptureStep::Activate
            }
        },
    }
}

/// What follows the attempt to activate the record. A handle that nobody waits
/// for any more is given up again.
pub open spec fn activation_tried(failed: Option<Seq<char>>, cancelled: bool) -> CaptureStepModel {
    match failed {
        Some(error) => CaptureStepModel::GiveUp {
            target: if error == "capture expired before activation"@ {
                LifecycleStatus::Expired
            } else {
                LifecycleStatus::Deleted
            },
            note: error,
            reply: error,
            keep_on_mark: false,
            keep_on_cleanup: true,
        },
        None => if cancelled {
            CaptureStepModel::GiveUp {
                target: LifecycleStatus::Deleted,
                note: "capture was cancelled before response"@,
                reply: "secret capture was cancelled"@,
                keep_on_mark: false,
                keep_on_cleanup: true,
            }
        } else {
            CaptureStepModel::Granted
        },
    }
}

/// What follows the attempt to activate the record.
pub fn after_activate(result: Result<(), String>, cancelled: bool) -> (step: CaptureStep)
    ensures
        step@ == activation_tried(failure(result), cancelled),
{
    match result {
        Err(error) => {
            let target = if same_text(error.as_str(), "capture expired before activation") {
                LifecycleStatus::Expired
            } else {
                LifecycleStatus::Deleted
            };
            CaptureStep::GiveUp {
                target,
                note: error.clone(),
                reply: error,
                keep_on_mark: false,
                keep_on_cleanup: true,
            }
        },
        Ok(_) => {
            if cancelled {
                CaptureStep::GiveUp {
                    target: LifecycleStatus::Deleted,
                    note: "capture was cancelled before response".to_owned(),
                    reply: "secret capture was cancelled".to_owned(),
                    keep_on_mark: false,
                    keep_on_cleanup: true,
                }
            } else {
                CaptureStep::Granted
            }
        },
    }
}

/// A message with what is left to be cleaned up.
pub open spec fn still_pending(message: Seq<char>, left: Seq<char>) -> Seq<char> {
    message + "; cleanup pending: "@ + left
}

/// A message with what is left to be cleaned up.
pub fn pending_message(message: &str, left: &str) -> (text: String)
    ensures
        text@ == still_pending(message@, left@),
{
    let head = joined(message, "; cleanup pending: ");
    joined(head.as_str(), left)
}

/// What follows the attempt to give the record up.
pub open spec fn given_up_next(
    reply: Seq<char>,
    keep_on_mark: bool,
    keep_on_cleanup: bool,
    failed: Option<Seq<char>>,
) -> CaptureStepModel {
    match failed {
        None => CaptureStepModel::Clean { answer: reply, keep: keep_on_cleanup },
        Some(error) => CaptureStepModel::Refused {
            error: if keep_on_mark {
                still_pending(reply, "state fence unavailable"@)
            } else {
                error
            },
        },
    }
}

/// What follows the attempt to give the record up.
pub fn after_give_up(
    reply: String,
    keep_on_mark: bool,
    keep_on_cleanup: bool,
    result: Result<(), String>,
) -> (step: CaptureStep)
    ensures
        step@ == given_up_next(reply@, keep_on_mark, keep_on_cleanup, failure(result)),
{
    match result {
        Ok(_) => CaptureStep::Clean { answer: reply, keep: keep_on_cleanup },
        Err(error) => {
            if keep_on_mark {
                CaptureStep::Refused {
                    error: pending_message(reply.as_str(), "state fence unavailable"),
                }
            } else {
                CaptureStep::Refused { error }
            }
        },
    }
}

/// What is told once the record was cleaned up, or was not.
pub open spec fn clean_up_told(reply: Seq<char>, keep: bool, failed: Option<Seq<char>>) -> Seq<
    char,
> {
    match failed {
        None => reply,
        Some(error) => if keep {
            still_pending(reply, error)
        } else {
            error
        },
    }
}

/// What is told once the record was cleaned up, or was not.
pub fn after_clean(reply: String, keep: bool, result: Result<(), String>) -> (error: String)
    ensures
        error@ == clean_up_told(reply@, keep, failure(result)),
{
    match result {
        Ok(_) => reply,
        Err(error) => {
            if keep {
                pending_message(reply.as_str(), error.as_str())
            } else {
                error
            }
        },
    }
}

/// A handle is granted only after its record was activated and while somebody
/// waits for it; a prompt that was cancelled makes no record; and once there is
/// a record, a failed store or activation leads to giving it up.
pub proof fn law_capture_leaves_nothing_behind(
    answer: Result<Seq<u8>, Seq<char>>,
    cancelled: bool,
    failed: Option<Seq<char>>,
    checked: Result<bool, Seq<char>>,
)
    ensures
        prompted(answer, cancelled) == CaptureStepModel::Provision ==> !cancelled && answer is Ok
            && environment_fault(answer->Ok_0) is None,
        stored(failed, cancelled) == CaptureStepModel::CheckExpiry <==> failed is None
            && !cancelled,
        stored(failed, cancelled) == CaptureStepModel::CheckExpiry || stored(
            failed,
            cancelled,
        ) is GiveUp,
        expiry_checked(checked) == CaptureStepModel::Activate <==> checked == Ok::<
            bool,
            Seq<char>,
        >(false),
        activation_tried(failed, cancelled) == CaptureStepModel::Granted <==> failed is None
            && !cancelled,
        activation_tried(failed, cancelled) == CaptureStepModel::Granted || activation_tried(
            failed,
            cancelled,
        ) is GiveUp,
{
}

// ---------------------------------------------------------------------------
// Deletion
// ---------------------------------------------------------------------------

/// Why a deletion is not even tried.
pub open spec fn delete_fault(handle: Seq<char>, cancelled: bool) -> Option<Seq<char>> {
    match text_fault(handle, "handle"@) {
        Some(fault) => Some(fault),
        None => if cancelled {
            Some("operation was cancelled"@)
        } else {
            None
        },
    }
}

/// Whether a deletion is tried.
pub fn check_delete(handle: &str, cancelled: bool) -> (result: Result<(), String>)
    ensures
        verdict(result, delete_fault(handle@, cancelled)),
{
    match validate_text(handle, "handle") {
        Err(e) => Err(e),
        Ok(_) => {
            if cancelled {
                return Err("operation was cancelled".to_owned());
            }
            Ok(())
        },
    }
}

// ---------------------------------------------------------------------------
// Commands
// ---------------------------------------------------------------------------

/// The parts of running a helper program, in their order. Those from `Note` to
/// `Write` and `Clear` are for a helper that stores a secret.
#[derive(Debug, Clone, Copy, PartialEq, Eq, Structural)]
pub enum HelperPhase {
    /// A control group is made.
    Create,
    /// The control group is fenced.
    Fence,
    /// The program is started in it.
    Spawn,
    /// What was started is noted at the record.
    Note,
    /// Its input is taken.
    Connect,
    /// The secret is written to it.
    Write,
    /// Its end is waited for.
    Wait,
    /// It is forgotten at the record.
    Clear,
}

/// What has to be done next for a helper, or how it ended.
#[derive(Debug)]
pub enum HelperStep {
    Do(HelperPhase),
    /// Nothing was done.
    Refuse(String),
    /// The control group has to be killed, and then this is told.
    Undo(String),
    /// The control group has to be killed and forgotten: nothing was started.
    Unstarted,
    /// The helper has to be ended and its control group forgotten, and then this
    /// is told.
    Unnoted(String),
    /// The helper has to be ended and forgotten, and its control group too.
    Unwritable,
    /// The control group has to be forgotten, and then this is told.
    Unfinished(String),
    /// The control group has to be forgotten, and then the outcome is told.
    Ended,
}

/// What a step stands for.
#[verifier::ext_equal]
pub enum HelperStepModel {
    Do(HelperPhase),
    Refuse(Seq<char>),
    Undo(Seq<char>),
    Unstarted,
    Unnoted(Seq<char>),
    Unwritable,
    Unfinished(Seq<char>),
    Ended,
}

impl View for HelperStep {
    type V = HelperStepModel;

    open spec fn view(&self) -> HelperStepModel {
        match self {
            HelperStep::Do(phase) => HelperStepModel::Do(*phase),
            HelperStep::Refuse(error) => HelperStepModel::Refuse(error@),
            HelperStep::Undo(error) => HelperStepModel::Undo(error@),
            HelperStep::Unstarted => HelperStepModel::Unstarted,
            HelperStep::Unnoted(error) => HelperStepModel::Unnoted(error@),
            HelperStep::Unwritable => HelperStepModel::Unwritable,
            HelperStep::Unfinished(error) => HelperStepModel::Unfinished(error@),
            HelperStep::Ended => HelperStepModel::Ended,
        }
    }
}

/// What follows a part that went well.
pub open spec fn helper_goes_on(phase: HelperPhase, stores: bool) -> HelperStepModel {
    match phase {
        HelperPhase::Create => HelperStepModel::Do(HelperPhase::Fence),
        HelperPhase::Fence => HelperStepModel::Do(HelperPhase::Spawn),
        HelperPhase::Spawn => HelperStepModel::Do(
            if stores {
                HelperPhase::Note
            } else {
                HelperPhase::Wait
            },
        ),
        HelperPhase::Note => HelperStepModel::Do(HelperPhase::Connect),
        HelperPhase::Connect => HelperStepModel::Do(HelperPhase::Write),
        HelperPhase::Write => HelperStepModel::Do(HelperPhase::Wait),
        HelperPhase::Wait => if stores {
            HelperStepModel::Do(HelperPhase::Clear)
        } else {
            HelperStepModel::Ended
        },
        HelperPhase::Clear => HelperStepModel::Ended,
    }
}

/// What follows a part that failed. A helper that did not take all of the secret
/// is still waited for, and one that could not be forgotten at its record still
/// has its control group forgotten.
pub open spec fn helper_fails(phase: HelperPhase, error: Seq<char>) -> HelperStepModel {
    match phase {
        HelperPhase::Create => HelperStepModel::Refuse(error),
        HelperPhase::Fence => HelperStepModel::Undo(error),
        HelperPhase::Spawn => HelperStepModel::Unstarted,
        HelperPhase::Note => HelperStepModel::Unnoted(error),
        HelperPhase::Connect => HelperStepModel::Unwritable,
        HelperPhase::Write => HelperStepModel::Do(HelperPhase::Wait),
        HelperPhase::Wait => HelperStepModel::Unfinished(error),
        HelperPhase::Clear => HelperStepModel::Ended,
    }
}

/// What follows a part that went well.
pub fn helper_next(phase: HelperPhase, stores: bool) -> (step: HelperStep)
    ensures
        step@ == helper_goes_on(phase, stores),
{
    match phase {
        HelperPhase::Create => HelperStep::Do(HelperPhase::Fence),
        HelperPhase::Fence => HelperStep::Do(HelperPhase::Spawn),
        HelperPhase::Spawn => {
            if stores {
                HelperStep::Do(HelperPhase::Note)
            } else {
                HelperStep::Do(HelperPhase::Wait)
            }
        },
        HelperPhase::Note => HelperStep::Do(HelperPhase::Connect),
        HelperPhase::Connect => HelperStep::Do(HelperPhase::Write),
        HelperPhase::Write => HelperStep::Do(HelperPhase::Wait),
        HelperPhase::Wait => {
            if stores {
                HelperStep::Do(HelperPhase::Clear)
            } else {
                HelperStep::Ended
            }
        },
        HelperPhase::Clear => HelperStep::Ended,
    }
}

/// What follows a part that failed.
pub fn helper_failed(phase: HelperPhase, error: String) -> (step: HelperStep)
    ensures
        step@ == helper_fails(phase, error@),
{
    match phase {
        HelperPhase::Create => HelperStep::Refuse(error),
        HelperPhase::Fence => HelperStep::Undo(error),
        HelperPhase::Spawn => HelperStep::Unstarted,
        HelperPhase::Note => HelperStep::Unnoted(error),
        HelperPhase::Connect => HelperStep::Unwritable,
        HelperPhase::Write => HelperStep::Do(HelperPhase::Wait),
        HelperPhase::Wait => HelperStep::Unfinished(error),
        HelperPhase::Clear => HelperStep::Ended,
    }
}

/// A helper is started only in a control group that was fenced; a secret is
/// written only to a helper that was noted; and once there is a control group, no
/// failure is told before it was seen to.
pub proof fn law_helpers_are_fenced_before_they_start(
    phase: HelperPhase,
    stores: bool,
    error: Seq<char>,
)
    ensures
        helper_goes_on(phase, stores) == HelperStepModel::Do(HelperPhase::Spawn) <==> phase
            == HelperPhase::Fence,
        helper_goes_on(phase, stores) == HelperStepModel::Do(HelperPhase::Fence) <==> phase
            == HelperPhase::Create,
        helper_goes_on(phase, stores) == HelperStepModel::Do(HelperPhase::Write) <==> phase
            == HelperPhase::Connect,
        helper_goes_on(phase, stores) == HelperStepModel::Do(HelperPhase::Connect) <==> phase
            == HelperPhase::Note,
        !(helper_goes_on(phase, stores) is Refuse),
        helper_fails(phase, error) is Refuse <==> phase == HelperPhase::Create,
        helper_fails(phase, error) is Do ==> helper_fails(phase, error) == HelperStepModel::Do(
            HelperPhase::Wait,
        ),
{
}

/// A message with one more part, if there is an error to tell.
pub open spec fn with_part(message: Seq<char>, label: Seq<char>, error: Option<Seq<char>>) -> Seq<
    char,
> {
    match error {
        Some(e) => message + label + e,
        None => message,
    }
}

/// A message with one more part, if there is an error to tell.
pub fn message_with_part(message: String, label: &str, error: &Option<String>) -> (text: String)
    ensures
        text@ == with_part(message@, label@, optional_text(*error)),
{
    match error {
        Some(e) => {
            let head = joined(message.as_str(), label);
            joined(head.as_str(), e.as_str())
        },
        None => message,
    }
}

/// The error of a result, if it has one.
pub fn error_of(result: &Result<(), String>) -> (error: Option<String>)
    ensures
        optional_text(error) == failure(*result),
{
    match result {
        Err(e) => Some(e.clone()),
        Ok(_) => None,
    }
}

/// What is told of a command that could not be started.
pub open spec fn not_started(
    what: Seq<char>,
    cleanup: Option<Seq<char>>,
    forget: Option<Seq<char>>,
) -> Seq<char> {
    with_part(with_cleanup(what, cleanup), "; cgroup metadata cleanup failed: "@, forget)
}

/// What is told of a command that could not be started.
pub fn not_started_message(what: &str, cleanup: &Result<(), String>, forget: &Result<(), String>) -> (text:
    String)
    ensures
        text@ == not_started(what@, failure(*cleanup), failure(*forget)),
{
    let head = append_cleanup_error(what.to_owned(), cleanup);
    let error = error_of(forget);
    message_with_part(head, "; cgroup metadata cleanup failed: ", &error)
}

/// The outcome of a command, once its control group was to be forgotten.
pub open spec fn command_told(waited: Option<Seq<char>>, forget: Option<Seq<char>>) -> Option<
    Seq<char>,
> {
    match (waited, forget) {
        (_, None) => waited,
        (None, Some(f)) => Some("operation cgroup metadata cleanup failed: "@ + f),
        (Some(w), Some(f)) => Some(w + "; operation cgroup metadata cleanup failed: "@ + f),
    }
}

/// The outcome of a command, once its control group was to be forgotten.
pub fn command_outcome(waited: &Option<String>, forget: &Result<(), String>) -> (result: Result<
    (),
    String,
>)
    ensures
        verdict(result, command_told(optional_text(*waited), failure(*forget))),
{
    match (waited, forget) {
        (None, Ok(_)) => Ok(()),
        (Some(w), Ok(_)) => Err(w.clone()),
        (None, Err(f)) => Err(joined("operation cgroup metadata cleanup failed: ", f.as_str())),
        (Some(w), Err(f)) => {
            let head = joined(w.as_str(), "; operation cgroup metadata cleanup failed: ");
            Err(joined(head.as_str(), f.as_str()))
        },
    }
}

// ---------------------------------------------------------------------------
// Storing a secret
// ---------------------------------------------------------------------------

/// What is told of a store whose helper could not be noted.
pub open spec fn store_unnoted(
    error: Seq<char>,
    cleanup: Option<Seq<char>>,
    forget: Option<Seq<char>>,
) -> Seq<char> {
    with_part(
        with_part(error, "; helper cleanup pending: "@, cleanup),
        "; cgroup metadata cleanup failed: "@,
        forget,
    )
}

/// What is told of a store whose helper could not be noted.
pub fn store_unnoted_message(error: String, cleanup: &Option<String>, forget: &Result<(), String>) -> (text:
    String)
    ensures
        text@ == store_unnoted(error@, optional_text(*cleanup), failure(*forget)),
{
    let head = message_with_part(error, "; helper cleanup pending: ", cleanup);
    let last = error_of(forget);
    message_with_part(head, "; cgroup metadata cleanup failed: ", &last)
}

/// What is told of a store whose helper cannot be written to.
pub open spec fn store_unwritable(
    cleanup: Option<Seq<char>>,
    clear: Option<Seq<char>>,
    forget: Option<Seq<char>>,
) -> Seq<char> {
    with_part(
        with_part(
            with_part("OS keyring stdin is unavailable"@, "; helper cleanup pending: "@, cleanup),
            "; helper metadata cleanup failed: "@,
            clear,
        ),
        "; cgroup metadata cleanup failed: "@,
        forget,
    )
}

/// What is told of a store whose helper cannot be written to.
pub fn store_unwritable_message(
    cleanup: &Option<String>,
    clear: &Result<(), String>,
    forget: &Result<(), String>,
) -> (text: String)
    ensures
        text@ == store_unwritable(optional_text(*cleanup), failure(*clear), failure(*forget)),
{
    let head = message_with_part(
        "OS keyring stdin is unavailable".to_owned(),
        "; helper cleanup pending: ",
        cleanup,
    );
    let clear_error = error_of(clear);
    let middle = message_with_part(head, "; helper metadata cleanup failed: ", &clear_error);
    let forget_error = error_of(forget);
    message_with_part(middle, "; cgroup metadata cleanup failed: ", &forget_error)
}

/// What is told of a store whose helper did not end well.
pub open spec fn store_unfinished(
    write: Option<Seq<char>>,
    wait: Seq<char>,
    forget: Option<Seq<char>>,
) -> Seq<char> {
    with_part(
        match write {
            Some(w) => separated(w, wait),
            None => wait,
        } + "; helper cleanup pending"@,
        "; cgroup metadata cleanup failed: "@,
        forget,
    )
}

/// What is told of a store whose helper did not end well.
pub fn store_unfinished_message(
    write: &Result<(), String>,
    wait: &str,
    forget: &Result<(), String>,
) -> (text: String)
    ensures
        text@ == store_unfinished(failure(*write), wait@, failure(*forget)),
{
    let head = match write {
        Err(w) => separated_text(w.as_str(), wait),
        Ok(_) => wait.to_owned(),
    };
    let middle = joined(head.as_str(), "; helper cleanup pending");
    let last = error_of(forget);
    message_with_part(middle, "; cgroup metadata cleanup failed: ", &last)
}

/// The outcome of a store whose helper has ended: it has succeeded only if its
/// traces are gone, all of the secret was written and the keyring took it.
pub open spec fn store_told(
    clear: Option<Seq<char>>,
    forget: Option<Seq<char>>,
    write: Option<Seq<char>>,
    succeeded: bool,
) -> Option<Seq<char>> {
    if clear is Some {
        Some(
            with_part(
                "helper metadata cleanup failed: "@ + clear->0,
                "; cgroup metadata cleanup failed: "@,
                forget,
            ),
        )
    } else if forget is Some {
        forget
    } else if write is Some {
        write
    } else if !succeeded {
        Some("OS keyring rejected the secret"@)
    } else {
        None
    }
}

/// The outcome of a store whose helper has ended.
pub fn store_outcome(
    clear: &Result<(), String>,
    forget: &Result<(), String>,
    write: &Result<(), String>,
    succeeded: bool,
) -> (result: Result<(), String>)
    ensures
        verdict(result, store_told(failure(*clear), failure(*forget), failure(*write), succeeded)),
{
    match clear {
        Err(c) => {
            let head = joined("helper metadata cleanup failed: ", c.as_str());
            let last = error_of(forget);
            return Err(message_with_part(head, "; cgroup metadata cleanup failed: ", &last));
        },
        Ok(_) => {},
    }
    match forget {
        Err(f) => {
            return Err(f.clone());
        },
        Ok(_) => {},
    }
    match write {
        Err(w) => {
            return Err(w.clone());
        },
        Ok(_) => {},
    }
    if succeeded {
        Ok(())
    } else {
        Err("OS keyring rejected the secret".to_owned())
    }
}

/// What became of one attempt to write more of the secret.
#[derive(Debug, Clone, Copy, PartialEq, Eq, Structural)]
pub enum WriteEvent {
    Wrote(usize),
    Blocked,
    Failed,
}

/// What has to be done next to write the secret.
#[derive(Debug)]
pub enum WriteStep {
    Write { written: usize },
    Poll { written: usize },
    Finished,
    Failed { error: String },
}

/// Why the writing of a secret fails after an attempt to write more of it.
pub open spec fn write_fault(event: WriteEvent, out_of_time: bool) -> Option<Seq<char>> {
    match event {
        WriteEvent::Wrote(count) => if count == 0 {
            Some("OS keyring rejected the secret"@)
        } else {
            None
        },
        WriteEvent::Blocked => if out_of_time {
            Some("OS keyring write timed out"@)
        } else {
            None
        },
        WriteEvent::Failed => Some("OS keyring rejected the secret"@),
    }
}

/// Whether more of the secret has to be written.
pub fn next_write(written: usize, total: usize, cancelled: bool) -> (step: WriteStep)
    ensures
        match step {
            WriteStep::Write { written: w } => w == written && written < total && !cancelled,
            WriteStep::Finished => written >= total,
            WriteStep::Failed { error } => written < total && cancelled && error@
                == "operation was cancelled"@,
            WriteStep::Poll { written: _ } => false,
        },
{
    if written >= total {
        WriteStep::Finished
    } else if cancelled {
        WriteStep::Failed { error: "operation was cancelled".to_owned() }
    } else {
        WriteStep::Write { written }
    }
}

/// What follows one attempt to write more of the secret.
pub fn after_write(written: usize, total: usize, event: WriteEvent, out_of_time: bool) -> (step:
    WriteStep)
    requires
        written < total,
        event matches WriteEvent::Wrote(count) ==> count <= total - written,
    ensures
        match step {
            WriteStep::Write { written: w } => write_fault(event, out_of_time) is None && event
                == WriteEvent::Wrote((w - written) as usize) && w > written,
            WriteStep::Poll { written: w } => write_fault(event, out_of_time) is None && event
                == WriteEvent::Blocked && w == written,
            WriteStep::Failed { error } => write_fault(event, out_of_time) == Some(error@),
            WriteStep::Finished => false,
        },
{
    match event {
        WriteEvent::Wrote(count) => {
            if count == 0 {
                return WriteStep::Failed { error: "OS keyring rejected the secret".to_owned() };
            }
            WriteStep::Write { written: written + count }
        },
        WriteEvent::Blocked => {
            if out_of_time {
                return WriteStep::Failed { error: "OS keyring write timed out".to_owned() };
            }
            WriteStep::Poll { written }
        },
        WriteEvent::Failed => WriteStep::Failed {
            error: "OS keyring rejected the secret".to_owned(),
        },
    }
}

/// What follows waiting until more of the secret can be written: `failed` says
/// that it could not be waited for, `broken` that the helper takes no more.
pub fn after_write_poll(failed: bool, broken: bool) -> (result: Result<(), String>)
    ensures
        verdict(
            result,
            if failed {
                Some("OS keyring write could not be polled"@)
            } else if broken {
                Some("OS keyring rejected the secret"@)
            } else {
                None
            },
        ),
{
    if failed {
        return Err("OS keyring write could not be polled".to_owned());
    }
    if broken {
        return Err("OS keyring rejected the secret".to_owned());
    }
    Ok(())
}

// ---------------------------------------------------------------------------
// A run
// ---------------------------------------------------------------------------

/// What is told when a claim is handed back because of an error.
pub open spec fn handed_back_told(error: Seq<char>, restore: Option<Seq<char>>) -> Seq<char> {
    with_part(error, "; claim restoration failed: "@, restore)
}

/// What is told when a claim is handed back because of an error.
pub fn handed_back_message(error: String, restore: &Result<(), String>) -> (text: String)
    ensures
        text@ == handed_back_told(error@, failure(*restore)),
{
    let last = error_of(restore);
    message_with_part(error, "; claim restoration failed: ", &last)
}

/// What has to be done next in a run, or how it ended.
#[derive(Debug)]
pub enum RunStep {
    /// The handle has to be claimed.
    Claim,
    /// The record of a handle whose time is up has to be cleaned up.
    Close,
    /// The keyring has to give the secret out.
    Lookup,
    /// The operation has to be launched.
    Launch,
    /// The operation has to be waited for.
    Wait,
    /// The claim has to be handed back, and then this is told.
    HandBack { reason: String },
    /// The run has to be ended: for sure, or with an error that leaves its
    /// outcome open.
    Finish { doubt: Option<String> },
    /// The run has ended, and its result is told.
    Report,
    /// The run has failed.
    Refused { error: String },
}

/// What a step stands for.
#[verifier::ext_equal]
pub enum RunStepModel {
    Claim,
    Close,
    Lookup,
    Launch,
    Wait,
    HandBack { reason: Seq<char> },
    Finish { doubt: Option<Seq<char>> },
    Report,
    Refused { error: Seq<char> },
}

impl View for RunStep {
    type V = RunStepModel;

    open spec fn view(&self) -> RunStepModel {
        match self {
            RunStep::Claim => RunStepModel::Claim,
            RunStep::Close => RunStepModel::Close,
            RunStep::Lookup => RunStepModel::Lookup,
            RunStep::Launch => RunStepModel::Launch,
            RunStep::Wait => RunStepModel::Wait,
            RunStep::HandBack { reason } => RunStepModel::HandBack { reason: reason@ },
            RunStep::Finish { doubt } => RunStepModel::Finish { doubt: optional_text(*doubt) },
            RunStep::Report => RunStepModel::Report,
            RunStep::Refused { error } => RunStepModel::Refused { error: error@ },
        }
    }
}

/// What follows looking for the operation and at the handle.
pub open spec fn operation_loaded(failed: Option<Seq<char>>, handle: Seq<char>) -> RunStepModel {
    match failed {
        Some(error) => RunStepModel::Refused { error },
        None => match text_fault(handle, "handle"@) {
            Some(error) => RunStepModel::Refused { error },
            None => RunStepModel::Claim,
        },
    }
}

/// What follows looking for the operation: nothing is claimed for one that may
/// not be run.
pub fn after_load(result: Result<(), String>, handle: &str) -> (step: RunStep)
    ensures
        step@ == operation_loaded(failure(result), handle@),
{
    match result {
        Err(error) => RunStep::Refused { error },
        Ok(_) => match validate_text(handle, "handle") {
            Err(error) => RunStep::Refused { error },
            Ok(_) => RunStep::Claim,
        },
    }
}

/// What follows the attempt to claim the handle.
pub open spec fn claim_tried(answer: Result<ClaimDecisionModel, Seq<char>>) -> RunStepModel {
    match answer {
        Err(error) => RunStepModel::Refused { error },
        Ok(ClaimDecisionModel::Granted(_)) => RunStepModel::Lookup,
        Ok(ClaimDecisionModel::Expired(_)) => RunStepModel::Close,
        Ok(ClaimDecisionModel::Refused) => RunStepModel::Refused { error: "handle is not active"@ },
    }
}

/// What an answer to a claim stands for.
pub open spec fn claim_answer(answer: Result<ClaimDecision, String>) -> Result<
    ClaimDecisionModel,
    Seq<char>,
> {
    match answer {
        Ok(decision) => Ok(decision@),
        Err(e) => Err(e@),
    }
}

/// What follows the attempt to claim the handle.
pub fn after_claim(answer: &Result<ClaimDecision, String>) -> (step: RunStep)
    ensures
        step@ == claim_tried(claim_answer(*answer)),
{
    match answer {
        Err(error) => RunStep::Refused { error: error.clone() },
        Ok(ClaimDecision::Granted(_)) => RunStep::Lookup,
        Ok(ClaimDecision::Expired(_)) => RunStep::Close,
        Ok(ClaimDecision::Refused) => RunStep::Refused {
            error: "handle is not active".to_owned(),
        },
    }
}

/// What is told of a handle whose time is up, once it was cleaned up or was not.
pub fn after_close(result: Result<(), String>) -> (step: RunStep)
    ensures
        step@ == (RunStepModel::Refused {
            error: match failure(result) {
                Some(error) => error,
                None => "handle has expired"@,
            },
        }),
{
    match result {
        Err(error) => RunStep::Refused { error },
        Ok(_) => RunStep::Refused { error: "handle has expired".to_owned() },
    }
}

/// What follows the answer of the keyring: a claim that no secret was found for
/// is handed back.
pub open spec fn lookup_tried(failed: Option<Seq<char>>) -> RunStepModel {
    match failed {
        Some(reason) => RunStepModel::HandBack { reason },
        None => RunStepModel::Launch,
    }
}

/// What follows the answer of the keyring.
pub fn after_lookup(result: Result<(), String>) -> (step: RunStep)
    ensures
        step@ == lookup_tried(failure(result)),
{
    match result {
        Err(reason) => RunStep::HandBack { reason },
        Ok(_) => RunStep::Launch,
    }
}

/// What follows the launch: a claim is handed back only if it is certain that
/// nothing was started.
pub open spec fn launch_tried(failed: Option<(Seq<char>, bool)>) -> RunStepModel {
    match failed {
        Some((error, uncertain)) => if uncertain {
            RunStepModel::Refused { error }
        } else {
            RunStepModel::HandBack { reason: error }
        },
        None => RunStepModel::Wait,
    }
}

/// What a failed launch stands for.
pub open spec fn launch_failure_of(result: Result<(), LaunchError>) -> Option<(Seq<char>, bool)> {
    match result {
        Ok(_) => None,
        Err(error) => Some((error.message@, error.uncertain)),
    }
}

/// What follows the launch.
pub fn after_launch(result: Result<(), LaunchError>) -> (step: RunStep)
    ensures
        step@ == launch_tried(launch_failure_of(result)),
{
    match result {
        Err(error) => {
            if error.uncertain {
                RunStep::Refused { error: error.message }
            } else {
                RunStep::HandBack { reason: error.message }
            }
        },
        Ok(_) => RunStep::Wait,
    }
}

/// What is told once a claim was handed back.
pub fn after_hand_back(reason: String, restore: &Result<(), String>) -> (step: RunStep)
    ensures
        step@ == (RunStepModel::Refused { error: handed_back_told(reason@, failure(*restore)) }),
{
    RunStep::Refused { error: handed_back_message(reason, restore) }
}

/// What follows the wait: whatever came of it, the run has to be ended.
pub fn after_wait(error: Option<String>) -> (step: RunStep)
    ensures
        step@ == (RunStepModel::Finish { doubt: optional_text(error) }),
{
    RunStep::Finish { doubt: error }
}

/// What follows the end of the run.
pub open spec fn finish_tried(doubt: Option<Seq<char>>, failed: Option<Seq<char>>) -> RunStepModel {
    match (doubt, failed) {
        (None, None) => RunStepModel::Report,
        (None, Some(error)) => RunStepModel::Refused { error },
        (Some(error), None) => RunStepModel::Refused { error },
        (Some(error), Some(left)) => RunStepModel::Refused { error: still_pending(error, left) },
    }
}

/// What follows the end of the run.
pub fn after_finish(doubt: Option<String>, result: Result<(), String>) -> (step: RunStep)
    ensures
        step@ == finish_tried(optional_text(doubt), failure(result)),
{
    match (doubt, result) {
        (None, Ok(_)) => RunStep::Report,
        (None, Err(error)) => RunStep::Refused { error },
        (Some(error), Ok(_)) => RunStep::Refused { error },
        (Some(error), Err(left)) => RunStep::Refused {
            error: pending_message(error.as_str(), left.as_str()),
        },
    }
}

/// An operation is launched only under a granted claim with its secret at hand; a
/// claim is handed back only where it is certain that nothing was started; and a
/// result is told only of a run that was waited for and ended without doubt.
pub proof fn law_runs_are_accounted_for(
    loaded: Option<Seq<char>>,
    handle: Seq<char>,
    claim: Result<ClaimDecisionModel, Seq<char>>,
    lookup: Option<Seq<char>>,
    launch: Option<(Seq<char>, bool)>,
    doubt: Option<Seq<char>>,
    failed: Option<Seq<char>>,
)
    ensures
        operation_loaded(loaded, handle) == RunStepModel::Claim <==> loaded is None && text_fault(
            handle,
            "handle"@,
        ) is None,
        claim_tried(claim) == RunStepModel::Lookup <==> claim is Ok && claim->Ok_0 is Granted,
        lookup_tried(lookup) == RunStepModel::Launch <==> lookup is None,
        launch_tried(launch) is HandBack <==> (launch matches Some((_, uncertain)) && !uncertain),
        launch_tried(launch) == RunStepModel::Wait <==> launch is None,
        finish_tried(doubt, failed) == RunStepModel::Report <==> doubt is None && failed is None,
{
}

/// A run whose outcome is not known for sure: because it was said so, because it
/// is not wanted any more, or because its traces could not be removed.
pub open spec fn outcome_uncertain(
    uncertain: bool,
    cancelled: bool,
    helper: Option<Seq<char>>,
    forget: Option<Seq<char>>,
) -> bool {
    uncertain || cancelled || helper is Some || forget is Some
}

/// Whether the outcome of a run is not known for sure.
pub fn is_outcome_uncertain(
    uncertain: bool,
    cancelled: bool,
    helper: &Option<String>,
    forget: &Option<String>,
) -> (r: bool)
    ensures
        r == outcome_uncertain(uncertain, cancelled, optional_text(*helper), optional_text(*forget)),
{
    uncertain || cancelled || helper.is_some() || forget.is_some()
}

/// What has to be done next to end a run, or how it ended.
#[derive(Debug)]
pub enum FinishStep {
    /// The record has to be cleaned up.
    Clean,
    /// The record was lost: the keyring entry has to be removed, and then this is
    /// told.
    ClearKeyring { lost: String },
    /// The handle could be used again, but nobody waits for it: it has to be given
    /// up.
    GiveUp,
    /// The handle may be used again.
    Finished,
    /// The run was not ended as it should have been.
    Failed { error: String },
}

/// What a step stands for.
#[verifier::ext_equal]
pub enum FinishStepModel {
    Clean,
    ClearKeyring { lost: Seq<char> },
    GiveUp,
    Finished,
    Failed { error: Seq<char> },
}

impl View for FinishStep {
    type V = FinishStepModel;

    open spec fn view(&self) -> FinishStepModel {
        match self {
            FinishStep::Clean => FinishStepModel::Clean,
            FinishStep::ClearKeyring { lost } => FinishStepModel::ClearKeyring { lost: lost@ },
            FinishStep::GiveUp => FinishStepModel::GiveUp,
            FinishStep::Finished => FinishStepModel::Finished,
            FinishStep::Failed { error } => FinishStepModel::Failed { error: error@ },
        }
    }
}

/// What follows the attempt to note the end of a run. A record that was lost takes
/// its keyring entry along, unless the handle could still be in use.
pub open spec fn end_noted(
    claim: ClaimModel,
    uncertain: bool,
    cancelled: bool,
    result: Result<Option<ActionModel>, Seq<char>>,
) -> FinishStepModel {
    match result {
        Err(error) => if (claim.single_use || uncertain || cancelled) && claim.account.len() > 0 {
            FinishStepModel::ClearKeyring { lost: error }
        } else {
            FinishStepModel::Failed { error }
        },
        Ok(Some(_)) => FinishStepModel::Clean,
        Ok(None) => if cancelled {
            FinishStepModel::GiveUp
        } else {
            FinishStepModel::Finished
        },
    }
}

/// What the end of a run stands for.
pub open spec fn end_of(result: Result<Option<CleanupAction>, String>) -> Result<
    Option<ActionModel>,
    Seq<char>,
> {
    match result {
        Ok(action) => Ok(optional_action(action)),
        Err(e) => Err(e@),
    }
}

/// What follows the attempt to note the end of a run.
pub fn after_end(
    claim: &RunClaim,
    uncertain: bool,
    cancelled: bool,
    result: &Result<Option<CleanupAction>, String>,
) -> (step: FinishStep)
    ensures
        step@ == end_noted(claim@, uncertain, cancelled, end_of(*result)),
{
    match result {
        Err(error) => {
            if (claim.single_use || uncertain || cancelled) && claim.account.as_str().unicode_len()
                > 0 {
                FinishStep::ClearKeyring { lost: error.clone() }
            } else {
                FinishStep::Failed { error: error.clone() }
            }
        },
        Ok(Some(_)) => FinishStep::Clean,
        Ok(None) => {
            if cancelled {
                FinishStep::GiveUp
            } else {
                FinishStep::Finished
            }
        },
    }
}

/// What is told once the keyring entry of a lost record was removed, or was not.
pub fn after_lost_entry(lost: String, result: &Result<(), String>) -> (error: String)
    ensures
        error@ == match failure(*result) {
            Some(left) => still_pending(lost@, left),
            None => lost@,
        },
{
    match result {
        Err(left) => pending_message(lost.as_str(), left.as_str()),
        Ok(_) => lost,
    }
}

/// What is told once a handle that nobody waits for was given up and cleaned up,
/// or was not.
pub fn after_unwanted(result: Result<(), String>) -> (error: String)
    ensures
        error@ == match failure(result) {
            Some(left) => left,
            None => "operation was cancelled"@,
        },
{
    match result {
        Err(left) => left,
        Ok(_) => "operation was cancelled".to_owned(),
    }
}

/// A handle is kept for another use only by a run that was noted as ended while
/// somebody waited for it, and the keyring entry of a handle that may not be used
/// again does not outlive the loss of its record.
pub proof fn law_ended_runs_keep_no_doubtful_secret(
    claim: ClaimModel,
    uncertain: bool,
    cancelled: bool,
    result: Result<Option<ActionModel>, Seq<char>>,
)
    requires
        claim.account.len() > 0,
    ensures
        end_noted(claim, uncertain, cancelled, result) == FinishStepModel::Finished <==> result
            == Ok::<Option<ActionModel>, Seq<char>>(None) && !cancelled,
        result is Err && (claim.single_use || uncertain || cancelled) ==> end_noted(
            claim,
            uncertain,
            cancelled,
            result,
        ) is ClearKeyring,
{
}

/// What is told at the end of a run that had something to clean up.
pub open spec fn finish_told(
    cleanup: Option<Seq<char>>,
    helper: Option<Seq<char>>,
    forget: Option<Seq<char>>,
) -> Option<Seq<char>> {
    match both(forget, both(helper, cleanup)) {
        Some(errors) => Some("cleanup pending: "@ + errors),
        None => None,
    }
}

/// What is told at the end of a run that had something to clean up.
pub fn finish_outcome(
    cleanup: Option<String>,
    helper: Option<String>,
    forget: Option<String>,
) -> (result: Result<(), String>)
    ensures
        verdict(
            result,
            finish_told(optional_text(cleanup), optional_text(helper), optional_text(forget)),
        ),
{
    let inner = both_errors(helper, cleanup);
    match both_errors(forget, inner) {
        Some(errors) => Err(joined("cleanup pending: ", errors.as_str())),
        None => Ok(()),
    }
}

/// What is told of a capture that was granted.
#[derive(Debug)]
pub struct CaptureReport {
    pub handle: String,
    pub target: String,
    pub label: String,
    pub expires_at: u64,
    pub single_use: bool,
    pub status: String,
}

/// What a report of a capture stands for.
#[verifier::ext_equal]
pub struct CaptureReportModel {
    pub handle: Seq<char>,
    pub target: Seq<char>,
    pub label: Seq<char>,
    pub expires_at: u64,
    pub single_use: bool,
    pub status: Seq<char>,
}

impl View for CaptureReport {
    type V = CaptureReportModel;

    open spec fn view(&self) -> CaptureReportModel {
        CaptureReportModel {
            handle: self.handle@,
            target: self.target@,
            label: self.label@,
            expires_at: self.expires_at,
            single_use: self.single_use,
            status: self.status@,
        }
    }
}

/// What is told of a capture that was granted: the handle and what was asked for.
pub open spec fn capture_reported(
    handle: Seq<char>,
    plan: CaptureModel,
    expires_at: u64,
) -> CaptureReportModel {
    CaptureReportModel {
        handle,
        target: plan.target,
        label: plan.label,
        expires_at,
        single_use: plan.single_use,
        status: "active"@,
    }
}

/// What is told of a capture that was granted.
pub fn capture_report(fence: &CaptureFence, plan: &CaptureRequest, expires_at: u64) -> (report:
    CaptureReport)
    ensures
        report@ == capture_reported(fence.handle@, plan@, expires_at),
{
    CaptureReport {
        handle: fence.handle.clone(),
        target: plan.target.clone(),
        label: plan.label.clone(),
        expires_at,
        single_use: plan.single_use,
        status: "active".to_owned(),
    }
}

/// What is told of a handle that was deleted.
#[derive(Debug)]
pub struct DeleteReport {
    pub handle: String,
    pub status: String,
}

/// What is told of a handle that was deleted and cleaned up.
pub fn delete_report(handle: &str) -> (report: DeleteReport)
    ensures
        report.handle@ == handle@,
        report.status@ == "deleted"@,
{
    DeleteReport { handle: handle.to_owned(), status: "deleted".to_owned() }
}

/// What is told of a run.
#[derive(Debug)]
pub struct RunReport {
    pub handle: String,
    pub operation: String,
    pub status: String,
    pub exit_code: Option<i32>,
}

/// What is told of a run that has ended by itself.
pub fn run_report(handle: &str, operation: &str, succeeded: bool, exit_code: Option<i32>) -> (report:
    RunReport)
    ensures
        report.handle@ == handle@,
        report.operation@ == operation@,
        report.status@ == if succeeded {
            "succeeded"@
        } else {
            "failed"@
        },
        report.exit_code == exit_code,
{
    let status = if succeeded {
        "succeeded"
    } else {
        "failed"
    };
    RunReport {
        handle: handle.to_owned(),
        operation: operation.to_owned(),
        status: status.to_owned(),
        exit_code,
    }
}

} // verus!
