//! What every step of a capture, a removal, a store, a launch, a run and a wait
//! promises to whoever takes it: when it goes on, and what it tells when it does
//! not.
use vstd::prelude::*;
use vstd::string::*;
use vstd::utf8::*;

use crate::clock::Clock;
use crate::flow::{
    after_activate, after_claim, after_clean, after_close, after_end, after_expiry_check,
    after_finish, after_give_up, after_hand_back, after_launch, after_load, after_lookup,
    after_lost_entry, after_prompt, after_provision, after_room, after_store, after_unwanted,
    after_wait, after_write, after_write_poll, capture_expired, capture_report, check_delete,
    command_outcome, delete_report, error_of, finish_outcome, handed_back_message, helper_failed,
    helper_next, is_outcome_uncertain, message_with_part, next_write, not_started_message,
    pending_message, plan_capture, run_report,
    store_outcome, store_unfinished_message, store_unnoted_message, store_unwritable_message,
    CaptureReport, CaptureStep, CaptureStepModel, DeleteReport, FinishStep, FinishStepModel,
    HelperPhase, HelperStep, HelperStepModel, RunReport, RunStep, RunStepModel, WriteEvent,
    WriteStep,
};
use crate::keyring::{
    after_clear, after_search, choose_prompt, classify_keyring_search_result, clear_arguments,
    lookup_arguments, prompt_arguments, search_arguments, store_arguments, texts, ClearModel,
    ClearStep, KeyringEntryState, PromptProvider,
};
use crate::lifecycle::{observe_helper, validate_text, validate_ttl, HelperProcess};
use crate::process::{
    aborted_message, after_collect, after_drain, after_inspect, after_limits, after_poll,
    after_terminate, kill_recorded_helper, poll_step, termination_error, verify_recorded_process,
    Awaited, ChildStatus, HelperKill, KillModel, PollStep, PollStepModel, StepModel,
    TerminationReason, Wait, WaitStep,
};
use crate::promises::handle_time_is_up;
use crate::record::{CaptureFence, CleanupAction, LifecycleStatus, RunClaim};
use crate::requests::CaptureRequest;
use crate::run::{
    append_cleanup_error, launch_begin, launch_failed, launch_next, message_with_error,
    start_failure_error, stopped_error, undone_error, unverified_error, verify_operation,
    ClaimDecision, LaunchError, LaunchPhase, LaunchStep, LaunchStepModel, Unverified,
};
use crate::secret::{
    accept_keyring_output, accept_prompt_output, validate_secret_for_environment, SecretBytes,
};
use crate::state::State;
use crate::text::{
    control_char, is_control, is_white, trimmed, white_char, without_leading_white,
    without_trailing_white,
};

verus! {

/// The text of an error, where there is one.
pub open spec fn said(error: Option<String>) -> Option<Seq<char>> {
    match error {
        Some(text) => Some(text@),
        None => None,
    }
}

/// The text of a failure, where there is one.
pub open spec fn complaint(result: Result<(), String>) -> Option<Seq<char>> {
    match result {
        Err(text) => Some(text@),
        Ok(_) => None,
    }
}

/// A message that goes on with a label and an error, where there is one.
pub open spec fn extended(message: Seq<char>, label: Seq<char>, error: Option<Seq<char>>) -> Seq<
    char,
> {
    if error is Some {
        message + label + error->0
    } else {
        message
    }
}

// ---------------------------------------------------------------------------
// Texts
// ---------------------------------------------------------------------------

/// White space is what Unicode calls so, and control codes are those of ASCII and of
/// the block behind it.
pub proof fn law_characters_are_told_apart(c: char, white: bool, control: bool)
    requires
        call_ensures(is_white, (c,), white),
        call_ensures(is_control, (c,), control),
    ensures
        white == white_char(c),
        control == control_char(c),
        control_char(c) <==> c <= '\u{1f}' || ('\u{7f}' <= c && c <= '\u{9f}'),
        white_char(c) <==> ('\t' <= c && c <= '\r') || c == ' ' || c == '\u{85}' || c == '\u{a0}'
            || c == '\u{1680}' || ('\u{2000}' <= c && c <= '\u{200a}') || c == '\u{2028}' || c
            == '\u{2029}' || c == '\u{202f}' || c == '\u{205f}' || c == '\u{3000}',
{
}

/// Whether a text is a part of another, with white space alone before and behind it
/// and none at its own ends.
pub open spec fn core_at(part: Seq<char>, whole: Seq<char>, start: int, end: int) -> bool {
    &&& 0 <= start <= end <= whole.len()
    &&& part == whole.subrange(start, end)
    &&& forall|i: int| 0 <= i < start ==> white_char(#[trigger] whole[i])
    &&& forall|i: int| end <= i < whole.len() ==> white_char(#[trigger] whole[i])
    &&& start < end ==> !white_char(whole[start]) && !white_char(whole[end - 1])
}

/// Whether a text is another one without the white space around it.
pub open spec fn core_of(part: Seq<char>, whole: Seq<char>) -> bool {
    exists|start: int, end: int| core_at(part, whole, start, end)
}

proof fn lemma_leading(s: Seq<char>) -> (start: int)
    ensures
        0 <= start <= s.len(),
        without_leading_white(s) == s.subrange(start, s.len() as int),
        forall|i: int| 0 <= i < start ==> white_char(#[trigger] s[i]),
        start < s.len() ==> !white_char(s[start]),
    decreases s.len(),
{
    if s.len() > 0 && white_char(s[0]) {
        let rest = s.drop_first();
        let start = lemma_leading(rest);
        assert forall|i: int| 0 <= i < start + 1 implies white_char(#[trigger] s[i]) by {
            if i > 0 {
                assert(rest[i - 1] == s[i]);
            }
        }
        assert(rest.subrange(start, rest.len() as int) =~= s.subrange(start + 1, s.len() as int));
        start + 1
    } else {
        assert(s.subrange(0, s.len() as int) =~= s);
        0
    }
}

proof fn lemma_trailing(s: Seq<char>) -> (end: int)
    ensures
        0 <= end <= s.len(),
        without_trailing_white(s) == s.subrange(0, end),
        forall|i: int| end <= i < s.len() ==> white_char(#[trigger] s[i]),
        end > 0 ==> !white_char(s[end - 1]),
    decreases s.len(),
{
    if s.len() > 0 && white_char(s.last()) {
        let rest = s.drop_last();
        let end = lemma_trailing(rest);
        assert forall|i: int| end <= i < s.len() implies white_char(#[trigger] s[i]) by {
            if i < s.len() - 1 {
                assert(rest[i] == s[i]);
            }
        }
        assert(rest.subrange(0, end) =~= s.subrange(0, end));
        end
    } else {
        assert(s.subrange(0, s.len() as int) =~= s);
        s.len() as int
    }
}

/// Trimming takes the white space off both ends of a text, all of it, and nothing
/// else.
pub proof fn law_trimming_takes_white_space_off(whole: Seq<char>)
    ensures
        core_of(trimmed(whole), whole),
{
    let start = lemma_leading(whole);
    let rest = without_leading_white(whole);
    let end = lemma_trailing(rest);
    assert(trimmed(whole) =~= whole.subrange(start, start + end));
    assert forall|i: int| start + end <= i < whole.len() implies white_char(
        #[trigger] whole[i],
    ) by {
        assert(rest[i - start] == whole[i]);
    }
    if end > 0 {
        assert(rest[end - 1] == whole[start + end - 1]);
    }
    assert(core_at(trimmed(whole), whole, start, start + end));
}

/// Whether a text can be given for a field: something is written in it, in at most a
/// hundred and sixty bytes, and it holds no control code.
pub open spec fn acceptable(value: Seq<char>) -> bool {
    &&& exists|i: int| 0 <= i < value.len() && !white_char(#[trigger] value[i])
    &&& encode_utf8(value).len() <= 160
    &&& forall|i: int| 0 <= i < value.len() ==> !control_char(#[trigger] value[i])
}

/// A text is taken for a field exactly if it is acceptable, and a time exactly if it is
/// one of a second up to a day.
pub proof fn law_fields_are_checked(
    value: &str,
    field: &str,
    ttl: u64,
    text: Result<(), String>,
    time: Result<u64, String>,
)
    requires
        call_ensures(validate_text, (value, field), text),
        call_ensures(validate_ttl, (ttl,), time),
    ensures
        text is Ok <==> acceptable(value@),
        text matches Err(e) ==> e@ == "invalid "@ + field@,
        time is Ok <==> 1 <= ttl <= 86_400,
        time matches Ok(taken) ==> taken == ttl,
        time matches Err(e) ==> e@ == "ttl_seconds must be between 1 and 86400"@,
{
}

// ---------------------------------------------------------------------------
// Secrets
// ---------------------------------------------------------------------------

/// Whether a secret can be handed over: it is a text without a NUL byte, of at most
/// sixty-four kibibytes.
pub open spec fn usable(secret: Seq<u8>) -> bool {
    &&& secret.len() <= 65_536
    &&& valid_utf8(secret)
    &&& forall|i: int| 0 <= i < secret.len() ==> #[trigger] secret[i] != 0
}

/// Whether bytes can be a secret once their frame is off: there are some, and the last
/// of them ends no line.
pub open spec fn whole(secret: Seq<u8>) -> bool {
    secret.len() > 0 && secret.last() != 10 && secret.last() != 13
}

/// A secret can be handed over exactly if it is usable, and what is wrong with another
/// one is told: first its size, then its form, then its content.
pub proof fn law_usable_secrets_are_handed_over(secret: &[u8], result: Result<(), String>)
    requires
        call_ensures(validate_secret_for_environment, (secret,), result),
    ensures
        result is Ok <==> usable(secret@),
        result matches Err(e) ==> e@ == if secret@.len() > 65_536 {
            "secret exceeds the configured size limit"@
        } else if !valid_utf8(secret@) {
            "secret must be valid UTF-8 for environment handoff"@
        } else {
            "secret must not contain NUL bytes"@
        },
{
    if !secret@.contains(0) {
        assert forall|i: int| 0 <= i < secret@.len() implies #[trigger] secret@[i] != 0 by {
            assert(secret@.contains(secret@[i]));
        }
    }
}

/// What the user enters is taken exactly if the prompt ended well and wrote a whole
/// secret and then a line feed; the secret is what stands before that line feed.
pub proof fn law_entered_secrets_are_framed_by_a_line_feed(
    succeeded: bool,
    output: SecretBytes,
    result: Result<SecretBytes, String>,
)
    requires
        call_ensures(accept_prompt_output, (succeeded, output), result),
    ensures
        result is Ok <==> succeeded && exists|secret: Seq<u8>|
            #![trigger whole(secret)]
            whole(secret) && output@ == secret.push(10),
        result matches Ok(secret) ==> output@ == secret@.push(10),
        result matches Err(e) ==> e@ == if !succeeded {
            "secret entry was cancelled or the GUI prompt failed"@
        } else if output@.len() == 0 || output@.last() != 10 {
            "secret provider framing is invalid"@
        } else if output@.len() == 1 {
            "empty secret is not accepted"@
        } else {
            "secrets ending in CR or LF are unsupported"@
        },
{
    if output@.len() > 0 && output@.last() == 10 {
        let body = output@.drop_last();
        assert(body.push(10) =~= output@);
        assert(whole(body) || !whole(body));
        assert forall|secret: Seq<u8>| #[trigger] whole(secret) && output@ == secret.push(
            10,
        ) implies secret == body by {
            assert(secret.push(10).drop_last() =~= secret);
        }
    }
    if let Ok(secret) = result {
        assert(whole(secret@));
    }
}

/// What the keyring gives out is taken exactly if it ended well and wrote a whole and
/// usable secret, with or without a line feed behind it.
pub proof fn law_stored_secrets_are_given_out(
    succeeded: bool,
    output: SecretBytes,
    result: Result<SecretBytes, String>,
)
    requires
        call_ensures(accept_keyring_output, (succeeded, output), result),
    ensures
        ({
            let body = if output@.len() > 0 && output@.last() == 10 {
                output@.drop_last()
            } else {
                output@
            };
            &&& result is Ok <==> succeeded && whole(body) && usable(body)
            &&& result matches Ok(secret) ==> secret@ == body
            &&& !succeeded ==> result->Err_0@ == "secret is not available in OS keyring"@
            &&& succeeded && body.len() == 0 ==> result->Err_0@ == "empty secret is not accepted"@
            &&& succeeded && body.len() > 0 && !whole(body) ==> result->Err_0@
                == "secrets ending in CR or LF are unsupported"@
            &&& succeeded && whole(body) && !usable(body) ==> result->Err_0@ == if body.len()
                > 65_536 {
                "secret exceeds the configured size limit"@
            } else if !valid_utf8(body) {
                "secret must be valid UTF-8 for environment handoff"@
            } else {
                "secret must not contain NUL bytes"@
            }
        }),
{
    let body = if output@.len() > 0 && output@.last() == 10 {
        output@.drop_last()
    } else {
        output@
    };
    if !body.contains(0) {
        assert forall|i: int| 0 <= i < body.len() implies #[trigger] body[i] != 0 by {
            assert(body.contains(body[i]));
        }
    }
}

// ---------------------------------------------------------------------------
// Capture
// ---------------------------------------------------------------------------

/// A capture is planned exactly if its target, its label and its time are acceptable,
/// and then as it was asked for, but for the white space around its texts.
pub proof fn law_captures_are_planned_as_asked(
    request: &CaptureRequest,
    result: Result<CaptureRequest, String>,
)
    requires
        call_ensures(plan_capture, (request,), result),
    ensures
        ({
            let asked = request@;
            &&& result is Ok <==> acceptable(asked.target) && acceptable(asked.label) && 1
                <= asked.ttl_seconds <= 86_400
            &&& result matches Ok(plan) ==> core_of(plan@.target, asked.target) && core_of(
                plan@.label,
                asked.label,
            ) && plan@.ttl_seconds == asked.ttl_seconds && plan@.single_use == asked.single_use
            &&& result matches Err(e) ==> e@ == if !acceptable(asked.target) {
                "invalid "@ + "target"@
            } else if !acceptable(asked.label) {
                "invalid "@ + "label"@
            } else {
                "ttl_seconds must be between 1 and 86400"@
            }
        }),
{
    law_trimming_takes_white_space_off(request@.target);
    law_trimming_takes_white_space_off(request@.label);
}

/// A capture asks once there is room, makes a record once it is asked for a secret that
/// can be handed over and is still wanted, and stores the secret once there is a
/// record; whatever goes wrong until then is told as it is.
pub proof fn law_captures_begin_step_by_step(
    result: Result<(), String>,
    answer: &Result<SecretBytes, String>,
    cancelled: bool,
    room: CaptureStep,
    asked: CaptureStep,
    made: CaptureStep,
)
    requires
        call_ensures(after_room, (result,), room),
        call_ensures(after_prompt, (answer, cancelled), asked),
        call_ensures(after_provision, (result,), made),
    ensures
        result is Ok ==> room@ is Prompt && made@ is Store,
        result matches Err(e) ==> room@ == (CaptureStepModel::Refused { error: e@ }) && made@ == (
        CaptureStepModel::Refused { error: e@ }),
        asked@ is Provision <==> answer is Ok && usable(answer->Ok_0@) && !cancelled,
        answer matches Err(e) ==> asked@ == (CaptureStepModel::Refused { error: e@ }),
        answer is Ok && usable(answer->Ok_0@) && cancelled ==> asked@ == (
        CaptureStepModel::Refused { error: "secret capture was cancelled"@ }),
        answer is Ok && !usable(answer->Ok_0@) ==> asked@ == (CaptureStepModel::Refused {
            error: if answer->Ok_0@.len() > 65_536 {
                "secret exceeds the configured size limit"@
            } else if !valid_utf8(answer->Ok_0@) {
                "secret must be valid UTF-8 for environment handoff"@
            } else {
                "secret must not contain NUL bytes"@
            },
        }),
{
    if let Ok(secret) = answer {
        if !secret@.contains(0) {
            assert forall|i: int| 0 <= i < secret@.len() implies #[trigger] secret@[i] != 0 by {
                assert(secret@.contains(secret@[i]));
            }
        }
    }
}

/// Once there is a record, it is given up whenever the capture does not go on, and the
/// record ends as deleted unless it was its time that ran out.
pub proof fn law_captures_end_step_by_step(
    result: Result<(), String>,
    up: Result<bool, String>,
    cancelled: bool,
    stored: CaptureStep,
    checked: CaptureStep,
    activated: CaptureStep,
)
    requires
        call_ensures(after_store, (result, cancelled), stored),
        call_ensures(after_expiry_check, (up,), checked),
        call_ensures(after_activate, (result, cancelled), activated),
    ensures
        result is Ok && !cancelled ==> stored@ is CheckExpiry && activated@ is Granted,
        result is Ok && cancelled ==> stored@ == (CaptureStepModel::GiveUp {
            target: LifecycleStatus::Deleted,
            note: "capture was cancelled after keyring store"@,
            reply: "secret capture was cancelled"@,
            keep_on_mark: false,
            keep_on_cleanup: true,
        }),
        result is Ok && cancelled ==> activated@ == (CaptureStepModel::GiveUp {
            target: LifecycleStatus::Deleted,
            note: "capture was cancelled before response"@,
            reply: "secret capture was cancelled"@,
            keep_on_mark: false,
            keep_on_cleanup: true,
        }),
        result matches Err(e) ==> stored@ == (CaptureStepModel::GiveUp {
            target: LifecycleStatus::Deleted,
            note: e@,
            reply: e@,
            keep_on_mark: true,
            keep_on_cleanup: true,
        }),
        result matches Err(e) ==> activated@ == (CaptureStepModel::GiveUp {
            target: if e@ == "capture expired before activation"@ {
                LifecycleStatus::Expired
            } else {
                LifecycleStatus::Deleted
            },
            note: e@,
            reply: e@,
            keep_on_mark: false,
            keep_on_cleanup: true,
        }),
        up == Ok::<bool, String>(false) ==> checked@ is Activate,
        up == Ok::<bool, String>(true) ==> checked@ == (CaptureStepModel::GiveUp {
            target: LifecycleStatus::Expired,
            note: "capture expired before activation"@,
            reply: "capture expired before activation"@,
            keep_on_mark: false,
            keep_on_cleanup: false,
        }),
        up matches Err(e) ==> checked@ == (CaptureStepModel::Refused { error: e@ }),
{
}

/// A record that was made and is looked at again is out of time exactly if its own
/// moment has passed.
pub proof fn law_captures_are_looked_at_again(
    state: &State,
    handle: &str,
    clock: &Clock,
    result: Result<bool, String>,
)
    requires
        call_ensures(capture_expired, (state, handle, clock), result),
    ensures
        result is Ok <==> state@.records.contains_key(handle@),
        result matches Ok(up) ==> up == handle_time_is_up(state@.records[handle@], clock@),
        result matches Err(e) ==> e@ == "capture state disappeared"@,
{
}

/// A record that was given up is cleaned up, and only then the reply is told: with what
/// is left, where that is to be kept, and else what went wrong last.
pub proof fn law_given_up_captures_are_cleaned_up(
    reply: String,
    keep_on_mark: bool,
    keep_on_cleanup: bool,
    result: Result<(), String>,
    step: CaptureStep,
    told: String,
)
    requires
        call_ensures(after_give_up, (reply, keep_on_mark, keep_on_cleanup, result), step),
        call_ensures(after_clean, (reply, keep_on_cleanup, result), told),
    ensures
        result is Ok ==> step@ == (CaptureStepModel::Clean {
            answer: reply@,
            keep: keep_on_cleanup,
        }) && told@ == reply@,
        result matches Err(e) ==> step@ == (CaptureStepModel::Refused {
            error: if keep_on_mark {
                reply@ + "; cleanup pending: "@ + "state fence unavailable"@
            } else {
                e@
            },
        }) && told@ == if keep_on_cleanup {
            reply@ + "; cleanup pending: "@ + e@
        } else {
            e@
        },
{
}

/// What is told of a capture, of a deletion and of a run is its own.
pub proof fn law_reports_tell_what_was_done(
    fence: &CaptureFence,
    plan: &CaptureRequest,
    expires_at: u64,
    captured: CaptureReport,
    handle: &str,
    deleted: DeleteReport,
    operation: &str,
    succeeded: bool,
    exit_code: Option<i32>,
    ran: RunReport,
)
    requires
        call_ensures(capture_report, (fence, plan, expires_at), captured),
        call_ensures(delete_report, (handle,), deleted),
        call_ensures(run_report, (handle, operation, succeeded, exit_code), ran),
    ensures
        captured.handle@ == fence.handle@,
        captured.target@ == plan.target@,
        captured.label@ == plan.label@,
        captured.expires_at == expires_at,
        captured.single_use == plan.single_use,
        captured.status@ == "active"@,
        deleted.handle@ == handle@,
        deleted.status@ == "deleted"@,
        ran.handle@ == handle@,
        ran.operation@ == operation@,
        succeeded ==> ran.status@ == "succeeded"@,
        !succeeded ==> ran.status@ == "failed"@,
        ran.exit_code == exit_code,
{
}

/// A deletion is tried exactly if its handle is acceptable and somebody waits for it.
pub proof fn law_wanted_deletions_are_tried(handle: &str, cancelled: bool, result: Result<(), String>)
    requires
        call_ensures(check_delete, (handle, cancelled), result),
    ensures
        result is Ok <==> acceptable(handle@) && !cancelled,
        result matches Err(e) ==> e@ == if !acceptable(handle@) {
            "invalid "@ + "handle"@
        } else {
            "operation was cancelled"@
        },
{
}

// ---------------------------------------------------------------------------
// Helpers and stores
// ---------------------------------------------------------------------------

/// The parts of running a helper, in their order: those of one that stores a secret,
/// and those of any other.
pub open spec fn helper_parts(stores: bool) -> Seq<HelperPhase> {
    if stores {
        seq![
            HelperPhase::Create,
            HelperPhase::Fence,
            HelperPhase::Spawn,
            HelperPhase::Note,
            HelperPhase::Connect,
            HelperPhase::Write,
            HelperPhase::Wait,
            HelperPhase::Clear,
        ]
    } else {
        seq![HelperPhase::Create, HelperPhase::Fence, HelperPhase::Spawn, HelperPhase::Wait]
    }
}

/// A helper is run part by part, each of them once and in their order.
pub proof fn law_helpers_are_run_part_by_part(stores: bool, i: int, step: HelperStep)
    requires
        0 <= i < helper_parts(stores).len(),
        call_ensures(helper_next, (helper_parts(stores)[i], stores), step),
    ensures
        i + 1 < helper_parts(stores).len() ==> step@ == HelperStepModel::Do(
            helper_parts(stores)[i + 1],
        ),
        i + 1 == helper_parts(stores).len() ==> step@ is Ended,
{
}

/// What was done for a helper is undone when a part of it fails: nothing before its
/// control group is made, the control group before it is started, the helper too once
/// it runs, and what was noted of it once that was. A helper that did not take all
/// of the secret is waited for.
pub proof fn law_failed_helpers_are_undone(phase: HelperPhase, error: String, step: HelperStep)
    requires
        call_ensures(helper_failed, (phase, error), step),
    ensures
        step@ is Refuse <==> phase is Create,
        step@ is Undo <==> phase is Fence,
        step@ is Unstarted <==> phase is Spawn,
        step@ is Unnoted <==> phase is Note,
        step@ is Unwritable <==> phase is Connect,
        step@ == HelperStepModel::Do(HelperPhase::Wait) <==> phase is Write,
        step@ is Unfinished <==> phase is Wait,
        step@ is Ended <==> phase is Clear,
        step@ matches HelperStepModel::Refuse(told) ==> told == error@,
        step@ matches HelperStepModel::Undo(told) ==> told == error@,
        step@ matches HelperStepModel::Unnoted(told) ==> told == error@,
        step@ matches HelperStepModel::Unfinished(told) ==> told == error@,
{
}

/// What is told of a helper that was not started, and of one that ended, names all that
/// is left of it.
pub proof fn law_helpers_are_told_of(
    what: &str,
    cleanup: &Result<(), String>,
    forget: &Result<(), String>,
    waited: &Option<String>,
    unstarted: String,
    ended: Result<(), String>,
)
    requires
        call_ensures(not_started_message, (what, cleanup, forget), unstarted),
        call_ensures(command_outcome, (waited, forget), ended),
    ensures
        unstarted@ == extended(
            extended(what@, "; cgroup cleanup pending: "@, complaint(*cleanup)),
            "; cgroup metadata cleanup failed: "@,
            complaint(*forget),
        ),
        ended is Ok <==> waited is None && forget is Ok,
        ended is Err ==> ended->Err_0@ == if waited is None {
            "operation cgroup metadata cleanup failed: "@ + forget->Err_0@
        } else {
            extended(
                waited->0@,
                "; operation cgroup metadata cleanup failed: "@,
                complaint(*forget),
            )
        },
{
}

/// A secret is stored exactly if its helper is forgotten, its control group is gone, all
/// of it was written and the keyring took it; else the first of these that failed is
/// told.
pub proof fn law_stores_succeed_without_a_trace(
    clear: &Result<(), String>,
    forget: &Result<(), String>,
    write: &Result<(), String>,
    succeeded: bool,
    result: Result<(), String>,
)
    requires
        call_ensures(store_outcome, (clear, forget, write, succeeded), result),
    ensures
        result is Ok <==> clear is Ok && forget is Ok && write is Ok && succeeded,
        result matches Err(e) ==> e@ == if clear is Err {
            extended(
                "helper metadata cleanup failed: "@ + clear->Err_0@,
                "; cgroup metadata cleanup failed: "@,
                complaint(*forget),
            )
        } else if forget is Err {
            forget->Err_0@
        } else if write is Err {
            write->Err_0@
        } else {
            "OS keyring rejected the secret"@
        },
{
}

/// What is told of a store that failed on the way names all that is left of it.
pub proof fn law_failed_stores_are_told_of(
    error: String,
    cleanup: &Option<String>,
    clear: &Result<(), String>,
    forget: &Result<(), String>,
    write: &Result<(), String>,
    wait: &str,
    unnoted: String,
    unwritable: String,
    unfinished: String,
)
    requires
        call_ensures(store_unnoted_message, (error, cleanup, forget), unnoted),
        call_ensures(store_unwritable_message, (cleanup, clear, forget), unwritable),
        call_ensures(store_unfinished_message, (write, wait, forget), unfinished),
    ensures
        unnoted@ == extended(
            extended(error@, "; helper cleanup pending: "@, said(*cleanup)),
            "; cgroup metadata cleanup failed: "@,
            complaint(*forget),
        ),
        unwritable@ == extended(
            extended(
                extended(
                    "OS keyring stdin is unavailable"@,
                    "; helper cleanup pending: "@,
                    said(*cleanup),
                ),
                "; helper metadata cleanup failed: "@,
                complaint(*clear),
            ),
            "; cgroup metadata cleanup failed: "@,
            complaint(*forget),
        ),
        unfinished@ == extended(
            if write is Err {
                write->Err_0@ + "; "@ + wait@ + "; helper cleanup pending"@
            } else {
                wait@ + "; helper cleanup pending"@
            },
            "; cgroup metadata cleanup failed: "@,
            complaint(*forget),
        ),
{
}

/// A secret is written on until all of it is, as long as somebody waits for it.
pub proof fn law_secrets_are_written_to_their_end(
    written: usize,
    total: usize,
    cancelled: bool,
    step: WriteStep,
)
    requires
        call_ensures(next_write, (written, total, cancelled), step),
    ensures
        step is Finished <==> written >= total,
        step is Write <==> written < total && !cancelled,
        step matches WriteStep::Write { written: w } ==> w == written,
        step is Failed <==> written < total && cancelled,
        step matches WriteStep::Failed { error } ==> error@ == "operation was cancelled"@,
{
}

/// What was written counts, and once; a helper that takes nothing more is waited for
/// until the time is up.
pub proof fn law_written_bytes_count(
    written: usize,
    total: usize,
    event: WriteEvent,
    out_of_time: bool,
    step: WriteStep,
)
    requires
        written < total,
        event matches WriteEvent::Wrote(count) ==> count <= total - written,
        call_ensures(after_write, (written, total, event, out_of_time), step),
    ensures
        event matches WriteEvent::Wrote(count) ==> count > 0 ==> (step matches WriteStep::Write {
            written: w,
        } && w == written + count),
        event == WriteEvent::Wrote(0) || event is Failed ==> (step matches WriteStep::Failed {
            error,
        } && error@ == "OS keyring rejected the secret"@),
        event is Blocked && out_of_time ==> (step matches WriteStep::Failed { error } && error@
            == "OS keyring write timed out"@),
        event is Blocked && !out_of_time ==> (step matches WriteStep::Poll { written: w } && w
            == written),
{
}

/// Waiting to write more goes on unless it is not possible or the helper takes no more.
pub proof fn law_writing_is_waited_for(failed: bool, broken: bool, result: Result<(), String>)
    requires
        call_ensures(after_write_poll, (failed, broken), result),
    ensures
        result is Ok <==> !failed && !broken,
        result matches Err(e) ==> e@ == if failed {
            "OS keyring write could not be polled"@
        } else {
            "OS keyring rejected the secret"@
        },
{
}

// ---------------------------------------------------------------------------
// The keyring and the prompt
// ---------------------------------------------------------------------------

/// A secret is stored, given out, forgotten and searched for under the same service and
/// the same account, and the secret is in none of these requests.
pub proof fn law_one_entry_is_named_throughout(
    handle: &str,
    target: &str,
    label: &str,
    account: &str,
    store: Vec<String>,
    lookup: Vec<String>,
    clear: Vec<String>,
    search: Vec<String>,
)
    requires
        account@ == "handoff:"@ + handle@,
        call_ensures(store_arguments, (handle, target, label), store),
        call_ensures(lookup_arguments, (account,), lookup),
        call_ensures(clear_arguments, (account,), clear),
        call_ensures(search_arguments, (account,), search),
    ensures
        ({
            let entry = seq!["service"@, "codex-secret-handoff"@, "account"@, "handoff:"@ + handle@];
            &&& texts(store@) == seq!["store"@, "--label"@, label@] + entry + seq![
                "target"@,
                target@,
            ]
            &&& texts(lookup@) == seq!["lookup"@] + entry
            &&& texts(clear@) == seq!["clear"@] + entry
            &&& texts(search@) == seq!["search"@, "--all"@, "--unlock"@] + entry
        }),
{
    let entry = seq!["service"@, "codex-secret-handoff"@, "account"@, "handoff:"@ + handle@];
    assert(texts(store@) =~= seq!["store"@, "--label"@, label@] + entry + seq![
        "target"@,
        target@,
    ]);
}

/// The first of the prompt programs that can be trusted asks, and it asks for a hidden
/// text, under the label and for the target.
pub proof fn law_trusted_prompts_ask(
    zenity: bool,
    kdialog: bool,
    chosen: Result<PromptProvider, String>,
    provider: PromptProvider,
    target: &str,
    label: &str,
    list: Vec<String>,
)
    requires
        call_ensures(choose_prompt, (zenity, kdialog), chosen),
        call_ensures(prompt_arguments, (provider, target, label), list),
    ensures
        zenity ==> chosen == Ok::<PromptProvider, String>(PromptProvider::Zenity),
        !zenity && kdialog ==> chosen == Ok::<PromptProvider, String>(PromptProvider::Kdialog),
        !zenity && !kdialog ==> chosen is Err && chosen->Err_0@
            == "no supported trusted GUI prompt found"@,
        ({
            let title = "Enter secret - "@ + label@;
            let text = "Enter the secret for "@ + target@
                + ".\nIt stays in the local OS keyring and is never returned to the model."@;
            &&& provider is Zenity ==> texts(list@) == seq![
                "--password"@,
                "--hide-text"@,
                "--title"@,
                title,
                "--text"@,
                text,
            ]
            &&& provider is Kdialog ==> texts(list@) == seq!["--title"@, title, "--password"@, text]
        }),
{
}

/// A search tells that an entry is missing exactly if it ran and found nothing, and that
/// it is present exactly if it ran and found something.
pub proof fn law_searches_tell_what_they_found(
    succeeded: bool,
    has_matches: bool,
    state: KeyringEntryState,
)
    requires
        call_ensures(classify_keyring_search_result, (succeeded, has_matches), state),
    ensures
        state is Missing <==> succeeded && !has_matches,
        state is Present <==> succeeded && has_matches,
        state is Unavailable <==> !succeeded,
{
}

/// A removal is searched for after each attempt, tried twice at most, and ends well
/// exactly on a search that found nothing.
pub proof fn law_removals_go_on_step_by_step(
    again: bool,
    cleared: Result<bool, String>,
    asked: ClearStep,
    searches: u8,
    so_far: bool,
    found: Result<KeyringEntryState, String>,
    step: ClearStep,
)
    requires
        call_ensures(after_clear, (again, cleared), asked),
        call_ensures(after_search, (searches, so_far, found), step),
    ensures
        cleared matches Err(e) ==> asked@ == (ClearModel::Failed { error: e@ }),
        cleared matches Ok(done) ==> asked@ == (ClearModel::Search {
            searches: if again {
                1u8
            } else {
                0u8
            },
            cleared: done,
        }),
        step@ is Removed <==> found == Ok::<KeyringEntryState, String>(KeyringEntryState::Missing),
        found matches Err(e) ==> step@ == (ClearModel::Failed { error: e@ }),
        found == Ok::<KeyringEntryState, String>(KeyringEntryState::Present) && searches == 0
            ==> step@ == (ClearModel::Clear { again: true }),
        found == Ok::<KeyringEntryState, String>(KeyringEntryState::Present) && searches == 1
            ==> step@ == (ClearModel::Search { searches: 2, cleared: so_far }),
        found == Ok::<KeyringEntryState, String>(KeyringEntryState::Unavailable) && searches < 2
            ==> step@ == (ClearModel::Failed {
            error: "OS keyring entry deletion could not be verified"@,
        }),
        found is Ok && !(step@ is Removed) && searches >= 2 ==> step@ == (ClearModel::Failed {
            error: if so_far {
                "OS keyring entry remains after deletion verification"@
            } else {
                "OS keyring entry could not be removed"@
            },
        }),
{
}

// ---------------------------------------------------------------------------
// Launch
// ---------------------------------------------------------------------------

/// The parts of a launch, in their order.
pub open spec fn launch_parts() -> Seq<LaunchPhase> {
    seq![
        LaunchPhase::Check,
        LaunchPhase::Create,
        LaunchPhase::Reserve,
        LaunchPhase::Persist,
        LaunchPhase::Prepare,
        LaunchPhase::Spawn,
        LaunchPhase::Verify,
        LaunchPhase::Note,
        LaunchPhase::Commit,
    ]
}

/// A launch that somebody waits for is done part by part, each of them once and in their
/// order.
pub proof fn law_launches_are_done_part_by_part(
    cancelled: bool,
    first: LaunchStep,
    i: int,
    step: LaunchStep,
)
    requires
        0 <= i < launch_parts().len(),
        call_ensures(launch_begin, (cancelled,), first),
        call_ensures(launch_next, (launch_parts()[i],), step),
    ensures
        !cancelled ==> first@ == LaunchStepModel::Do(launch_parts()[0]),
        cancelled ==> first@ == LaunchStepModel::Refuse("operation was cancelled"@),
        i + 1 < launch_parts().len() ==> step@ == LaunchStepModel::Do(launch_parts()[i + 1]),
        i + 1 == launch_parts().len() ==> step@ is Launched,
{
}

/// What was done for a launch is undone when a part of it fails: nothing before its
/// control group is made or where its record is gone, the control group before anything
/// is started in it, and what was started once it was.
pub proof fn law_failed_launches_are_undone(
    phase: LaunchPhase,
    error: String,
    what: Unverified,
    step: LaunchStep,
)
    requires
        call_ensures(launch_failed, (phase, error, what), step),
    ensures
        phase is Check || phase is Create || phase is Note ==> step@ == LaunchStepModel::Refuse(
            error@,
        ),
        phase is Reserve || phase is Persist || phase is Prepare ==> step@
            == LaunchStepModel::Undo(error@),
        phase is Spawn ==> step@ is Unstarted,
        phase is Verify ==> step@ == LaunchStepModel::Unverified(what),
        phase is Commit ==> step@ == LaunchStepModel::Stop(error@),
{
}

/// What was started is recognized exactly if its start could be read and it leads a
/// process group of its own.
pub proof fn law_started_operations_are_recognized(
    pid: u32,
    ticks: Result<Option<u64>, String>,
    group: i32,
    boot: Option<String>,
    operation: Result<u64, Unverified>,
    helper: Result<HelperProcess, String>,
)
    requires
        call_ensures(verify_operation, (pid, &ticks, group), operation),
        call_ensures(observe_helper, (pid, ticks, group, boot), helper),
    ensures
        operation is Ok <==> ticks is Ok && ticks->Ok_0 is Some && group == pid as i32,
        operation matches Ok(start) ==> ticks->Ok_0 == Some(start),
        operation is Err && (ticks is Err || ticks->Ok_0 is None) ==> operation->Err_0 is Identity,
        operation is Err && ticks is Ok && ticks->Ok_0 is Some
            ==> operation->Err_0 is ProcessGroup,
        helper is Ok <==> ticks is Ok && ticks->Ok_0 is Some && group == pid as i32
            && boot is Some,
        helper matches Ok(seen) ==> seen.pid == pid && ticks->Ok_0 == Some(seen.start_ticks)
            && boot->0@ == seen.boot_id@,
        helper matches Err(e) ==> e@ == if ticks is Err {
            ticks->Err_0@
        } else if ticks->Ok_0 is None {
            "helper identity could not be verified"@
        } else if group != pid as i32 {
            "helper process group could not be verified"@
        } else {
            "helper boot identity is unavailable"@
        },
{
}

/// What is told of a launch that failed once something was noted leaves its outcome
/// open, and names all that is left of it.
pub proof fn law_failed_launches_are_told_of(
    message: String,
    text: &str,
    cleanup: &Result<(), String>,
    ended: &Option<String>,
    written: &Result<(), String>,
    what: Unverified,
    unstarted: LaunchError,
    unverified: LaunchError,
    undone: LaunchError,
    stopped: LaunchError,
)
    requires
        call_ensures(start_failure_error, (cleanup, written), unstarted),
        call_ensures(unverified_error, (what, ended, written), unverified),
        call_ensures(undone_error, (message, cleanup), undone),
        call_ensures(stopped_error, (text, ended), stopped),
    ensures
        unstarted.uncertain && unverified.uncertain && undone.uncertain && stopped.uncertain,
        undone.message@ == extended(message@, "; cgroup cleanup pending: "@, complaint(*cleanup)),
        stopped.message@ == extended(text@, "; "@, said(*ended)),
        written is Ok ==> unstarted.message@ == extended(
            "allowlisted operation could not be started"@,
            "; cgroup cleanup pending: "@,
            complaint(*cleanup),
        ),
        written is Err ==> unstarted.message@ == "allowlisted operation could not be started"@
            + "; cleanup state could not be persisted: "@ + written->Err_0@,
        ({
            let seen = if what is Identity {
                "operation helper identity could not be verified"@
            } else {
                "operation helper process group could not be verified"@
            };
            &&& written is Ok ==> unverified.message@ == extended(seen, "; "@, said(*ended))
            &&& written is Err ==> unverified.message@ == seen
                + "; cleanup state could not be persisted: "@ + written->Err_0@
        }),
{
}

// ---------------------------------------------------------------------------
// A run
// ---------------------------------------------------------------------------

/// A run goes on from the operation to the claim, the secret, the launch and the wait as
/// long as nothing fails. A claim is handed back when its secret was not found and when
/// it is certain that nothing was started, and never otherwise.
pub proof fn law_runs_go_on_step_by_step(
    result: Result<(), String>,
    handle: &str,
    decision: &Result<ClaimDecision, String>,
    launch: Result<(), LaunchError>,
    loaded: RunStep,
    claimed: RunStep,
    looked: RunStep,
    launched: RunStep,
)
    requires
        call_ensures(after_load, (result, handle), loaded),
        call_ensures(after_claim, (decision,), claimed),
        call_ensures(after_lookup, (result,), looked),
        call_ensures(after_launch, (launch,), launched),
    ensures
        loaded@ is Claim <==> result is Ok && acceptable(handle@),
        result is Ok && !acceptable(handle@) ==> loaded@ == (RunStepModel::Refused {
            error: "invalid "@ + "handle"@,
        }),
        result matches Err(e) ==> loaded@ == (RunStepModel::Refused { error: e@ }) && looked@ == (
        RunStepModel::HandBack { reason: e@ }),
        result is Ok ==> looked@ is Launch,
        decision matches Ok(ClaimDecision::Granted(_)) ==> claimed@ is Lookup,
        decision matches Ok(ClaimDecision::Expired(_)) ==> claimed@ is Close,
        decision matches Ok(ClaimDecision::Refused) ==> claimed@ == (RunStepModel::Refused {
            error: "handle is not active"@,
        }),
        decision matches Err(e) ==> claimed@ == (RunStepModel::Refused { error: e@ }),
        launch is Ok ==> launched@ is Wait,
        launch matches Err(e) ==> launched@ == if e.uncertain {
            RunStepModel::Refused { error: e.message@ }
        } else {
            RunStepModel::HandBack { reason: e.message@ }
        },
{
}

/// A run that was waited for is ended, and a result is told exactly if it ended without
/// a doubt and without an error.
pub proof fn law_runs_end_step_by_step(
    reason: String,
    doubt: Option<String>,
    result: Result<(), String>,
    closed: RunStep,
    returned: RunStep,
    waited: RunStep,
    finished: RunStep,
)
    requires
        call_ensures(after_close, (result,), closed),
        call_ensures(after_hand_back, (reason, &result), returned),
        call_ensures(after_wait, (doubt,), waited),
        call_ensures(after_finish, (doubt, result), finished),
    ensures
        result is Ok ==> closed@ == (RunStepModel::Refused { error: "handle has expired"@ }),
        result matches Err(e) ==> closed@ == (RunStepModel::Refused { error: e@ }),
        returned@ == (RunStepModel::Refused {
            error: extended(reason@, "; claim restoration failed: "@, complaint(result)),
        }),
        waited@ == (RunStepModel::Finish { doubt: said(doubt) }),
        finished@ is Report <==> doubt is None && result is Ok,
        doubt is None && result is Err ==> finished@ == (RunStepModel::Refused {
            error: result->Err_0@,
        }),
        doubt is Some ==> finished@ == (RunStepModel::Refused {
            error: extended(doubt->0@, "; cleanup pending: "@, complaint(result)),
        }),
{
}

/// The outcome of a run is certain exactly if nothing speaks against it. Then a handle
/// with nothing to be cleaned up may be used again, as long as somebody waits for it;
/// and the secret of a lost record is removed unless the handle could be used again.
pub proof fn law_ended_runs_are_seen_to(
    uncertain: bool,
    cancelled: bool,
    helper: &Option<String>,
    forget: &Option<String>,
    doubtful: bool,
    claim: &RunClaim,
    result: &Result<Option<CleanupAction>, String>,
    step: FinishStep,
)
    requires
        call_ensures(is_outcome_uncertain, (uncertain, cancelled, helper, forget), doubtful),
        call_ensures(after_end, (claim, uncertain, cancelled, result), step),
    ensures
        doubtful <==> uncertain || cancelled || helper is Some || forget is Some,
        result matches Ok(Some(_)) ==> step@ is Clean,
        result matches Ok(None) ==> step@ == if cancelled {
            FinishStepModel::GiveUp
        } else {
            FinishStepModel::Finished
        },
        result matches Err(e) ==> step@ == if claim.account@.len() > 0 && (claim.single_use
            || uncertain || cancelled) {
            FinishStepModel::ClearKeyring { lost: e@ }
        } else {
            FinishStepModel::Failed { error: e@ }
        },
{
}

/// What is told at the end of a run names all that is left of it, and nothing is told to
/// be left exactly if nothing is.
pub proof fn law_ended_runs_are_told_of(
    lost: String,
    result: Result<(), String>,
    cleanup: Option<String>,
    helper: Option<String>,
    forget: Option<String>,
    lost_told: String,
    unwanted: String,
    outcome: Result<(), String>,
)
    requires
        call_ensures(after_lost_entry, (lost, &result), lost_told),
        call_ensures(after_unwanted, (result,), unwanted),
        call_ensures(finish_outcome, (cleanup, helper, forget), outcome),
    ensures
        lost_told@ == extended(lost@, "; cleanup pending: "@, complaint(result)),
        result is Ok ==> unwanted@ == "operation was cancelled"@,
        result matches Err(e) ==> unwanted@ == e@,
        outcome is Ok <==> cleanup is None && helper is None && forget is None,
        forget is Some && helper is None && cleanup is None ==> outcome->Err_0@
            == "cleanup pending: "@ + forget->0@,
        forget is None && helper is Some && cleanup is None ==> outcome->Err_0@
            == "cleanup pending: "@ + helper->0@,
        forget is None && helper is None && cleanup is Some ==> outcome->Err_0@
            == "cleanup pending: "@ + cleanup->0@,
        forget is Some && helper is Some && cleanup is None ==> outcome->Err_0@
            == "cleanup pending: "@ + (forget->0@ + "; "@ + helper->0@),
        forget is Some && helper is None && cleanup is Some ==> outcome->Err_0@
            == "cleanup pending: "@ + (forget->0@ + "; "@ + cleanup->0@),
        forget is None && helper is Some && cleanup is Some ==> outcome->Err_0@
            == "cleanup pending: "@ + (helper->0@ + "; "@ + cleanup->0@),
        forget is Some && helper is Some && cleanup is Some ==> outcome->Err_0@
            == "cleanup pending: "@ + (forget->0@ + "; "@ + (helper->0@ + "; "@ + cleanup->0@)),
{
}

// ---------------------------------------------------------------------------
// Waiting
// ---------------------------------------------------------------------------

/// What a process has written is read first. One that is not wanted any more is ended,
/// once; one that nobody has ended is asked whether it has ended; and of any other the
/// time limits are looked at.
pub proof fn law_waits_look_at_their_process(
    wait: &Wait,
    error: Option<String>,
    cancelled: bool,
    failed: bool,
    drained: WaitStep,
    polled: WaitStep,
)
    requires
        call_ensures(after_drain, (wait, error, cancelled), drained),
        call_ensures(after_poll, (failed,), polled),
    ensures
        drained@ is Abort <==> error is Some,
        error matches Some(e) ==> drained@ == StepModel::Abort(e@),
        drained@ is Terminate <==> error is None && cancelled && wait.reason is None,
        drained@ is Terminate ==> drained@ == StepModel::Terminate(TerminationReason::Cancelled),
        drained@ is Inspect <==> error is None && !cancelled && wait.reason is None
            && !wait.exited,
        drained@ is Limits <==> error is None && (wait.reason is Some || (wait.exited
            && !cancelled)),
        failed ==> polled@ == StepModel::Abort("child pipe polling failed"@),
        !failed ==> polled@ is Drain,
{
}

/// What is learnt of a process is noted and nothing else changes: that it was ended, and
/// why, and that it has ended by itself. One that runs on when its time is up is ended.
pub proof fn law_waits_note_what_they_learn(
    reason: TerminationReason,
    cleanup: Option<String>,
    status: ChildStatus,
    out_of_time: bool,
    ended: WaitStep,
    seen: WaitStep,
)
    ensures
        forall|wait: &mut Wait| #[trigger]
            call_ensures(after_terminate, (wait, reason, cleanup), ended) ==> final(wait).exited
                == wait.exited && final(wait).reason == Some(reason) && said(final(wait).cleanup)
                == said(cleanup) && ended@ is Limits,
        forall|wait: &mut Wait| #[trigger]
            call_ensures(after_inspect, (wait, status, out_of_time), seen) ==> final(wait).exited
                == (wait.exited || status is Exited) && final(wait).reason == wait.reason && said(
                final(wait).cleanup,
            ) == said(wait.cleanup) && seen@ == if status is Failed {
                StepModel::Abort("child status failed"@)
            } else if status is Running && out_of_time {
                StepModel::Terminate(TerminationReason::TimedOut)
            } else {
                StepModel::Limits
            },
{
}

/// What is told of a process that was ended: the reason, and what is left.
pub open spec fn ending_told(wait: Wait) -> Seq<char> {
    extended(
        if wait.reason == Some(TerminationReason::Cancelled) {
            "operation was cancelled"@
        } else {
            "operation timed out"@
        },
        "; "@,
        said(wait.cleanup),
    )
}

/// A process is collected once it has ended and its pipes are closed, as long as it was
/// not ended too long ago; pipes that stay open end the wait, and else it goes on. The
/// wait ends well exactly if the process was reaped, its control group is gone, nobody
/// ended it or wants it ended, and there was time left.
pub proof fn law_waits_end_well_or_are_told_of(
    wait: &Wait,
    end_overdue: bool,
    pipes_closed: bool,
    pipes_overdue: bool,
    limits: WaitStep,
    reaped: bool,
    cgroup: Option<String>,
    cancelled: bool,
    out_of_time: bool,
    collected: WaitStep,
    error: &str,
    cleanup: &Option<String>,
    aborted: String,
)
    requires
        call_ensures(after_limits, (wait, end_overdue, pipes_closed, pipes_overdue), limits),
        call_ensures(after_collect, (wait, reaped, cgroup, cancelled, out_of_time), collected),
        call_ensures(aborted_message, (error, cleanup), aborted),
    ensures
        limits@ is Failed <==> wait.reason is Some && end_overdue,
        limits@ matches StepModel::Failed(told) ==> told == ending_told(*wait),
        limits@ is Collect <==> !(wait.reason is Some && end_overdue) && wait.exited
            && pipes_closed,
        limits@ is Abort <==> !(wait.reason is Some && end_overdue) && wait.exited
            && !pipes_closed && pipes_overdue,
        limits@ matches StepModel::Abort(told) ==> told
            == "child pipes did not close after process exit"@,
        limits@ is Poll <==> !(wait.reason is Some && end_overdue) && (!wait.exited || (
        !pipes_closed && !pipes_overdue)),
        collected@ is Finished <==> reaped && cgroup is None && wait.reason is None && !cancelled
            && !out_of_time,
        !reaped ==> collected@ == StepModel::Abort("child wait failed"@),
        reaped && cgroup is Some ==> collected@ == StepModel::Failed(
            "child cgroup cleanup failed: "@ + cgroup->0@,
        ),
        reaped && cgroup is None && wait.reason is Some ==> collected@ == StepModel::Failed(
            ending_told(*wait),
        ),
        reaped && cgroup is None && wait.reason is None && cancelled ==> collected@
            == StepModel::Failed("operation was cancelled"@),
        reaped && cgroup is None && wait.reason is None && !cancelled && out_of_time ==> collected@
            == StepModel::Failed("operation timed out"@),
        aborted@ == extended(error@, "; "@, said(*cleanup)),
{
}

/// Ending a process went well exactly if nothing went wrong with its control group, with
/// itself and with reaping it; what did is told, in this order.
pub proof fn law_ended_processes_are_told_of(
    cgroup: &Option<String>,
    child: &Option<String>,
    reap: &Option<String>,
    text: Option<String>,
)
    requires
        call_ensures(termination_error, (cgroup, child, reap), text),
    ensures
        text is None <==> cgroup is None && child is None && reap is None,
        ({
            let first = "cgroup cleanup failed: "@ + cgroup->0@;
            let second = "child termination failed: "@ + child->0@;
            let third = "child cleanup failed: "@ + reap->0@;
            &&& cgroup is Some && child is None && reap is None ==> text->0@ == first
            &&& cgroup is None && child is Some && reap is None ==> text->0@ == second
            &&& cgroup is None && child is None && reap is Some ==> text->0@ == third
            &&& cgroup is Some && child is Some && reap is None ==> text->0@ == first + "; "@
                + second
            &&& cgroup is Some && child is None && reap is Some ==> text->0@ == first + "; "@
                + third
            &&& cgroup is None && child is Some && reap is Some ==> text->0@ == second + "; "@
                + third
            &&& cgroup is Some && child is Some && reap is Some ==> text->0@ == first + "; "@
                + second + "; "@ + third
        }),
{
}

/// A recorded helper is killed by its control group, if it has one, and as a process only
/// in its own boot; one of another boot is gone, and so is one of which nothing is
/// recorded. What is not known well enough is not killed, and told.
pub proof fn law_recorded_helpers_are_killed(
    action: &CleanupAction,
    boot: Option<&str>,
    result: Result<HelperKill, String>,
)
    requires
        call_ensures(kill_recorded_helper, (action, boot), result),
    ensures
        ({
            let a = action@;
            let nothing = a.helper_pid is None && a.helper_pgid is None
                && a.helper_start_ticks is None && a.helper_boot_id is None;
            let all = a.helper_pid is Some && a.helper_pgid is Some && a.helper_start_ticks is Some
                && a.helper_boot_id is Some;
            let plain = !a.helper_descendants_unknown && a.helper_cgroup is None;
            &&& a.helper_descendants_unknown ==> result is Err && result->Err_0@
                == "legacy helper descendants cannot be verified"@
            &&& !a.helper_descendants_unknown && a.helper_cgroup is Some
                && a.helper_cgroup_identity is Some ==> result is Ok && result->Ok_0@
                == KillModel::Cgroup(a.helper_cgroup->0, a.helper_cgroup_identity->0)
            &&& !a.helper_descendants_unknown && a.helper_cgroup is Some
                && a.helper_cgroup_identity is None ==> result is Err && result->Err_0@
                == "recorded helper cgroup identity is unavailable"@
            &&& plain && nothing ==> result is Ok && result->Ok_0@ is Nothing
            &&& plain && !nothing && !all ==> result is Err && result->Err_0@
                == "recorded helper identity is incomplete"@
            &&& plain && all && boot is None ==> result is Err && result->Err_0@
                == "current boot identity could not be verified"@
            &&& plain && all && boot is Some && boot->0@ == a.helper_boot_id->0 ==> result is Ok
                && result->Ok_0@ == (KillModel::Process {
                pid: a.helper_pid->0,
                start_ticks: a.helper_start_ticks->0,
            })
            &&& plain && all && boot is Some && boot->0@ != a.helper_boot_id->0 ==> result is Ok
                && result->Ok_0@ is Nothing
        }),
{
}

/// A process is taken for a recorded helper exactly if it is held and was started at the
/// very same time.
pub proof fn law_recorded_processes_are_recognized(
    start_ticks: u64,
    held: bool,
    ticks: Result<Option<u64>, String>,
    result: Result<(), String>,
)
    requires
        call_ensures(verify_recorded_process, (start_ticks, held, ticks), result),
    ensures
        result is Ok <==> held && ticks is Ok && ticks->Ok_0 == Some(start_ticks),
        result matches Err(e) ==> e@ == if !held {
            "recorded helper descendants cannot be verified without a pidfd"@
        } else if ticks is Err {
            ticks->Err_0@
        } else if ticks->Ok_0 is None {
            "recorded helper descendants cannot be verified after pid exit"@
        } else {
            "recorded helper identity no longer matches"@
        },
{
}

/// Something is awaited until it has come about or the time is up. What has come about by
/// then counts, but for a control group.
pub proof fn law_awaited_things_come_about_or_are_late(
    awaited: Awaited,
    done: bool,
    out_of_time: bool,
    step: PollStep,
)
    requires
        call_ensures(poll_step, (awaited, done, out_of_time), step),
    ensures
        step@ is Again <==> !done && !out_of_time,
        step@ is Done <==> done && (!out_of_time || !(awaited is EmptyCgroup)),
        step@ matches PollStepModel::Late(told) ==> told == match awaited {
            Awaited::EmptyCgroup => "operation cgroup did not empty after termination"@,
            Awaited::ReapedChild => "child did not exit after termination"@,
            Awaited::GoneHelper => "recorded helper did not exit after termination"@,
            Awaited::StateLock => "state lock acquisition timed out"@,
        },
{
}

/// What is told is put together from its parts, and none of them is lost.
pub proof fn law_messages_are_put_together(
    message: &str,
    text: String,
    label: &str,
    left: &str,
    error: &Option<String>,
    result: &Result<(), String>,
    pending: String,
    part: String,
    fault: Option<String>,
    returned: String,
    cleanup: String,
    behind: String,
    open: LaunchError,
    sure: LaunchError,
)
    requires
        call_ensures(pending_message, (message, left), pending),
        call_ensures(message_with_part, (text, label, error), part),
        call_ensures(error_of, (result,), fault),
        call_ensures(handed_back_message, (text, result), returned),
        call_ensures(append_cleanup_error, (text, result), cleanup),
        call_ensures(message_with_error, (message, error), behind),
        call_ensures(LaunchError::uncertain, (text,), open),
        call_ensures(LaunchError::certain, (text,), sure),
    ensures
        pending@ == message@ + "; cleanup pending: "@ + left@,
        part@ == extended(text@, label@, said(*error)),
        said(fault) == complaint(*result),
        returned@ == extended(text@, "; claim restoration failed: "@, complaint(*result)),
        cleanup@ == extended(text@, "; cgroup cleanup pending: "@, complaint(*result)),
        behind@ == extended(message@, "; "@, said(*error)),
        open.uncertain && open.message@ == text@,
        !sure.uncertain && sure.message@ == text@,
{
}

} // verus!
