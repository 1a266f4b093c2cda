//! Helper processes: how they are waited for, ended, and told apart from others.
use vstd::prelude::*;
use vstd::string::*;

use crate::cgroups::optional_str;
use crate::keyring::answer_of;
use crate::number::{decimal, digit_char};
use crate::record::{optional_text, ActionModel, CgroupIdentity, CleanupAction};
use crate::run::{message_with_error, with_error};
use crate::text::{joined, same_text, separated, separated_text, verdict};

verus! {

/// Why a process was ended.
#[derive(Debug, Clone, Copy, PartialEq, Eq, Structural)]
pub enum TerminationReason {
    Cancelled,
    TimedOut,
}

/// What is told when a process was ended.
pub open spec fn reason_text(reason: TerminationReason) -> Seq<char> {
    match reason {
        TerminationReason::Cancelled => "operation was cancelled"@,
        TerminationReason::TimedOut => "operation timed out"@,
    }
}

impl TerminationReason {
    /// What is told when a process was ended.
    pub fn message(self) -> (text: &'static str)
        ensures
            text@ == reason_text(self),
    {
        match self {
            TerminationReason::Cancelled => "operation was cancelled",
            TerminationReason::TimedOut => "operation timed out",
        }
    }
}

/// What is told of an error, if there is one.
pub open spec fn labelled(label: Seq<char>, error: Option<Seq<char>>) -> Option<Seq<char>> {
    match error {
        Some(e) => Some(label + e),
        None => None,
    }
}

/// One error, the other, or both.
pub open spec fn both(a: Option<Seq<char>>, b: Option<Seq<char>>) -> Option<Seq<char>> {
    match (a, b) {
        (Some(x), Some(y)) => Some(separated(x, y)),
        (Some(x), None) => Some(x),
        (None, _) => b,
    }
}

fn labelled_text(label: &str, error: &Option<String>) -> (text: Option<String>)
    ensures
        optional_text(text) == labelled(label@, optional_text(*error)),
{
    match error {
        Some(e) => Some(joined(label, e.as_str())),
        None => None,
    }
}

/// One error, the other, or both.
pub fn both_errors(a: Option<String>, b: Option<String>) -> (text: Option<String>)
    ensures
        optional_text(text) == both(optional_text(a), optional_text(b)),
{
    match (a, b) {
        (Some(x), Some(y)) => Some(separated_text(x.as_str(), y.as_str())),
        (Some(x), None) => Some(x),
        (None, other) => other,
    }
}

/// What went wrong when a process was ended, if anything did: with its control
/// group, with itself, and with reaping it.
pub open spec fn termination_errors(
    cgroup: Option<Seq<char>>,
    child: Option<Seq<char>>,
    reap: Option<Seq<char>>,
) -> Option<Seq<char>> {
    both(
        both(
            labelled("cgroup cleanup failed: "@, cgroup),
            labelled("child termination failed: "@, child),
        ),
        labelled("child cleanup failed: "@, reap),
    )
}

/// What went wrong when a process was ended.
pub fn termination_error(
    cgroup: &Option<String>,
    child: &Option<String>,
    reap: &Option<String>,
) -> (text: Option<String>)
    ensures
        optional_text(text) == termination_errors(
            optional_text(*cgroup),
            optional_text(*child),
            optional_text(*reap),
        ),
{
    let first = labelled_text("cgroup cleanup failed: ", cgroup);
    let second = labelled_text("child termination failed: ", child);
    let third = labelled_text("child cleanup failed: ", reap);
    let head = both_errors(first, second);
    both_errors(head, third)
}

// ---------------------------------------------------------------------------
// Waiting for a process
// ---------------------------------------------------------------------------

/// What is known of a process that is waited for.
#[derive(Debug)]
pub struct Wait {
    /// It has ended by itself.
    pub exited: bool,
    /// It was ended.
    pub reason: Option<TerminationReason>,
    /// What went wrong when it was ended.
    pub cleanup: Option<String>,
}

/// What a wait stands for.
#[verifier::ext_equal]
pub struct WaitModel {
    pub exited: bool,
    pub reason: Option<TerminationReason>,
    pub cleanup: Option<Seq<char>>,
}

impl View for Wait {
    type V = WaitModel;

    open spec fn view(&self) -> WaitModel {
        WaitModel { exited: self.exited, reason: self.reason, cleanup: optional_text(self.cleanup) }
    }
}

/// What has to be done next for a process that is waited for.
#[derive(Debug)]
pub enum WaitStep {
    /// What it has written has to be read.
    Drain,
    /// It has to be ended for a reason, and then looked at again.
    Terminate(TerminationReason),
    /// It has to be asked whether it has ended.
    Inspect,
    /// The time limits have to be looked at.
    Limits,
    /// Its pipes have to be polled.
    Poll,
    /// It has to be reaped, and its control group has to be killed.
    Collect,
    /// It has to be ended, and the wait fails with this.
    Abort(String),
    /// The wait has ended well.
    Finished,
    /// The wait has failed.
    Failed(String),
}

/// What a step stands for.
#[verifier::ext_equal]
pub enum StepModel {
    Drain,
    Terminate(TerminationReason),
    Inspect,
    Limits,
    Poll,
    Collect,
    Abort(Seq<char>),
    Finished,
    Failed(Seq<char>),
}

impl View for WaitStep {
    type V = StepModel;

    open spec fn view(&self) -> StepModel {
        match self {
            WaitStep::Drain => StepModel::Drain,
            WaitStep::Terminate(reason) => StepModel::Terminate(*reason),
            WaitStep::Inspect => StepModel::Inspect,
            WaitStep::Limits => StepModel::Limits,
            WaitStep::Poll => StepModel::Poll,
            WaitStep::Collect => StepModel::Collect,
            WaitStep::Abort(error) => StepModel::Abort(error@),
            WaitStep::Finished => StepModel::Finished,
            WaitStep::Failed(error) => StepModel::Failed(error@),
        }
    }
}

/// What a process says of its end.
#[derive(Debug, Clone, Copy, PartialEq, Eq, Structural)]
pub enum ChildStatus {
    Exited,
    Running,
    Failed,
}

/// A wait that has just begun.
pub open spec fn wait_begun() -> WaitModel {
    WaitModel { exited: false, reason: None, cleanup: None }
}

impl Wait {
    /// A wait that has just begun.
    pub fn new() -> (wait: Wait)
        ensures
            wait@ == wait_begun(),
    {
        Wait { exited: false, reason: None, cleanup: None }
    }
}

/// What follows the question whether a process that was not ended yet has ended.
pub open spec fn unended_next(wait: WaitModel) -> StepModel {
    if !wait.exited && wait.reason is None {
        StepModel::Inspect
    } else {
        StepModel::Limits
    }
}

fn unended_step(wait: &Wait) -> (step: WaitStep)
    ensures
        step@ == unended_next(wait@),
{
    if !wait.exited && wait.reason.is_none() {
        WaitStep::Inspect
    } else {
        WaitStep::Limits
    }
}

/// What follows reading what a process has written. It is ended when that was
/// not possible, and when it is not wanted any more.
pub open spec fn drained_next(
    wait: WaitModel,
    error: Option<Seq<char>>,
    cancelled: bool,
) -> StepModel {
    match error {
        Some(e) => StepModel::Abort(e),
        None => if cancelled && wait.reason is None {
            StepModel::Terminate(TerminationReason::Cancelled)
        } else {
            unended_next(wait)
        },
    }
}

/// What follows reading what a process has written.
pub fn after_drain(wait: &Wait, error: Option<String>, cancelled: bool) -> (step: WaitStep)
    ensures
        step@ == drained_next(wait@, optional_text(error), cancelled),
{
    match error {
        Some(e) => WaitStep::Abort(e),
        None => {
            if cancelled && wait.reason.is_none() {
                WaitStep::Terminate(TerminationReason::Cancelled)
            } else {
                unended_step(wait)
            }
        },
    }
}

/// A wait whose process was ended.
pub open spec fn terminated(
    wait: WaitModel,
    reason: TerminationReason,
    cleanup: Option<Seq<char>>,
) -> WaitModel {
    WaitModel { reason: Some(reason), cleanup, ..wait }
}

/// Notes that a process was ended.
pub fn after_terminate(wait: &mut Wait, reason: TerminationReason, cleanup: Option<String>) -> (step:
    WaitStep)
    ensures
        final(wait)@ == terminated(old(wait)@, reason, optional_text(cleanup)),
        step@ == unended_next(final(wait)@),
{
    wait.reason = Some(reason);
    wait.cleanup = cleanup;
    unended_step(wait)
}

/// What follows the answer of a process: the wait, and the next step.
pub open spec fn inspected_next(
    wait: WaitModel,
    status: ChildStatus,
    out_of_time: bool,
) -> (WaitModel, StepModel) {
    match status {
        ChildStatus::Exited => (WaitModel { exited: true, ..wait }, StepModel::Limits),
        ChildStatus::Running => if out_of_time {
            (wait, StepModel::Terminate(TerminationReason::TimedOut))
        } else {
            (wait, StepModel::Limits)
        },
        ChildStatus::Failed => (wait, StepModel::Abort("child status failed"@)),
    }
}

/// Notes the answer of a process.
pub fn after_inspect(wait: &mut Wait, status: ChildStatus, out_of_time: bool) -> (step: WaitStep)
    ensures
        (final(wait)@, step@) == inspected_next(old(wait)@, status, out_of_time),
{
    match status {
        ChildStatus::Exited => {
            wait.exited = true;
            WaitStep::Limits
        },
        ChildStatus::Running => {
            if out_of_time {
                WaitStep::Terminate(TerminationReason::TimedOut)
            } else {
                WaitStep::Limits
            }
        },
        ChildStatus::Failed => WaitStep::Abort("child status failed".to_owned()),
    }
}

/// What is told of a process that was ended.
pub open spec fn termination_message(wait: WaitModel) -> Seq<char> {
    with_error(
        reason_text(
            match wait.reason {
                Some(reason) => reason,
                None => TerminationReason::TimedOut,
            },
        ),
        wait.cleanup,
    )
}

fn termination_text(wait: &Wait) -> (text: String)
    ensures
        text@ == termination_message(wait@),
{
    let reason = match wait.reason {
        Some(reason) => reason,
        None => TerminationReason::TimedOut,
    };
    message_with_error(reason.message(), &wait.cleanup)
}

/// What follows a look at the time limits and at the pipes of a process: when
/// the time to end has passed, when its end is complete, and when its pipes stay
/// open although it has ended.
pub open spec fn limits_next(
    wait: WaitModel,
    end_overdue: bool,
    pipes_closed: bool,
    pipes_overdue: bool,
) -> StepModel {
    if wait.reason is Some && end_overdue {
        StepModel::Failed(termination_message(wait))
    } else if wait.exited && pipes_closed {
        StepModel::Collect
    } else if wait.exited && pipes_overdue {
        StepModel::Abort("child pipes did not close after process exit"@)
    } else {
        StepModel::Poll
    }
}

/// What follows a look at the time limits and at the pipes of a process.
pub fn after_limits(wait: &Wait, end_overdue: bool, pipes_closed: bool, pipes_overdue: bool) -> (step:
    WaitStep)
    ensures
        step@ == limits_next(wait@, end_overdue, pipes_closed, pipes_overdue),
{
    if wait.reason.is_some() && end_overdue {
        WaitStep::Failed(termination_text(wait))
    } else if wait.exited && pipes_closed {
        WaitStep::Collect
    } else if wait.exited && pipes_overdue {
        WaitStep::Abort("child pipes did not close after process exit".to_owned())
    } else {
        WaitStep::Poll
    }
}

/// What follows polling the pipes of a process.
pub open spec fn polled_next(failed: bool) -> StepModel {
    if failed {
        StepModel::Abort("child pipe polling failed"@)
    } else {
        StepModel::Drain
    }
}

/// What follows polling the pipes of a process.
pub fn after_poll(failed: bool) -> (step: WaitStep)
    ensures
        step@ == polled_next(failed),
{
    if failed {
        WaitStep::Abort("child pipe polling failed".to_owned())
    } else {
        WaitStep::Drain
    }
}

/// What follows reaping a process and killing its control group. The wait ends
/// well only if nothing went wrong, nobody ended the process or wanted it ended,
/// and there was time left.
pub open spec fn collected_next(
    wait: WaitModel,
    reaped: bool,
    cgroup: Option<Seq<char>>,
    cancelled: bool,
    out_of_time: bool,
) -> StepModel {
    if !reaped {
        StepModel::Abort("child wait failed"@)
    } else if cgroup is Some {
        StepModel::Failed("child cgroup cleanup failed: "@ + cgroup->0)
    } else if wait.reason is Some {
        StepModel::Failed(termination_message(wait))
    } else if cancelled {
        StepModel::Failed("operation was cancelled"@)
    } else if out_of_time {
        StepModel::Failed("operation timed out"@)
    } else {
        StepModel::Finished
    }
}

/// What follows reaping a process and killing its control group.
pub fn after_collect(
    wait: &Wait,
    reaped: bool,
    cgroup: Option<String>,
    cancelled: bool,
    out_of_time: bool,
) -> (step: WaitStep)
    ensures
        step@ == collected_next(wait@, reaped, optional_text(cgroup), cancelled, out_of_time),
{
    if !reaped {
        return WaitStep::Abort("child wait failed".to_owned());
    }
    match cgroup {
        Some(e) => WaitStep::Failed(joined("child cgroup cleanup failed: ", e.as_str())),
        None => {
            if wait.reason.is_some() {
                WaitStep::Failed(termination_text(wait))
            } else if cancelled {
                WaitStep::Failed("operation was cancelled".to_owned())
            } else if out_of_time {
                WaitStep::Failed("operation timed out".to_owned())
            } else {
                WaitStep::Finished
            }
        },
    }
}

/// What is told of a wait that was given up, once its process was ended.
pub fn aborted_message(error: &str, cleanup: &Option<String>) -> (text: String)
    ensures
        text@ == with_error(error@, optional_text(*cleanup)),
{
    message_with_error(error, cleanup)
}

/// A wait ends well only for a process that has ended by itself, in time, with
/// its pipes closed and its control group gone, while it was still wanted.
pub proof fn law_success_needs_a_clean_end(
    wait: WaitModel,
    end_overdue: bool,
    pipes_closed: bool,
    pipes_overdue: bool,
    reaped: bool,
    cgroup: Option<Seq<char>>,
    cancelled: bool,
    out_of_time: bool,
)
    ensures
        limits_next(wait, end_overdue, pipes_closed, pipes_overdue) == StepModel::Collect
            ==> wait.exited && pipes_closed,
        collected_next(wait, reaped, cgroup, cancelled, out_of_time) == StepModel::Finished <==> (
        reaped && cgroup is None && wait.reason is None && !cancelled && !out_of_time),
        limits_next(wait, end_overdue, pipes_closed, pipes_overdue) != StepModel::Finished,
{
}

/// A process that is not wanted any more is ended at once, and that is what is
/// told of it, however fast it ends by itself.
pub proof fn law_cancellation_wins(
    wait: WaitModel,
    cleanup: Option<Seq<char>>,
    status: ChildStatus,
    pipes_closed: bool,
    pipes_overdue: bool,
    cancelled: bool,
    out_of_time: bool,
)
    requires
        wait.reason is None,
    ensures
        drained_next(wait, None, true) == StepModel::Terminate(TerminationReason::Cancelled),
        ({
            let ended = terminated(wait, TerminationReason::Cancelled, cleanup);
            &&& drained_next(ended, None, true) == StepModel::Limits
            &&& limits_next(ended, true, pipes_closed, pipes_overdue) == StepModel::Failed(
                with_error("operation was cancelled"@, cleanup),
            )
            &&& collected_next(ended, true, None, cancelled, out_of_time) == StepModel::Failed(
                with_error("operation was cancelled"@, cleanup),
            )
        }),
{
}

// ---------------------------------------------------------------------------
// Helpers of earlier runs
// ---------------------------------------------------------------------------

/// What is to be done about a helper that a record tells of.
#[derive(Debug)]
pub enum HelperKill {
    Nothing,
    Cgroup(String, CgroupIdentity),
    Process { pid: u32, start_ticks: u64 },
}

/// What a plan stands for.
#[verifier::ext_equal]
pub enum KillModel {
    Nothing,
    Cgroup(Seq<char>, CgroupIdentity),
    Process { pid: u32, start_ticks: u64 },
}

impl View for HelperKill {
    type V = KillModel;

    open spec fn view(&self) -> KillModel {
        match self {
            HelperKill::Nothing => KillModel::Nothing,
            HelperKill::Cgroup(path, identity) => KillModel::Cgroup(path@, *identity),
            HelperKill::Process { pid, start_ticks } => KillModel::Process {
                pid: *pid,
                start_ticks: *start_ticks,
            },
        }
    }
}

/// What is to be done about a helper that a record tells of. A control group is
/// killed only by its identity, and a process only in the boot it was started in;
/// where either is not known, nothing is killed and that is an error.
pub open spec fn helper_kill(action: ActionModel, boot: Option<Seq<char>>) -> Result<
    KillModel,
    Seq<char>,
> {
    if action.helper_descendants_unknown {
        Err("legacy helper descendants cannot be verified"@)
    } else if action.helper_cgroup is Some {
        match action.helper_cgroup_identity {
            Some(identity) => Ok(KillModel::Cgroup(action.helper_cgroup->0, identity)),
            None => Err("recorded helper cgroup identity is unavailable"@),
        }
    } else if action.helper_pid is None && action.helper_pgid is None && action.helper_start_ticks is None
        && action.helper_boot_id is None {
        Ok(KillModel::Nothing)
    } else if !(action.helper_pid is Some && action.helper_pgid is Some
        && action.helper_start_ticks is Some && action.helper_boot_id is Some) {
        Err("recorded helper identity is incomplete"@)
    } else {
        match boot {
            None => Err("current boot identity could not be verified"@),
            Some(current) => if current == action.helper_boot_id->0 {
                Ok(
                    KillModel::Process {
                        pid: action.helper_pid->0,
                        start_ticks: action.helper_start_ticks->0,
                    },
                )
            } else {
                Ok(KillModel::Nothing)
            },
        }
    }
}

/// What is to be done about a helper that a record tells of.
pub fn kill_recorded_helper(action: &CleanupAction, boot: Option<&str>) -> (result: Result<
    HelperKill,
    String,
>)
    ensures
        match result {
            Ok(plan) => helper_kill(action@, optional_str(boot)) == Ok::<KillModel, Seq<char>>(
                plan@,
            ),
            Err(e) => helper_kill(action@, optional_str(boot)) == Err::<KillModel, Seq<char>>(e@),
        },
{
    if action.helper_descendants_unknown {
        return Err("legacy helper descendants cannot be verified".to_owned());
    }
    match &action.helper_cgroup {
        Some(path) => {
            return match action.helper_cgroup_identity {
                Some(identity) => Ok(HelperKill::Cgroup(path.clone(), identity)),
                None => Err("recorded helper cgroup identity is unavailable".to_owned()),
            };
        },
        None => {},
    }
    if action.helper_pid.is_none() && action.helper_pgid.is_none()
        && action.helper_start_ticks.is_none() && action.helper_boot_id.is_none() {
        return Ok(HelperKill::Nothing);
    }
    match (
        action.helper_pid,
        action.helper_pgid,
        action.helper_start_ticks,
        &action.helper_boot_id,
    ) {
        (Some(pid), Some(_), Some(start_ticks), Some(expected)) => match boot {
            None => Err("current boot identity could not be verified".to_owned()),
            Some(current) => {
                if same_text(current, expected.as_str()) {
                    Ok(HelperKill::Process { pid, start_ticks })
                } else {
                    Ok(HelperKill::Nothing)
                }
            },
        },
        _ => Err("recorded helper identity is incomplete".to_owned()),
    }
}

/// Why a process that carries the number of a recorded helper is not killed.
pub open spec fn pidfd_fault(
    start_ticks: u64,
    held: bool,
    ticks: Result<Option<u64>, Seq<char>>,
) -> Option<Seq<char>> {
    if !held {
        Some("recorded helper descendants cannot be verified without a pidfd"@)
    } else {
        match ticks {
            Err(e) => Some(e),
            Ok(None) => Some("recorded helper descendants cannot be verified after pid exit"@),
            Ok(Some(current)) => if current != start_ticks {
                Some("recorded helper identity no longer matches"@)
            } else {
                None
            },
        }
    }
}

/// Whether the process that carries the number of a recorded helper is that
/// helper. It has to be held by a descriptor first, so that its number cannot go
/// to another process in the meantime.
pub fn verify_recorded_process(
    start_ticks: u64,
    held: bool,
    ticks: Result<Option<u64>, String>,
) -> (result: Result<(), String>)
    ensures
        verdict(result, pidfd_fault(start_ticks, held, answer_of(ticks))),
{
    if !held {
        return Err(
            "recorded helper descendants cannot be verified without a pidfd".to_owned(),
        );
    }
    match ticks {
        Err(e) => Err(e),
        Ok(None) => Err(
            "recorded helper descendants cannot be verified after pid exit".to_owned(),
        ),
        Ok(Some(current)) => {
            if current != start_ticks {
                return Err("recorded helper identity no longer matches".to_owned());
            }
            Ok(())
        },
    }
}

/// Nothing is killed of which it is not known that it belongs to the record.
pub proof fn law_only_known_helpers_are_killed(
    action: ActionModel,
    boot: Option<Seq<char>>,
    plan: KillModel,
)
    requires
        helper_kill(action, boot) == Ok::<KillModel, Seq<char>>(plan),
    ensures
        plan matches KillModel::Cgroup(path, identity) ==> action.helper_cgroup == Some(path)
            && action.helper_cgroup_identity == Some(identity),
        plan matches KillModel::Process { pid, start_ticks } ==> action.helper_pid == Some(pid)
            && action.helper_start_ticks == Some(start_ticks) && boot is Some && boot
            == action.helper_boot_id,
        !action.helper_descendants_unknown,
{
}

// ---------------------------------------------------------------------------
// Joining a control group
// ---------------------------------------------------------------------------

/// The bytes with which a process puts itself into a control group: a line feed
/// and its number.
pub open spec fn procs_entry(pid: u32) -> Seq<u8> {
    seq![10u8] + decimal(pid as nat).map(|i: int, c: char| c as u8)
}

/// Writes the bytes with which a process puts itself into a control group to the
/// end of a buffer, and tells where they start. Nothing is allocated: this runs
/// in a process that has just been forked.
pub fn write_procs_entry(buffer: &mut [u8; 32], pid: u32) -> (start: usize)
    ensures
        start <= 32,
        final(buffer)@.len() == 32,
        final(buffer)@.subrange(start as int, 32) == procs_entry(pid),
{
    let mut index: usize = 32;
    let mut value: u32 = pid;
    let ghost whole = decimal(pid as nat).map(|i: int, c: char| c as u8);
    if value == 0 {
        index = index - 1;
        buffer[index] = 48;
        assert(whole =~= seq![48u8]) by {
            reveal_with_fuel(decimal, 2);
        }
        assert(buffer@.subrange(index as int, 32) =~= whole);
    } else {
        assert(buffer@.subrange(32, 32) =~= Seq::empty());
        while value > 0
            invariant
                index <= 32,
                buffer@.len() == 32,
                pid > 0,
                whole == decimal(pid as nat).map(|i: int, c: char| c as u8),
                32 - index <= 10,
                value > 0 ==> decimal(value as nat).map(|i: int, c: char| c as u8)
                    + buffer@.subrange(index as int, 32) == whole,
                value == 0 ==> buffer@.subrange(index as int, 32) == whole,
                index == 32 ==> value == pid,
                value as int * pow10(32 - index) <= pid,
            decreases value,
        {
            proof {
                lemma_pow10(32 - index);
                assert(pow10(32 - index) <= pid) by (nonlinear_arith)
                    requires
                        value > 0,
                        value as int * pow10(32 - index) <= pid,
                        pow10(32 - index) > 0,
                ;
                lemma_pow10_bound(32 - index);
            }
            let digit: u32 = value % 10;
            let ghost before = buffer@.subrange(index as int, 32);
            let ghost old_value = value;
            let ghost old_index = index;
            index = index - 1;
            buffer[index] = 48 + digit as u8;
            value = value / 10;
            proof {
                let byte = (48 + digit) as u8;
                assert(buffer@.subrange(index as int, 32) =~= seq![byte] + before);
                assert(digit_char(digit as nat) as u8 == byte);
                let head = decimal(old_value as nat).map(|i: int, c: char| c as u8);
                if value > 0 {
                    assert(decimal(old_value as nat) == decimal(value as nat).push(
                        digit_char(digit as nat),
                    ));
                    assert(head =~= decimal(value as nat).map(|i: int, c: char| c as u8).push(byte));
                    assert(decimal(value as nat).map(|i: int, c: char| c as u8) + (seq![byte]
                        + before) =~= head + before);
                } else {
                    assert(decimal(old_value as nat) =~= seq![digit_char(digit as nat)]);
                    assert(head =~= seq![byte]);
                    assert(seq![byte] + before =~= head + before);
                }
                assert(value as int * pow10(32 - index) <= pid) by {
                    assert(pow10(32 - index) == 10 * pow10(32 - old_index));
                    assert(value * 10 <= old_value);
                    assert(value as int * (10 * pow10(32 - old_index)) <= old_value as int * pow10(
                        32 - old_index,
                    )) by (nonlinear_arith)
                        requires
                            value * 10 <= old_value,
                            pow10(32 - old_index) > 0,
                    ;
                }
            }
        }
    }
    index = index - 1;
    let ghost digits = buffer@.subrange(index + 1, 32);
    buffer[index] = 10;
    assert(buffer@.subrange(index as int, 32) =~= seq![10u8] + digits);
    index
}

spec fn pow10(n: int) -> int
    decreases n,
{
    if n <= 0 {
        1
    } else {
        10 * pow10(n - 1)
    }
}

proof fn lemma_pow10(n: int)
    ensures
        pow10(n) > 0,
    decreases n,
{
    if n > 0 {
        lemma_pow10(n - 1);
    }
}

proof fn lemma_pow10_bound(n: int)
    requires
        pow10(n) <= u32::MAX,
        n <= 10,
    ensures
        n < 10,
{
    if n == 10 {
        assert(pow10(10) == 10000000000) by {
            reveal_with_fuel(pow10, 12);
        }
    }
}

// ---------------------------------------------------------------------------
// Polling
// ---------------------------------------------------------------------------

/// What is looked at again and again until it has come about.
#[derive(Debug, Clone, Copy, PartialEq, Eq, Structural)]
pub enum Awaited {
    /// A control group that was killed is empty.
    EmptyCgroup,
    /// A child that was killed has been reaped.
    ReapedChild,
    /// A recorded helper that was killed is gone.
    GoneHelper,
    /// The state is locked.
    StateLock,
}

/// What has to be done next while something is awaited.
#[derive(Debug)]
pub enum PollStep {
    /// It has come about.
    Done,
    /// It has to be looked at again, a little later.
    Again,
    /// It has not come about in time.
    Late(String),
}

/// What a step stands for.
#[verifier::ext_equal]
pub enum PollStepModel {
    Done,
    Again,
    Late(Seq<char>),
}

impl View for PollStep {
    type V = PollStepModel;

    open spec fn view(&self) -> PollStepModel {
        match self {
            PollStep::Done => PollStepModel::Done,
            PollStep::Again => PollStepModel::Again,
            PollStep::Late(error) => PollStepModel::Late(error@),
        }
    }
}

/// What is told when something has not come about in time.
pub open spec fn late_text(awaited: Awaited) -> Seq<char> {
    match awaited {
        Awaited::EmptyCgroup => "operation cgroup did not empty after termination"@,
        Awaited::ReapedChild => "child did not exit after termination"@,
        Awaited::GoneHelper => "recorded helper did not exit after termination"@,
        Awaited::StateLock => "state lock acquisition timed out"@,
    }
}

/// What follows a look at what is awaited. A control group is not looked at any
/// more once the time is up; of everything else a last look counts.
pub open spec fn polled(awaited: Awaited, done: bool, out_of_time: bool) -> PollStepModel {
    if done && !(out_of_time && awaited == Awaited::EmptyCgroup) {
        PollStepModel::Done
    } else if out_of_time {
        PollStepModel::Late(late_text(awaited))
    } else {
        PollStepModel::Again
    }
}

/// What follows a look at what is awaited.
pub fn poll_step(awaited: Awaited, done: bool, out_of_time: bool) -> (step: PollStep)
    ensures
        step@ == polled(awaited, done, out_of_time),
{
    if done && !(out_of_time && matches!(awaited, Awaited::EmptyCgroup)) {
        PollStep::Done
    } else if out_of_time {
        PollStep::Late(
            match awaited {
                Awaited::EmptyCgroup =>
                    "operation cgroup did not empty after termination".to_owned(),
                Awaited::ReapedChild => "child did not exit after termination".to_owned(),
                Awaited::GoneHelper =>
                    "recorded helper did not exit after termination".to_owned(),
                Awaited::StateLock => "state lock acquisition timed out".to_owned(),
            },
        )
    } else {
        PollStep::Again
    }
}

/// Nothing is waited for without an end: once the time is up, there is no further
/// look.
pub proof fn law_polling_ends(awaited: Awaited, done: bool)
    ensures
        polled(awaited, done, true) != PollStepModel::Again,
        !done ==> polled(awaited, done, true) == PollStepModel::Late(late_text(awaited)),
{
}

/// A wait begins with nothing known; a reason is told as what it is; and of two errors none
/// is lost.
pub proof fn law_waits_begin_with_nothing(
    wait: Wait,
    reason: TerminationReason,
    text: &'static str,
    a: Option<String>,
    b: Option<String>,
    told: Option<String>,
)
    requires
        call_ensures(Wait::new, (), wait),
        call_ensures(TerminationReason::message, (reason,), text),
        call_ensures(both_errors, (a, b), told),
    ensures
        !wait.exited && wait.reason is None && wait.cleanup is None,
        reason is Cancelled ==> text@ == "operation was cancelled"@,
        reason is TimedOut ==> text@ == "operation timed out"@,
        told is None <==> a is None && b is None,
        a is Some && b is None ==> told->0@ == a->0@,
        a is None && b is Some ==> told->0@ == b->0@,
        a is Some && b is Some ==> told->0@ == a->0@ + "; "@ + b->0@,
{
}

/// A process puts itself into a control group with a line feed and its own number, at the
/// end of its buffer.
pub proof fn law_processes_join_by_their_number(pid: u32, start: usize)
    ensures
        forall|buffer: &mut [u8; 32]| #[trigger]
            call_ensures(write_procs_entry, (buffer, pid), start) ==> {
                &&& start + 1 + decimal(pid as nat).len() == 32
                &&& final(buffer)@[start as int] == 10
                &&& forall|i: int|
                    0 <= i < decimal(pid as nat).len() ==> final(buffer)@[start + 1 + i]
                        == #[trigger] decimal(pid as nat)[i] as u8
            },
{
    assert forall|buffer: &mut [u8; 32]| #[trigger]
        call_ensures(write_procs_entry, (buffer, pid), start) implies {
        &&& start + 1 + decimal(pid as nat).len() == 32
        &&& final(buffer)@[start as int] == 10
        &&& forall|i: int|
            0 <= i < decimal(pid as nat).len() ==> final(buffer)@[start + 1 + i]
                == #[trigger] decimal(pid as nat)[i] as u8
    } by {
        let written = final(buffer)@.subrange(start as int, 32);
        let entry = procs_entry(pid);
        assert(written == entry);
        assert(entry[0] == 10);
        assert(written[0] == final(buffer)@[start as int]);
        assert forall|i: int| 0 <= i < decimal(pid as nat).len() implies final(buffer)@[start + 1
            + i] == #[trigger] decimal(pid as nat)[i] as u8 by {
            assert(entry[1 + i] == decimal(pid as nat)[i] as u8);
            assert(written[1 + i] == final(buffer)@[start + 1 + i]);
        }
    }
}

} // verus!
