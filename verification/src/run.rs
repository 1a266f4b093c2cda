//! Running an operation with a secret: the claim, the launch and the end.
use vstd::prelude::*;
use vstd::string::*;

use crate::clock::{
    expired, mono_after, mono_deadline, monotonic_pair, operation_cgroup_fence, own_fence, paired,
    record_expired, saturating, saturating_sum, Clock, ClockModel, LEASE_SECONDS,
    OPERATION_LEASE_GRACE_SECONDS, OPERATION_SECONDS,
};
use crate::lifecycle::{
    advance, advanced, drop_helper, given_up, helped, leased, mark_record_cleanup_pending, noted,
    optional_action, pending, release_lease, set_helper, set_pending, take_lease, unhelped,
    unleased, with_record, HelperProcess,
};
use crate::record::{
    cleanup_action_for, cleanup_of, is_text, optional_text, same_optional_text, ActionModel,
    CgroupIdentity, ClaimModel, CleanupAction, HelperFence, HelperModel, LifecycleStatus,
    RecordModel, RunClaim, SecretRecord,
};
use crate::state::{State, StateModel, MAX_OPERATION_CGROUPS};
use crate::text::{failure, joined, separated, separated_text};
use crate::token::{fresh_claim_id, random_digits};

verus! {

// ---------------------------------------------------------------------------
// The claim
// ---------------------------------------------------------------------------

/// What becomes of the wish to run with a handle.
#[derive(Debug)]
pub enum ClaimDecision {
    Granted(RunClaim),
    Expired(CleanupAction),
    Refused,
}

/// What a decision stands for.
#[verifier::ext_equal]
pub enum ClaimDecisionModel {
    Granted(ClaimModel),
    Expired(ActionModel),
    Refused,
}

impl View for ClaimDecision {
    type V = ClaimDecisionModel;

    open spec fn view(&self) -> ClaimDecisionModel {
        match self {
            ClaimDecision::Granted(claim) => ClaimDecisionModel::Granted(claim@),
            ClaimDecision::Expired(action) => ClaimDecisionModel::Expired(action@),
            ClaimDecision::Refused => ClaimDecisionModel::Refused,
        }
    }
}

/// A record that is claimed for a run.
pub open spec fn claimed(
    record: RecordModel,
    id: Seq<char>,
    owner: Seq<char>,
    clock: ClockModel,
) -> RecordModel {
    advanced(
        leased(
            RecordModel { status: LifecycleStatus::Claimed, claim_id: Some(id), ..record },
            owner,
            clock,
            LEASE_SECONDS,
        ),
    )
}

/// A record that was found expired when it was to be claimed.
pub open spec fn lapsed(record: RecordModel) -> RecordModel {
    advanced(
        noted(
            pending(record, LifecycleStatus::Expired),
            "handle expired before operation claim"@,
        ),
    )
}

/// What claiming a handle under an identifier makes of the state, and what
/// becomes of the wish.
pub open spec fn claim_decided(
    state: StateModel,
    handle: Seq<char>,
    id: Seq<char>,
    owner: Seq<char>,
    clock: ClockModel,
) -> Result<(StateModel, ClaimDecisionModel), Seq<char>> {
    if !state.records.contains_key(handle) {
        Err("unknown handle"@)
    } else {
        let record = state.records[handle];
        if record.status != LifecycleStatus::Active {
            Ok((state, ClaimDecisionModel::Refused))
        } else if expired(record, clock) {
            Ok(
                (
                    with_record(state, handle, lapsed(record)),
                    ClaimDecisionModel::Expired(
                        cleanup_of(lapsed(record), LifecycleStatus::Expired),
                    ),
                ),
            )
        } else {
            let taken = claimed(record, id, owner, clock);
            Ok(
                (
                    with_record(state, handle, taken),
                    ClaimDecisionModel::Granted(
                        ClaimModel {
                            handle,
                            account: taken.keyring_account,
                            claim_id: id,
                            single_use: taken.single_use,
                            generation: taken.generation,
                        },
                    ),
                ),
            )
        }
    }
}

/// Claims a handle under an identifier.
pub fn claim_with_id(
    state: &mut State,
    handle: &str,
    id: String,
    owner: &str,
    clock: &Clock,
) -> (result: Result<ClaimDecision, String>)
    requires
        old(state).wf(),
    ensures
        final(state).wf(),
        match result {
            Ok(decision) => claim_decided(old(state)@, handle@, id@, owner@, clock@) == Ok::<
                (StateModel, ClaimDecisionModel),
                Seq<char>,
            >((final(state)@, decision@)),
            Err(e) => final(state)@ == old(state)@ && claim_decided(
                old(state)@,
                handle@,
                id@,
                owner@,
                clock@,
            ) == Err::<(StateModel, ClaimDecisionModel), Seq<char>>(e@),
        },
{
    match state.records.get_mut(handle) {
        None => Err("unknown handle".to_owned()),
        Some(record) => {
            if !matches!(record.status, LifecycleStatus::Active) {
                assert(state@.records =~= old(state)@.records);
                return Ok(ClaimDecision::Refused);
            }
            if record_expired(record, clock) {
                set_pending(record, LifecycleStatus::Expired);
                record.last_error = Some("handle expired before operation claim".to_owned());
                advance(record);
                return Ok(
                    ClaimDecision::Expired(cleanup_action_for(record, LifecycleStatus::Expired)),
                );
            }
            record.status = LifecycleStatus::Claimed;
            record.claim_id = Some(id.clone());
            take_lease(record, owner, clock, LEASE_SECONDS);
            advance(record);
            Ok(
                ClaimDecision::Granted(
                    RunClaim {
                        handle: handle.to_owned(),
                        account: record.keyring_account.clone(),
                        claim_id: id,
                        single_use: record.single_use,
                        generation: record.generation,
                    },
                ),
            )
        },
    }
}

/// Claims a handle for a run under a new identifier.
pub fn claim_for_run(state: &mut State, handle: &str, owner: &str, clock: &Clock) -> (result: Result<
    ClaimDecision,
    String,
>)
    requires
        old(state).wf(),
    ensures
        final(state).wf(),
        exists|id: Seq<char>|
            #![trigger random_digits(id)]
            random_digits(id) && match result {
                Ok(decision) => claim_decided(old(state)@, handle@, id, owner@, clock@) == Ok::<
                    (StateModel, ClaimDecisionModel),
                    Seq<char>,
                >((final(state)@, decision@)),
                Err(e) => final(state)@ == old(state)@ && claim_decided(
                    old(state)@,
                    handle@,
                    id,
                    owner@,
                    clock@,
                ) == Err::<(StateModel, ClaimDecisionModel), Seq<char>>(e@),
            },
{
    let id = fresh_claim_id();
    let ghost told = id@;
    assert(random_digits(told));
    claim_with_id(state, handle, id, owner, clock)
}

/// Whether a record is held by a claim that nothing was started for.
pub open spec fn claim_waits(record: RecordModel, claim: ClaimModel) -> bool {
    record.status == LifecycleStatus::Claimed && record.claim_id == Some(claim.claim_id)
}

/// A record that is handed back unused.
pub open spec fn handed_back(record: RecordModel) -> RecordModel {
    advanced(
        RecordModel { status: LifecycleStatus::Active, claim_id: None, ..unleased(record) },
    )
}

/// What handing a claim back makes of the state: nothing, where the claim was
/// lost in the meantime.
pub open spec fn claim_restored(state: StateModel, claim: ClaimModel) -> StateModel {
    if state.records.contains_key(claim.handle) && claim_waits(
        state.records[claim.handle],
        claim,
    ) {
        with_record(state, claim.handle, handed_back(state.records[claim.handle]))
    } else {
        state
    }
}

/// Hands a claim back that nothing was started for.
pub fn restore_claim(state: &mut State, claim: &RunClaim)
    requires
        old(state).wf(),
    ensures
        final(state).wf(),
        final(state)@ == claim_restored(old(state)@, claim@),
{
    match state.records.get_mut(claim.handle.as_str()) {
        None => {},
        Some(record) => {
            if matches!(record.status, LifecycleStatus::Claimed) && is_text(
                &record.claim_id,
                claim.claim_id.as_str(),
            ) {
                record.status = LifecycleStatus::Active;
                record.claim_id = None;
                release_lease(record);
                advance(record);
            } else {
                assert(state@.records =~= old(state)@.records);
            }
        },
    }
}

// ---------------------------------------------------------------------------
// The launch
// ---------------------------------------------------------------------------

/// Why an operation was not launched, and whether anything of it may have
/// happened all the same.
#[derive(Debug)]
pub struct LaunchError {
    pub message: String,
    pub uncertain: bool,
}

impl LaunchError {
    /// A launch that may have left something behind.
    pub fn uncertain(message: String) -> (error: LaunchError)
        ensures
            error.message@ == message@,
            error.uncertain,
    {
        LaunchError { message, uncertain: true }
    }

    /// A launch that was given up before anything was done.
    pub fn certain(message: String) -> (error: LaunchError)
        ensures
            error.message@ == message@,
            !error.uncertain,
    {
        LaunchError { message, uncertain: false }
    }
}

/// A message with what is left to be cleaned up.
pub open spec fn with_cleanup(message: Seq<char>, cleanup: Option<Seq<char>>) -> Seq<char> {
    match cleanup {
        Some(error) => message + "; cgroup cleanup pending: "@ + error,
        None => message,
    }
}

/// A message with what is left to be cleaned up.
pub fn append_cleanup_error(message: String, cleanup: &Result<(), String>) -> (full: String)
    ensures
        full@ == with_cleanup(message@, failure(*cleanup)),
{
    match cleanup {
        Err(error) => {
            let head = joined(message.as_str(), "; cgroup cleanup pending: ");
            joined(head.as_str(), error.as_str())
        },
        Ok(_) => message,
    }
}

/// Whether a claim may be launched.
pub open spec fn launch_fault(state: StateModel, claim: ClaimModel, clock: ClockModel) -> Option<
    Seq<char>,
> {
    if paired(clock).1 is None {
        Some("operation helper boot identity is unavailable"@)
    } else if !state.records.contains_key(claim.handle) {
        Some("unknown handle"@)
    } else if !(claim_waits(state.records[claim.handle], claim)
        && state.records[claim.handle].generation == claim.generation) {
        Some("handle was revoked before operation start"@)
    } else {
        None
    }
}

/// Whether a claim may be launched. Nothing has happened yet where it may not.
pub fn check_launch(state: &State, claim: &RunClaim, clock: &Clock) -> (result: Result<
    (),
    LaunchError,
>)
    requires
        state.wf(),
    ensures
        match result {
            Ok(_) => launch_fault(state@, claim@, clock@) is None,
            Err(error) => launch_fault(state@, claim@, clock@) == Some(error.message@)
                && !error.uncertain,
        },
{
    let (_, boot) = monotonic_pair(clock);
    if boot.is_none() {
        return Err(
            LaunchError::certain("operation helper boot identity is unavailable".to_owned()),
        );
    }
    match state.records.get(claim.handle.as_str()) {
        None => Err(LaunchError::certain("unknown handle".to_owned())),
        Some(record) => {
            if !matches!(record.status, LifecycleStatus::Claimed) || !is_text(
                &record.claim_id,
                claim.claim_id.as_str(),
            ) || record.generation != claim.generation {
                return Err(
                    LaunchError::certain("handle was revoked before operation start".to_owned()),
                );
            }
            Ok(())
        },
    }
}

/// A record with the control group noted that is about to be used for it.
pub open spec fn reserved(
    record: RecordModel,
    cgroup: Seq<char>,
    identity: CgroupIdentity,
) -> RecordModel {
    advanced(
        RecordModel {
            helper_cgroup: Some(cgroup),
            helper_cgroup_identity: Some(identity),
            ..record
        },
    )
}

/// What noting a control group before the launch makes of the state.
pub open spec fn launch_reserved(
    state: StateModel,
    claim: ClaimModel,
    cgroup: Seq<char>,
    identity: CgroupIdentity,
    owner: Seq<char>,
    clock: ClockModel,
) -> Result<StateModel, Seq<char>> {
    if state.operation_cgroups.len() >= MAX_OPERATION_CGROUPS
        && !state.operation_cgroups.contains_key(cgroup) {
        Err("operation cgroup capacity has been reached"@)
    } else if !state.records.contains_key(claim.handle) {
        Err("unknown handle"@)
    } else {
        Ok(
            StateModel {
                operation_cgroups: state.operation_cgroups.insert(
                    cgroup,
                    own_fence(owner, identity, clock),
                ),
                ..with_record(
                    state,
                    claim.handle,
                    reserved(state.records[claim.handle], cgroup, identity),
                )
            },
        )
    }
}

/// Notes the control group of an operation before anything is started in it.
pub fn reserve_launch(
    state: &mut State,
    claim: &RunClaim,
    cgroup: &str,
    identity: CgroupIdentity,
    owner: &str,
    clock: &Clock,
) -> (result: Result<(), String>)
    requires
        old(state).wf(),
    ensures
        final(state).wf(),
        match result {
            Ok(_) => launch_reserved(old(state)@, claim@, cgroup@, identity, owner@, clock@) == Ok::<
                StateModel,
                Seq<char>,
            >(final(state)@),
            Err(e) => final(state)@ == old(state)@ && launch_reserved(
                old(state)@,
                claim@,
                cgroup@,
                identity,
                owner@,
                clock@,
            ) == Err::<StateModel, Seq<char>>(e@),
        },
{
    if state.operation_cgroups.len() >= MAX_OPERATION_CGROUPS
        && !state.operation_cgroups.contains_key(cgroup) {
        return Err("operation cgroup capacity has been reached".to_owned());
    }
    match state.records.get_mut(claim.handle.as_str()) {
        None => {
            return Err("unknown handle".to_owned());
        },
        Some(record) => {
            record.helper_cgroup = Some(cgroup.to_owned());
            record.helper_cgroup_identity = Some(identity);
            advance(record);
        },
    }
    let fence = operation_cgroup_fence(identity, owner, clock);
    state.operation_cgroups.insert(cgroup.to_owned(), fence);
    Ok(())
}

/// The text for an operation that did not start.
pub open spec fn start_failure(cleanup: Option<Seq<char>>) -> Seq<char> {
    with_cleanup("allowlisted operation could not be started"@, cleanup)
}

/// A record given up because its launch failed.
pub open spec fn launch_given_up(record: RecordModel, error: Seq<char>) -> RecordModel {
    given_up(RecordModel { claim_id: None, ..record }, LifecycleStatus::Deleted, error)
}

/// What an operation that did not start makes of the state: its control group is
/// forgotten only if it is gone, and its record is given up if there still is one.
pub open spec fn launch_not_started(
    state: StateModel,
    claim: ClaimModel,
    cgroup: Seq<char>,
    cleanup: Option<Seq<char>>,
) -> StateModel {
    let marked = launch_given_up(state.records[claim.handle], start_failure(cleanup));
    let noted = if cleanup is None {
        RecordModel { helper_cgroup: None, helper_cgroup_identity: None, ..marked }
    } else {
        marked
    };
    StateModel {
        records: if state.records.contains_key(claim.handle) {
            state.records.insert(claim.handle, noted)
        } else {
            state.records
        },
        operation_cgroups: if cleanup is None {
            state.operation_cgroups.remove(cgroup)
        } else {
            state.operation_cgroups
        },
        ..state
    }
}

/// Gives up a claim whose operation did not start.
pub fn note_start_failure(
    state: &mut State,
    claim: &RunClaim,
    cgroup: &str,
    cleanup: &Result<(), String>,
)
    requires
        old(state).wf(),
    ensures
        final(state).wf(),
        final(state)@ == launch_not_started(old(state)@, claim@, cgroup@, failure(*cleanup)),
{
    match state.records.get_mut(claim.handle.as_str()) {
        None => {},
        Some(record) => {
            let error = append_cleanup_error(
                "allowlisted operation could not be started".to_owned(),
                cleanup,
            );
            mark_record_cleanup_pending(record, LifecycleStatus::Deleted, error);
            if cleanup.is_ok() {
                record.helper_cgroup = None;
                record.helper_cgroup_identity = None;
            }
        },
    }
    if cleanup.is_ok() {
        state.operation_cgroups.remove(cgroup);
    }
}

/// A launch that failed, and whether that could be noted.
pub open spec fn launch_failure(
    what: Seq<char>,
    told: Seq<char>,
    written: Option<Seq<char>>,
) -> Seq<char> {
    match written {
        None => told,
        Some(error) => what + "; cleanup state could not be persisted: "@ + error,
    }
}

fn failed_launch(what: &str, told: String, written: &Result<(), String>) -> (error: LaunchError)
    ensures
        error.uncertain,
        error.message@ == launch_failure(what@, told@, failure(*written)),
{
    match written {
        Ok(_) => LaunchError::uncertain(told),
        Err(e) => {
            let head = joined(what, "; cleanup state could not be persisted: ");
            LaunchError::uncertain(joined(head.as_str(), e.as_str()))
        },
    }
}

/// What is told of an operation that did not start.
pub fn start_failure_error(cleanup: &Result<(), String>, written: &Result<(), String>) -> (error:
    LaunchError)
    ensures
        error.uncertain,
        error.message@ == launch_failure(
            "allowlisted operation could not be started"@,
            start_failure(failure(*cleanup)),
            failure(*written),
        ),
{
    let told = append_cleanup_error(
        "allowlisted operation could not be started".to_owned(),
        cleanup,
    );
    failed_launch("allowlisted operation could not be started", told, written)
}

/// What could not be verified of an operation that was started.
#[derive(Debug, Clone, Copy, PartialEq, Eq, Structural)]
pub enum Unverified {
    Identity,
    ProcessGroup,
}

/// The text for what could not be verified.
pub open spec fn unverified_text(what: Unverified) -> Seq<char> {
    match what {
        Unverified::Identity => "operation helper identity could not be verified"@,
        Unverified::ProcessGroup => "operation helper process group could not be verified"@,
    }
}

/// A message with an error behind it.
pub open spec fn with_error(message: Seq<char>, error: Option<Seq<char>>) -> Seq<char> {
    match error {
        Some(e) => separated(message, e),
        None => message,
    }
}

/// A message with an error behind it.
pub fn message_with_error(message: &str, error: &Option<String>) -> (full: String)
    ensures
        full@ == with_error(message@, optional_text(*error)),
{
    match error {
        Some(e) => separated_text(message, e.as_str()),
        None => message.to_owned(),
    }
}

impl Unverified {
    fn text(self) -> (text: &'static str)
        ensures
            text@ == unverified_text(self),
    {
        match self {
            Unverified::Identity => "operation helper identity could not be verified",
            Unverified::ProcessGroup => "operation helper process group could not be verified",
        }
    }
}

/// What is known of an operation right after it was started.
pub fn verify_operation(
    pid: u32,
    ticks: &Result<Option<u64>, String>,
    reported_group: i32,
) -> (result: Result<u64, Unverified>)
    ensures
        match result {
            Ok(start_ticks) => *ticks == Ok::<Option<u64>, String>(Some(start_ticks))
                && reported_group == pid as i32,
            Err(Unverified::Identity) => !(ticks matches Ok(Some(_))),
            Err(Unverified::ProcessGroup) => ticks matches Ok(Some(_)) && reported_group
                != pid as i32,
        },
{
    match ticks {
        Ok(Some(start_ticks)) => {
            if reported_group != pid as i32 {
                return Err(Unverified::ProcessGroup);
            }
            Ok(*start_ticks)
        },
        _ => Err(Unverified::Identity),
    }
}

/// What an operation that was started and then not recognized makes of the state: its
/// record is given up if there still is one.
pub open spec fn launch_unrecognized(
    state: StateModel,
    claim: ClaimModel,
    error: Seq<char>,
) -> StateModel {
    if state.records.contains_key(claim.handle) {
        with_record(state, claim.handle, launch_given_up(state.records[claim.handle], error))
    } else {
        state
    }
}

/// Gives up a claim whose operation was started and then not recognized.
pub fn note_unverified(
    state: &mut State,
    claim: &RunClaim,
    what: Unverified,
    cleanup: &Option<String>,
)
    requires
        old(state).wf(),
    ensures
        final(state).wf(),
        final(state)@ == launch_unrecognized(
            old(state)@,
            claim@,
            with_error(unverified_text(what), optional_text(*cleanup)),
        ),
{
    match state.records.get_mut(claim.handle.as_str()) {
        None => {},
        Some(record) => {
            let error = message_with_error(what.text(), cleanup);
            mark_record_cleanup_pending(record, LifecycleStatus::Deleted, error);
        },
    }
}

/// What is told of an operation that was started and then not recognized.
pub fn unverified_error(what: Unverified, cleanup: &Option<String>, written: &Result<(), String>) -> (error:
    LaunchError)
    ensures
        error.uncertain,
        error.message@ == launch_failure(
            unverified_text(what),
            with_error(unverified_text(what), optional_text(*cleanup)),
            failure(*written),
        ),
{
    let full = message_with_error(what.text(), cleanup);
    failed_launch(what.text(), full, written)
}

/// A record whose operation runs.
pub open spec fn running(
    record: RecordModel,
    pid: u32,
    start_ticks: u64,
    boot: Seq<char>,
    cgroup: Seq<char>,
    identity: CgroupIdentity,
    mono: Option<u64>,
    wall: u64,
) -> RecordModel {
    let seconds = (OPERATION_SECONDS + OPERATION_LEASE_GRACE_SECONDS) as u64;
    advanced(
        helped(
            RecordModel {
                status: LifecycleStatus::Running,
                lease_expires_at: Some(saturating(wall, seconds)),
                lease_expires_mono: mono_after(mono, seconds),
                lease_boot_id: Some(boot),
                ..record
            },
            pid,
            start_ticks,
            boot,
            "allowlisted-operation"@,
            Some(cgroup),
            Some(identity),
        ),
    )
}

/// Notes that the operation of a claim runs.
pub fn note_running(
    state: &mut State,
    claim: &RunClaim,
    helper: &HelperProcess,
    cgroup: &str,
    identity: CgroupIdentity,
    mono: Option<u64>,
    wall: u64,
) -> (result: Result<HelperFence, LaunchError>)
    requires
        old(state).wf(),
    ensures
        final(state).wf(),
        match result {
            Ok(fence) => {
                let record = running(
                    old(state)@.records[claim.handle@],
                    helper.pid,
                    helper.start_ticks,
                    helper.boot_id@,
                    cgroup@,
                    identity,
                    mono,
                    wall,
                );
                &&& old(state)@.records.contains_key(claim.handle@)
                &&& final(state)@ == with_record(old(state)@, claim.handle@, record)
                &&& fence@ == (HelperModel {
                    handle: claim.handle@,
                    pid: helper.pid,
                    pgid: helper.pid as i32,
                    start_ticks: helper.start_ticks,
                    boot_id: helper.boot_id@,
                    generation: record.generation,
                    cgroup: Some(cgroup@),
                    cgroup_identity: Some(identity),
                })
            },
            Err(error) => !old(state)@.records.contains_key(claim.handle@) && final(state)@ == old(
                state,
            )@ && error.message@ == "unknown handle"@ && !error.uncertain,
        },
{
    match state.records.get_mut(claim.handle.as_str()) {
        None => Err(LaunchError::certain("unknown handle".to_owned())),
        Some(record) => {
            let seconds: u64 = OPERATION_SECONDS + OPERATION_LEASE_GRACE_SECONDS;
            record.status = LifecycleStatus::Running;
            record.lease_expires_at = Some(saturating_sum(wall, seconds));
            record.lease_expires_mono = mono_deadline(mono, seconds);
            record.lease_boot_id = Some(helper.boot_id.clone());
            set_helper(
                record,
                helper,
                "allowlisted-operation",
                Some(cgroup.to_owned()),
                Some(identity),
            );
            advance(record);
            Ok(
                HelperFence {
                    handle: claim.handle.clone(),
                    pid: helper.pid,
                    pgid: helper.pid as i32,
                    start_ticks: helper.start_ticks,
                    boot_id: helper.boot_id.clone(),
                    generation: record.generation,
                    cgroup: Some(cgroup.to_owned()),
                    cgroup_identity: Some(identity),
                },
            )
        },
    }
}

/// The parts of a launch, in their order.
#[derive(Debug, Clone, Copy, PartialEq, Eq, Structural)]
pub enum LaunchPhase {
    /// The claim is looked at.
    Check,
    /// A control group is made.
    Create,
    /// The control group is noted.
    Reserve,
    /// What was noted is written.
    Persist,
    /// The program is looked at once more.
    Prepare,
    /// The program is started.
    Spawn,
    /// What was started is recognized.
    Verify,
    /// What runs is noted.
    Note,
    /// What was noted is written.
    Commit,
}

/// What has to be done next in a launch, or how it ended.
#[derive(Debug)]
pub enum LaunchStep {
    Do(LaunchPhase),
    /// Nothing was done: the launch is refused.
    Refuse(String),
    /// The control group has to be killed, and the launch has failed.
    Undo(String),
    /// The control group has to be killed, and that nothing was started has to be
    /// noted.
    Unstarted,
    /// What was started has to be ended, and that has to be noted.
    Unverified(Unverified),
    /// What runs has to be ended, and the launch has failed.
    Stop(String),
    Launched,
}

/// What a step stands for.
#[verifier::ext_equal]
pub enum LaunchStepModel {
    Do(LaunchPhase),
    Refuse(Seq<char>),
    Undo(Seq<char>),
    Unstarted,
    Unverified(Unverified),
    Stop(Seq<char>),
    Launched,
}

impl View for LaunchStep {
    type V = LaunchStepModel;

    open spec fn view(&self) -> LaunchStepModel {
        match self {
            LaunchStep::Do(phase) => LaunchStepModel::Do(*phase),
            LaunchStep::Refuse(error) => LaunchStepModel::Refuse(error@),
            LaunchStep::Undo(error) => LaunchStepModel::Undo(error@),
            LaunchStep::Unstarted => LaunchStepModel::Unstarted,
            LaunchStep::Unverified(what) => LaunchStepModel::Unverified(*what),
            LaunchStep::Stop(error) => LaunchStepModel::Stop(error@),
            LaunchStep::Launched => LaunchStepModel::Launched,
        }
    }
}

/// How a launch begins: one that nobody waits for any more is refused.
pub open spec fn launch_begun(cancelled: bool) -> LaunchStepModel {
    if cancelled {
        LaunchStepModel::Refuse("operation was cancelled"@)
    } else {
        LaunchStepModel::Do(LaunchPhase::Check)
    }
}

/// How a launch begins.
pub fn launch_begin(cancelled: bool) -> (step: LaunchStep)
    ensures
        step@ == launch_begun(cancelled),
{
    if cancelled {
        LaunchStep::Refuse("operation was cancelled".to_owned())
    } else {
        LaunchStep::Do(LaunchPhase::Check)
    }
}

/// What follows a part of a launch that went well.
pub open spec fn launch_goes_on(phase: LaunchPhase) -> LaunchStepModel {
    match phase {
        LaunchPhase::Check => LaunchStepModel::Do(LaunchPhase::Create),
        LaunchPhase::Create => LaunchStepModel::Do(LaunchPhase::Reserve),
        LaunchPhase::Reserve => LaunchStepModel::Do(LaunchPhase::Persist),
        LaunchPhase::Persist => LaunchStepModel::Do(LaunchPhase::Prepare),
        LaunchPhase::Prepare => LaunchStepModel::Do(LaunchPhase::Spawn),
        LaunchPhase::Spawn => LaunchStepModel::Do(LaunchPhase::Verify),
        LaunchPhase::Verify => LaunchStepModel::Do(LaunchPhase::Note),
        LaunchPhase::Note => LaunchStepModel::Do(LaunchPhase::Commit),
        LaunchPhase::Commit => LaunchStepModel::Launched,
    }
}

/// What follows a part of a launch that failed.
pub open spec fn launch_fails(phase: LaunchPhase, error: Seq<char>, what: Unverified) -> LaunchStepModel {
    match phase {
        LaunchPhase::Check | LaunchPhase::Create | LaunchPhase::Note => LaunchStepModel::Refuse(
            error,
        ),
        LaunchPhase::Reserve | LaunchPhase::Persist | LaunchPhase::Prepare => LaunchStepModel::Undo(
            error,
        ),
        LaunchPhase::Spawn => LaunchStepModel::Unstarted,
        LaunchPhase::Verify => LaunchStepModel::Unverified(what),
        LaunchPhase::Commit => LaunchStepModel::Stop(error),
    }
}

/// What follows a part of a launch that went well.
pub fn launch_next(phase: LaunchPhase) -> (step: LaunchStep)
    ensures
        step@ == launch_goes_on(phase),
{
    match phase {
        LaunchPhase::Check => LaunchStep::Do(LaunchPhase::Create),
        LaunchPhase::Create => LaunchStep::Do(LaunchPhase::Reserve),
        LaunchPhase::Reserve => LaunchStep::Do(LaunchPhase::Persist),
        LaunchPhase::Persist => LaunchStep::Do(LaunchPhase::Prepare),
        LaunchPhase::Prepare => LaunchStep::Do(LaunchPhase::Spawn),
        LaunchPhase::Spawn => LaunchStep::Do(LaunchPhase::Verify),
        LaunchPhase::Verify => LaunchStep::Do(LaunchPhase::Note),
        LaunchPhase::Note => LaunchStep::Do(LaunchPhase::Commit),
        LaunchPhase::Commit => LaunchStep::Launched,
    }
}

/// What follows a part of a launch that failed. `what` counts only where
/// something was not recognized.
pub fn launch_failed(phase: LaunchPhase, error: String, what: Unverified) -> (step: LaunchStep)
    ensures
        step@ == launch_fails(phase, error@, what),
{
    match phase {
        LaunchPhase::Check | LaunchPhase::Create | LaunchPhase::Note => LaunchStep::Refuse(error),
        LaunchPhase::Reserve | LaunchPhase::Persist | LaunchPhase::Prepare => LaunchStep::Undo(
            error,
        ),
        LaunchPhase::Spawn => LaunchStep::Unstarted,
        LaunchPhase::Verify => LaunchStep::Unverified(what),
        LaunchPhase::Commit => LaunchStep::Stop(error),
    }
}

/// What is told of a launch that was undone.
pub fn undone_error(message: String, cleanup: &Result<(), String>) -> (error: LaunchError)
    ensures
        error.uncertain,
        error.message@ == with_cleanup(message@, failure(*cleanup)),
{
    LaunchError::uncertain(append_cleanup_error(message, cleanup))
}

/// What is told of a launch that was stopped.
pub fn stopped_error(message: &str, cleanup: &Option<String>) -> (error: LaunchError)
    ensures
        error.uncertain,
        error.message@ == with_error(message@, optional_text(*cleanup)),
{
    LaunchError::uncertain(message_with_error(message, cleanup))
}

/// Nothing is started before its control group was noted and the note written,
/// and a launch is refused as if nothing had happened only before anything was
/// noted or where the record itself is gone.
pub proof fn law_control_group_is_noted_before_start(
    phase: LaunchPhase,
    error: Seq<char>,
    what: Unverified,
)
    ensures
        launch_goes_on(phase) == LaunchStepModel::Do(LaunchPhase::Spawn) ==> phase
            == LaunchPhase::Prepare,
        launch_goes_on(phase) == LaunchStepModel::Do(LaunchPhase::Prepare) ==> phase
            == LaunchPhase::Persist,
        launch_goes_on(phase) == LaunchStepModel::Do(LaunchPhase::Persist) ==> phase
            == LaunchPhase::Reserve,
        launch_fails(phase, error, what) is Refuse ==> phase == LaunchPhase::Check || phase
            == LaunchPhase::Create || phase == LaunchPhase::Note,
        !(launch_fails(phase, error, what) is Do),
{
}

// ---------------------------------------------------------------------------
// The end
// ---------------------------------------------------------------------------

/// Whether a record is still the one whose operation has run.
pub open spec fn run_holds(
    record: RecordModel,
    claim: ClaimModel,
    helper: HelperModel,
    owner: Seq<char>,
) -> bool {
    record.status == LifecycleStatus::Running && record.claim_id == Some(claim.claim_id)
        && record.generation == helper.generation && record.helper_pid == Some(helper.pid)
        && record.helper_pgid == Some(helper.pgid) && record.helper_start_ticks == Some(
        helper.start_ticks,
    ) && record.helper_boot_id == Some(helper.boot_id) && record.helper_cgroup == helper.cgroup
        && record.helper_cgroup_identity == helper.cgroup_identity && record.lease_owner == Some(
        owner,
    )
}

fn still_holds_run(record: &SecretRecord, claim: &RunClaim, helper: &HelperFence, owner: &str) -> (r:
    bool)
    ensures
        r == run_holds(record@, claim@, helper@, owner@),
{
    matches!(record.status, LifecycleStatus::Running) && is_text(
        &record.claim_id,
        claim.claim_id.as_str(),
    ) && record.generation == helper.generation && record.helper_pid == Some(helper.pid)
        && record.helper_pgid == Some(helper.pgid) && record.helper_start_ticks == Some(
        helper.start_ticks,
    ) && is_text(&record.helper_boot_id, helper.boot_id.as_str()) && same_optional_text(
        &record.helper_cgroup,
        &helper.cgroup,
    ) && record.helper_cgroup_identity == helper.cgroup_identity && is_text(
        &record.lease_owner,
        owner,
    )
}

/// The final status that a run leads to: a handle that was revoked meanwhile or
/// whose outcome is uncertain is deleted, one for a single use is consumed, and
/// any other may be used again.
pub open spec fn run_target(
    record: RecordModel,
    claim: ClaimModel,
    uncertain: bool,
) -> Option<LifecycleStatus> {
    if record.status == LifecycleStatus::Revoked || uncertain {
        Some(LifecycleStatus::Deleted)
    } else if claim.single_use {
        Some(LifecycleStatus::Consumed)
    } else {
        None
    }
}

/// What the end of a run makes of the state, and what there is to clean up.
pub open spec fn run_finished(
    state: StateModel,
    claim: ClaimModel,
    helper: HelperModel,
    uncertain: bool,
    owner: Seq<char>,
) -> Result<(StateModel, Option<ActionModel>), Seq<char>> {
    if !state.records.contains_key(claim.handle) {
        Err("unknown handle"@)
    } else {
        let record = state.records[claim.handle];
        if record.status != LifecycleStatus::Revoked && !run_holds(record, claim, helper, owner) {
            Err("operation lifecycle fence was lost"@)
        } else {
            match run_target(record, claim, uncertain) {
                Some(target) => Ok(
                    (
                        with_record(state, claim.handle, pending(record, target)),
                        Some(cleanup_of(pending(record, target), target)),
                    ),
                ),
                None => Ok(
                    (
                        with_record(
                            state,
                            claim.handle,
                            advanced(
                                RecordModel {
                                    status: LifecycleStatus::Active,
                                    claim_id: None,
                                    ..unhelped(unleased(record))
                                },
                            ),
                        ),
                        None,
                    ),
                ),
            }
        }
    }
}

/// Ends the run of a claim, and tells what there is to clean up.
pub fn finish_record(
    state: &mut State,
    claim: &RunClaim,
    helper: &HelperFence,
    uncertain: bool,
    owner: &str,
) -> (result: Result<Option<CleanupAction>, String>)
    requires
        old(state).wf(),
    ensures
        final(state).wf(),
        match result {
            Ok(action) => run_finished(old(state)@, claim@, helper@, uncertain, owner@) == Ok::<
                (StateModel, Option<ActionModel>),
                Seq<char>,
            >((final(state)@, optional_action(action))),
            Err(e) => final(state)@ == old(state)@ && run_finished(
                old(state)@,
                claim@,
                helper@,
                uncertain,
                owner@,
            ) == Err::<(StateModel, Option<ActionModel>), Seq<char>>(e@),
        },
{
    match state.records.get_mut(claim.handle.as_str()) {
        None => Err("unknown handle".to_owned()),
        Some(record) => {
            if matches!(record.status, LifecycleStatus::Revoked) {
                set_pending(record, LifecycleStatus::Deleted);
                return Ok(Some(cleanup_action_for(record, LifecycleStatus::Deleted)));
            }
            if !still_holds_run(record, claim, helper, owner) {
                assert(state@.records =~= old(state)@.records);
                return Err("operation lifecycle fence was lost".to_owned());
            }
            if uncertain {
                set_pending(record, LifecycleStatus::Deleted);
                Ok(Some(cleanup_action_for(record, LifecycleStatus::Deleted)))
            } else if claim.single_use {
                set_pending(record, LifecycleStatus::Consumed);
                Ok(Some(cleanup_action_for(record, LifecycleStatus::Consumed)))
            } else {
                record.status = LifecycleStatus::Active;
                record.claim_id = None;
                release_lease(record);
                drop_helper(record);
                advance(record);
                Ok(None)
            }
        },
    }
}

} // verus!
