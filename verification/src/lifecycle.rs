//! The life of a record: how it is provisioned, activated, revoked and cleaned up.
use vstd::prelude::*;
use vstd::string::*;

use crate::clock::{
    expired, mono_after, mono_deadline, monotonic_pair, next_generation, paired, record_expired,
    saturating, saturating_sum, Clock, ClockModel, LEASE_SECONDS,
};
use crate::keyring::{removal_fault, ClearModel, KeyringAnswers, KeyringEntryState};
use crate::record::{
    cleanup_action_for, cleanup_of, is_text, optional_text, same_optional_text, terminal,
    ActionModel, CaptureFence, CaptureFenceModel, CgroupIdentity, CleanupAction, HelperFence,
    HelperModel, LifecycleStatus, RecordModel, SecretRecord,
};
use crate::state::{State, StateModel};
use crate::text::{
    blank, byte_count, byte_len, failure, has_control, holds_control, is_blank, joined, same_text,
    separated, separated_text, verdict,
};
use crate::validate::{account_of, keyring_account};

verus! {

/// The longest time, in seconds, that a handle may be asked for.
pub const MAX_TTL_SECONDS: u64 = 86_400;

/// The number of bytes that a target, a label, a handle or the name of an
/// operation may take.
pub const MAX_TEXT_BYTES: usize = 160;

/// A text that is not accepted from a user.
pub open spec fn text_rejected(value: Seq<char>) -> bool {
    blank(value) || byte_count(value) > MAX_TEXT_BYTES || holds_control(value)
}

/// What is wrong with a text that is given for a field.
pub open spec fn text_fault(value: Seq<char>, field: Seq<char>) -> Option<Seq<char>> {
    if text_rejected(value) {
        Some("invalid "@ + field)
    } else {
        None
    }
}

/// Whether a text is accepted for a field.
pub fn validate_text(value: &str, field: &str) -> (result: Result<(), String>)
    ensures
        verdict(result, text_fault(value@, field@)),
{
    if is_blank(value) || byte_len(value) > MAX_TEXT_BYTES || has_control(value) {
        return Err(joined("invalid ", field));
    }
    Ok(())
}

/// The time to live that is taken: the one that was asked for, or none.
pub fn validate_ttl(ttl: u64) -> (result: Result<u64, String>)
    ensures
        match result {
            Ok(taken) => taken == ttl && 1 <= ttl <= MAX_TTL_SECONDS,
            Err(e) => !(1 <= ttl <= MAX_TTL_SECONDS) && e@
                == "ttl_seconds must be between 1 and 86400"@,
        },
{
    if ttl < 1 || ttl > MAX_TTL_SECONDS {
        return Err("ttl_seconds must be between 1 and 86400".to_owned());
    }
    Ok(ttl)
}

/// The state with one of its records replaced.
pub open spec fn with_record(state: StateModel, key: Seq<char>, record: RecordModel) -> StateModel {
    StateModel { records: state.records.insert(key, record), ..state }
}

/// A record that nobody holds a lease on.
pub open spec fn unleased(record: RecordModel) -> RecordModel {
    RecordModel {
        lease_owner: None,
        lease_expires_at: None,
        lease_expires_mono: None,
        lease_boot_id: None,
        ..record
    }
}

/// A record without a helper.
pub open spec fn unhelped(record: RecordModel) -> RecordModel {
    RecordModel {
        helper_pid: None,
        helper_pgid: None,
        helper_start_ticks: None,
        helper_boot_id: None,
        helper_kind: None,
        helper_cgroup: None,
        helper_cgroup_identity: None,
        ..record
    }
}

/// A record that was touched: whoever fenced it before has lost it.
pub open spec fn advanced(record: RecordModel) -> RecordModel {
    RecordModel { generation: next_generation(record.generation), ..record }
}

/// A record that is to be cleaned up towards a final status.
pub open spec fn pending(record: RecordModel, target: LifecycleStatus) -> RecordModel {
    RecordModel {
        status: LifecycleStatus::CleanupPending,
        cleanup_target: Some(target),
        ..record
    }
}

/// A record with what went wrong noted.
pub open spec fn noted(record: RecordModel, error: Seq<char>) -> RecordModel {
    RecordModel { last_error: Some(error), ..record }
}

/// A record that is leased to a process for some seconds from now.
pub open spec fn leased(
    record: RecordModel,
    owner: Seq<char>,
    clock: ClockModel,
    seconds: u64,
) -> RecordModel {
    RecordModel {
        lease_owner: Some(owner),
        lease_expires_at: Some(saturating(clock.wall, seconds)),
        lease_expires_mono: mono_after(paired(clock).0, seconds),
        lease_boot_id: paired(clock).1,
        ..record
    }
}

/// Ends the lease on a record.
pub(crate) fn release_lease(record: &mut SecretRecord)
    ensures
        final(record)@ == unleased(old(record)@),
{
    record.lease_owner = None;
    record.lease_expires_at = None;
    record.lease_expires_mono = None;
    record.lease_boot_id = None;
}

/// Takes the helper off a record.
pub(crate) fn drop_helper(record: &mut SecretRecord)
    ensures
        final(record)@ == unhelped(old(record)@),
{
    record.helper_pid = None;
    record.helper_pgid = None;
    record.helper_start_ticks = None;
    record.helper_boot_id = None;
    record.helper_kind = None;
    record.helper_cgroup = None;
    record.helper_cgroup_identity = None;
}

/// Moves a record to its next generation.
pub(crate) fn advance(record: &mut SecretRecord)
    ensures
        final(record)@ == advanced(old(record)@),
{
    record.generation = saturating_sum(record.generation, 1);
}

/// Lets a record wait for its cleanup.
pub(crate) fn set_pending(record: &mut SecretRecord, target: LifecycleStatus)
    ensures
        final(record)@ == pending(old(record)@, target),
{
    record.status = LifecycleStatus::CleanupPending;
    record.cleanup_target = Some(target);
}

/// Leases a record to a process.
pub(crate) fn take_lease(record: &mut SecretRecord, owner: &str, clock: &Clock, seconds: u64)
    ensures
        final(record)@ == leased(old(record)@, owner@, clock@, seconds),
{
    let (current_mono, current_boot) = monotonic_pair(clock);
    record.lease_owner = Some(owner.to_owned());
    record.lease_expires_at = Some(saturating_sum(clock.wall, seconds));
    record.lease_expires_mono = mono_deadline(current_mono, seconds);
    record.lease_boot_id = current_boot;
}

// ---------------------------------------------------------------------------
// Capture
// ---------------------------------------------------------------------------

/// The record of a secret that is about to be stored.
pub open spec fn provisioned(
    handle: Seq<char>,
    target: Seq<char>,
    label: Seq<char>,
    ttl: u64,
    single_use: bool,
    owner: Seq<char>,
    clock: ClockModel,
) -> RecordModel {
    RecordModel {
        handle,
        target,
        label,
        created_at: clock.wall,
        expires_at: saturating(clock.wall, ttl),
        single_use,
        status: LifecycleStatus::Provisioning,
        keyring_account: account_of(handle),
        consumed_at: None,
        claim_id: None,
        cleanup_target: None,
        last_error: None,
        generation: 1,
        lease_owner: Some(owner),
        lease_expires_at: Some(saturating(clock.wall, LEASE_SECONDS)),
        lease_expires_mono: mono_after(paired(clock).0, LEASE_SECONDS),
        lease_boot_id: paired(clock).1,
        expires_mono: mono_after(paired(clock).0, ttl),
        expires_boot_id: paired(clock).1,
        helper_pid: None,
        helper_pgid: None,
        helper_start_ticks: None,
        helper_boot_id: None,
        helper_kind: None,
        helper_cgroup: None,
        helper_cgroup_identity: None,
        cleanup_keyring_done: false,
        helper_descendants_unknown: false,
    }
}

/// The record of a secret that is about to be stored.
pub fn provisioning_record(
    handle: &str,
    target: &str,
    label: &str,
    ttl: u64,
    single_use: bool,
    owner: &str,
    clock: &Clock,
) -> (record: SecretRecord)
    ensures
        record@ == provisioned(handle@, target@, label@, ttl, single_use, owner@, clock@),
{
    let (current_mono, lease_boot) = monotonic_pair(clock);
    let (_, expires_boot) = monotonic_pair(clock);
    SecretRecord {
        handle: handle.to_owned(),
        target: target.to_owned(),
        label: label.to_owned(),
        created_at: clock.wall,
        expires_at: saturating_sum(clock.wall, ttl),
        single_use,
        status: LifecycleStatus::Provisioning,
        keyring_account: keyring_account(handle),
        consumed_at: None,
        claim_id: None,
        cleanup_target: None,
        last_error: None,
        generation: 1,
        lease_owner: Some(owner.to_owned()),
        lease_expires_at: Some(saturating_sum(clock.wall, LEASE_SECONDS)),
        lease_expires_mono: mono_deadline(current_mono, LEASE_SECONDS),
        lease_boot_id: lease_boot,
        expires_mono: mono_deadline(current_mono, ttl),
        expires_boot_id: expires_boot,
        helper_pid: None,
        helper_pgid: None,
        helper_start_ticks: None,
        helper_boot_id: None,
        helper_kind: None,
        helper_cgroup: None,
        helper_cgroup_identity: None,
        cleanup_keyring_done: false,
        helper_descendants_unknown: false,
    }
}

/// What a running helper is known by.
#[derive(Debug, Clone)]
pub struct HelperProcess {
    pub pid: u32,
    pub start_ticks: u64,
    pub boot_id: String,
}

/// Whether a process leads the group that is named after it.
pub fn process_group_matches(reported: i32, pgid: i32) -> (r: bool)
    ensures
        r == (reported == pgid),
{
    reported == pgid
}

/// What a helper is known by, from what the system tells of it.
pub fn observe_helper(
    pid: u32,
    ticks: Result<Option<u64>, String>,
    reported_group: i32,
    boot: Option<String>,
) -> (result: Result<HelperProcess, String>)
    ensures
        match result {
            Ok(helper) => ticks == Ok::<Option<u64>, String>(Some(helper.start_ticks))
                && reported_group == pid as i32 && optional_text(boot) == Some(helper.boot_id@)
                && helper.pid == pid,
            Err(e) => match ticks {
                Err(told) => e@ == told@,
                Ok(None) => e@ == "helper identity could not be verified"@,
                Ok(Some(_)) => if reported_group != pid as i32 {
                    e@ == "helper process group could not be verified"@
                } else {
                    boot is None && e@ == "helper boot identity is unavailable"@
                },
            },
        },
{
    match ticks {
        Err(told) => Err(told),
        Ok(None) => Err("helper identity could not be verified".to_owned()),
        Ok(Some(start_ticks)) => {
            let pgid: i32 = pid as i32;
            if !process_group_matches(reported_group, pgid) {
                return Err("helper process group could not be verified".to_owned());
            }
            match boot {
                None => Err("helper boot identity is unavailable".to_owned()),
                Some(boot_id) => Ok(HelperProcess { pid, start_ticks, boot_id }),
            }
        },
    }
}

/// A record with a helper at work for it.
pub open spec fn helped(
    record: RecordModel,
    pid: u32,
    start_ticks: u64,
    boot: Seq<char>,
    kind: Seq<char>,
    cgroup: Option<Seq<char>>,
    identity: Option<CgroupIdentity>,
) -> RecordModel {
    RecordModel {
        helper_pid: Some(pid),
        helper_pgid: Some(pid as i32),
        helper_start_ticks: Some(start_ticks),
        helper_boot_id: Some(boot),
        helper_kind: Some(kind),
        helper_cgroup: cgroup,
        helper_cgroup_identity: identity,
        ..record
    }
}

/// Whether a capture still holds the record it works on.
pub open spec fn capture_holds(
    record: RecordModel,
    fence: CaptureFenceModel,
    owner: Seq<char>,
) -> bool {
    record.keyring_account == account_of(fence.handle) && record.status
        == LifecycleStatus::Provisioning && record.lease_owner == Some(owner) && record.generation
        == fence.generation
}

/// Why no helper can be noted for a capture.
pub open spec fn register_fault(
    state: StateModel,
    fence: CaptureFenceModel,
    owner: Seq<char>,
) -> Option<Seq<char>> {
    if !state.records.contains_key(fence.handle) {
        Some("helper owner record is missing"@)
    } else if !capture_holds(state.records[fence.handle], fence, owner) {
        Some("helper lifecycle fence was lost"@)
    } else {
        None
    }
}

fn still_holds_capture(record: &SecretRecord, fence: &CaptureFence, owner: &str) -> (r: bool)
    ensures
        r == capture_holds(record@, fence@, owner@),
{
    let account = keyring_account(fence.handle.as_str());
    same_text(record.keyring_account.as_str(), account.as_str()) && matches!(
        record.status,
        LifecycleStatus::Provisioning
    ) && is_text(&record.lease_owner, owner) && record.generation == fence.generation
}

/// Notes the helper of a record.
pub(crate) fn set_helper(
    record: &mut SecretRecord,
    helper: &HelperProcess,
    kind: &str,
    cgroup: Option<String>,
    identity: Option<CgroupIdentity>,
)
    ensures
        final(record)@ == helped(
            old(record)@,
            helper.pid,
            helper.start_ticks,
            helper.boot_id@,
            kind@,
            optional_text(cgroup),
            identity,
        ),
{
    record.helper_pid = Some(helper.pid);
    record.helper_pgid = Some(helper.pid as i32);
    record.helper_start_ticks = Some(helper.start_ticks);
    record.helper_boot_id = Some(helper.boot_id.clone());
    record.helper_kind = Some(kind.to_owned());
    record.helper_cgroup = cgroup;
    record.helper_cgroup_identity = identity;
}

/// Notes a helper that stores the secret of a capture.
pub fn register_helper(
    state: &mut State,
    fence: &CaptureFence,
    helper: &HelperProcess,
    kind: &str,
    cgroup: &str,
    identity: CgroupIdentity,
    owner: &str,
) -> (result: Result<HelperFence, String>)
    requires
        old(state).wf(),
    ensures
        final(state).wf(),
        match result {
            Ok(noted) => {
                let before = old(state)@.records[fence.handle@];
                let after = advanced(
                    helped(
                        before,
                        helper.pid,
                        helper.start_ticks,
                        helper.boot_id@,
                        kind@,
                        Some(cgroup@),
                        Some(identity),
                    ),
                );
                &&& register_fault(old(state)@, fence@, owner@) is None
                &&& final(state)@ == with_record(old(state)@, fence.handle@, after)
                &&& noted@ == (HelperModel {
                    handle: fence.handle@,
                    pid: helper.pid,
                    pgid: helper.pid as i32,
                    start_ticks: helper.start_ticks,
                    boot_id: helper.boot_id@,
                    generation: after.generation,
                    cgroup: Some(cgroup@),
                    cgroup_identity: Some(identity),
                })
            },
            Err(e) => final(state)@ == old(state)@ && register_fault(old(state)@, fence@, owner@)
                == Some(e@),
        },
{
    match state.records.get_mut(fence.handle.as_str()) {
        None => Err("helper owner record is missing".to_owned()),
        Some(record) => {
            if !still_holds_capture(record, fence, owner) {
                assert(state@.records =~= old(state)@.records);
                return Err("helper lifecycle fence was lost".to_owned());
            }
            set_helper(record, helper, kind, Some(cgroup.to_owned()), Some(identity));
            advance(record);
            let generation: u64 = record.generation;
            Ok(
                HelperFence {
                    handle: fence.handle.clone(),
                    pid: helper.pid,
                    pgid: helper.pid as i32,
                    start_ticks: helper.start_ticks,
                    boot_id: helper.boot_id.clone(),
                    generation,
                    cgroup: Some(cgroup.to_owned()),
                    cgroup_identity: Some(identity),
                },
            )
        },
    }
}

/// Whether a record is still the one whose helper was noted.
pub open spec fn helper_holds(record: RecordModel, fence: HelperModel) -> bool {
    record.generation == fence.generation && record.helper_pid == Some(fence.pid)
        && record.helper_pgid == Some(fence.pgid) && record.helper_start_ticks == Some(
        fence.start_ticks,
    ) && record.helper_boot_id == Some(fence.boot_id) && record.helper_cgroup == fence.cgroup
        && record.helper_cgroup_identity == fence.cgroup_identity
}

fn still_holds_helper(record: &SecretRecord, fence: &HelperFence) -> (r: bool)
    ensures
        r == helper_holds(record@, fence@),
{
    record.generation == fence.generation && record.helper_pid == Some(fence.pid)
        && record.helper_pgid == Some(fence.pgid) && record.helper_start_ticks == Some(
        fence.start_ticks,
    ) && is_text(&record.helper_boot_id, fence.boot_id.as_str()) && same_optional_text(
        &record.helper_cgroup,
        &fence.cgroup,
    ) && record.helper_cgroup_identity == fence.cgroup_identity
}

/// What forgetting a helper makes of the state: the helper is taken off its
/// record, or is gone already, or its fence was lost.
pub open spec fn helper_cleared(state: StateModel, fence: HelperModel) -> Result<
    StateModel,
    Seq<char>,
> {
    if !state.records.contains_key(fence.handle) {
        Err("helper owner record is missing"@)
    } else {
        let record = state.records[fence.handle];
        if helper_holds(record, fence) {
            Ok(
                with_record(
                    state,
                    fence.handle,
                    advanced(
                        RecordModel { helper_descendants_unknown: false, ..unhelped(record) },
                    ),
                ),
            )
        } else if record.helper_pid is None && (record.status == LifecycleStatus::CleanupPending
            || terminal(record.status)) {
            Ok(state)
        } else {
            Err("helper lifecycle fence was lost"@)
        }
    }
}

/// Forgets a helper that has ended.
pub fn clear_helper(state: &mut State, fence: &HelperFence) -> (result: Result<(), String>)
    requires
        old(state).wf(),
    ensures
        final(state).wf(),
        match result {
            Ok(_) => helper_cleared(old(state)@, fence@) == Ok::<StateModel, Seq<char>>(
                final(state)@,
            ),
            Err(e) => final(state)@ == old(state)@ && helper_cleared(old(state)@, fence@) == Err::<
                StateModel,
                Seq<char>,
            >(e@),
        },
{
    match state.records.get_mut(fence.handle.as_str()) {
        None => Err("helper owner record is missing".to_owned()),
        Some(record) => {
            if still_holds_helper(record, fence) {
                drop_helper(record);
                record.helper_descendants_unknown = false;
                advance(record);
                return Ok(());
            }
            let gone = record.helper_pid.is_none() && (matches!(
                record.status,
                LifecycleStatus::CleanupPending
            ) || record.status.is_terminal());
            assert(state@.records =~= old(state)@.records);
            if gone {
                return Ok(());
            }
            Err("helper lifecycle fence was lost".to_owned())
        },
    }
}

/// What activating a capture makes of the state.
pub open spec fn capture_activated(state: StateModel, handle: Seq<char>, clock: ClockModel) -> Result<
    StateModel,
    Seq<char>,
> {
    if !state.records.contains_key(handle) {
        Err("capture state disappeared"@)
    } else if state.records[handle].status != LifecycleStatus::Provisioning {
        Err("capture was revoked during provisioning"@)
    } else if expired(state.records[handle], clock) {
        Err("capture expired before activation"@)
    } else {
        Ok(
            with_record(
                state,
                handle,
                advanced(
                    RecordModel {
                        status: LifecycleStatus::Active,
                        ..unleased(state.records[handle])
                    },
                ),
            ),
        )
    }
}

/// Lets a captured secret be used.
pub fn activate_capture(state: &mut State, handle: &str, clock: &Clock) -> (result: Result<
    (),
    String,
>)
    requires
        old(state).wf(),
    ensures
        final(state).wf(),
        match result {
            Ok(_) => capture_activated(old(state)@, handle@, clock@) == Ok::<StateModel, Seq<char>>(
                final(state)@,
            ),
            Err(e) => final(state)@ == old(state)@ && capture_activated(
                old(state)@,
                handle@,
                clock@,
            ) == Err::<StateModel, Seq<char>>(e@),
        },
{
    match state.records.get_mut(handle) {
        None => Err("capture state disappeared".to_owned()),
        Some(record) => {
            if !matches!(record.status, LifecycleStatus::Provisioning) {
                assert(state@.records =~= old(state)@.records);
                return Err("capture was revoked during provisioning".to_owned());
            }
            if record_expired(record, clock) {
                assert(state@.records =~= old(state)@.records);
                return Err("capture expired before activation".to_owned());
            }
            record.status = LifecycleStatus::Active;
            release_lease(record);
            advance(record);
            Ok(())
        },
    }
}

// ---------------------------------------------------------------------------
// Cleanup
// ---------------------------------------------------------------------------

/// A record that is given up, with what went wrong noted.
pub open spec fn given_up(record: RecordModel, target: LifecycleStatus, error: Seq<char>) -> RecordModel {
    advanced(noted(unleased(pending(record, target)), error))
}

/// What giving up a handle makes of the state.
pub open spec fn handle_given_up(
    state: StateModel,
    handle: Seq<char>,
    target: LifecycleStatus,
    error: Seq<char>,
) -> Result<(StateModel, ActionModel), Seq<char>> {
    if !state.records.contains_key(handle) {
        Err("unknown handle"@)
    } else if terminal(state.records[handle].status) {
        Err("cleanup was already finalized"@)
    } else {
        let record = given_up(state.records[handle], target, error);
        Ok((with_record(state, handle, record), cleanup_of(record, target)))
    }
}

/// Gives up a handle, and tells what there is to clean up.
pub fn mark_cleanup_pending(
    state: &mut State,
    handle: &str,
    target: LifecycleStatus,
    error: &str,
) -> (result: Result<CleanupAction, String>)
    requires
        old(state).wf(),
    ensures
        final(state).wf(),
        match result {
            Ok(action) => handle_given_up(old(state)@, handle@, target, error@) == Ok::<
                (StateModel, ActionModel),
                Seq<char>,
            >((final(state)@, action@)),
            Err(e) => final(state)@ == old(state)@ && handle_given_up(
                old(state)@,
                handle@,
                target,
                error@,
            ) == Err::<(StateModel, ActionModel), Seq<char>>(e@),
        },
{
    match state.records.get_mut(handle) {
        None => Err("unknown handle".to_owned()),
        Some(record) => {
            if record.status.is_terminal() {
                assert(state@.records =~= old(state)@.records);
                return Err("cleanup was already finalized".to_owned());
            }
            set_pending(record, target);
            record.last_error = Some(error.to_owned());
            release_lease(record);
            advance(record);
            Ok(cleanup_action_for(record, target))
        },
    }
}

/// Gives up a record whose claim ended before anything ran, or before what ran
/// was known.
pub fn mark_record_cleanup_pending(record: &mut SecretRecord, target: LifecycleStatus, error: String)
    ensures
        final(record)@ == given_up(
            (RecordModel { claim_id: None, ..old(record)@ }),
            target,
            error@,
        ),
{
    set_pending(record, target);
    record.claim_id = None;
    release_lease(record);
    record.last_error = Some(error);
    advance(record);
}

/// What went wrong in a cleanup, if anything did.
pub open spec fn cleanup_errors(helper: Option<Seq<char>>, keyring: Option<Seq<char>>) -> Option<
    Seq<char>,
> {
    match (helper, keyring) {
        (Some(h), Some(k)) => Some(
            separated("helper cleanup failed: "@ + h, "keyring cleanup failed: "@ + k),
        ),
        (Some(h), None) => Some("helper cleanup failed: "@ + h),
        (None, Some(k)) => Some("keyring cleanup failed: "@ + k),
        (None, None) => None,
    }
}

/// The outcome of a cleanup: success only if both its parts succeeded.
pub fn cleanup_outcome(helper: &Result<(), String>, keyring: &Result<(), String>) -> (result: Result<
    (),
    String,
>)
    ensures
        verdict(result, cleanup_errors(failure(*helper), failure(*keyring))),
{
    match (helper, keyring) {
        (Err(h), Err(k)) => {
            let first = joined("helper cleanup failed: ", h.as_str());
            let second = joined("keyring cleanup failed: ", k.as_str());
            Err(separated_text(first.as_str(), second.as_str()))
        },
        (Err(h), Ok(_)) => Err(joined("helper cleanup failed: ", h.as_str())),
        (Ok(_), Err(k)) => Err(joined("keyring cleanup failed: ", k.as_str())),
        (Ok(_), Ok(_)) => Ok(()),
    }
}

/// Whether a cleanup is still the one that a record waits for.
pub open spec fn cleanup_holds(record: RecordModel, action: ActionModel) -> bool {
    (record.status == LifecycleStatus::CleanupPending || record.status
        == LifecycleStatus::Revoked) && record.cleanup_target == Some(action.target)
        && record.generation == action.generation
}

/// Nothing of a helper is left, or may be left.
pub open spec fn helper_gone(record: RecordModel) -> bool {
    record.helper_pid is None && record.helper_cgroup is None && !record.helper_descendants_unknown
}

/// A record after one attempt to clean it up. It reaches its final status only
/// when both its helper and its keyring entry are gone.
pub open spec fn cleaned(
    record: RecordModel,
    target: LifecycleStatus,
    helper: Option<Seq<char>>,
    keyring: Option<Seq<char>>,
    now: u64,
) -> RecordModel {
    let freed = if helper is None {
        RecordModel { helper_descendants_unknown: false, ..unhelped(record) }
    } else {
        record
    };
    let cleared = if keyring is None {
        RecordModel { cleanup_keyring_done: true, ..freed }
    } else {
        freed
    };
    if helper_gone(cleared) && cleared.cleanup_keyring_done {
        advanced(
            RecordModel {
                status: target,
                cleanup_target: None,
                claim_id: None,
                last_error: None,
                cleanup_keyring_done: false,
                helper_descendants_unknown: false,
                consumed_at: if target == LifecycleStatus::Consumed {
                    Some(now)
                } else {
                    cleared.consumed_at
                },
                ..unleased(cleared)
            },
        )
    } else {
        advanced(
            noted(
                cleared,
                match cleanup_errors(helper, keyring) {
                    Some(errors) => errors,
                    None => "cleanup remains incomplete"@,
                },
            ),
        )
    }
}

/// What one attempt to clean up makes of the state.
pub open spec fn cleanup_finalized(
    state: StateModel,
    action: ActionModel,
    helper: Option<Seq<char>>,
    keyring: Option<Seq<char>>,
    now: u64,
) -> Result<StateModel, Seq<char>> {
    if !state.records.contains_key(action.handle) {
        Err("unknown handle"@)
    } else if !cleanup_holds(state.records[action.handle], action) {
        Ok(state)
    } else {
        Ok(
            with_record(
                state,
                action.handle,
                cleaned(state.records[action.handle], action.target, helper, keyring, now),
            ),
        )
    }
}

fn clean_record(
    record: &mut SecretRecord,
    target: LifecycleStatus,
    helper: &Result<(), String>,
    keyring: &Result<(), String>,
    now: u64,
)
    ensures
        final(record)@ == cleaned(old(record)@, target, failure(*helper), failure(*keyring), now),
{
    if helper.is_ok() {
        drop_helper(record);
        record.helper_descendants_unknown = false;
    }
    if keyring.is_ok() {
        record.cleanup_keyring_done = true;
    }
    let gone = record.helper_pid.is_none() && record.helper_cgroup.is_none()
        && !record.helper_descendants_unknown;
    if gone && record.cleanup_keyring_done {
        record.status = target;
        record.cleanup_target = None;
        record.claim_id = None;
        release_lease(record);
        record.last_error = None;
        record.cleanup_keyring_done = false;
        record.helper_descendants_unknown = false;
        if matches!(target, LifecycleStatus::Consumed) {
            record.consumed_at = Some(now);
        }
    } else {
        record.last_error = Some(
            match cleanup_outcome(helper, keyring) {
                Err(errors) => errors,
                Ok(_) => "cleanup remains incomplete".to_owned(),
            },
        );
    }
    advance(record);
}

/// Notes what one attempt to clean up has come to.
pub fn finalize_cleanup_parts(
    state: &mut State,
    action: &CleanupAction,
    helper_result: &Result<(), String>,
    keyring_result: &Result<(), String>,
    now: u64,
) -> (result: Result<(), String>)
    requires
        old(state).wf(),
    ensures
        final(state).wf(),
        ({
            let expected = cleanup_finalized(
                old(state)@,
                action@,
                failure(*helper_result),
                failure(*keyring_result),
                now,
            );
            match result {
                Ok(_) => expected == Ok::<StateModel, Seq<char>>(final(state)@),
                Err(e) => final(state)@ == old(state)@ && expected == Err::<StateModel, Seq<char>>(
                    e@,
                ),
            }
        }),
{
    match state.records.get_mut(action.handle.as_str()) {
        None => Err("unknown handle".to_owned()),
        Some(record) => {
            if !matches!(
                record.status,
                LifecycleStatus::CleanupPending | LifecycleStatus::Revoked
            ) || record.cleanup_target != Some(action.target) || record.generation
                != action.generation {
                assert(state@.records =~= old(state)@.records);
                return Ok(());
            }
            clean_record(record, action.target, helper_result, keyring_result, now);
            Ok(())
        },
    }
}

/// What has to be done about the keyring entry of a record.
pub open spec fn keyring_entry_left(action: ActionModel) -> bool {
    !action.cleanup_keyring_done && action.account.len() > 0
}

/// Whether there is a keyring entry to remove.
pub fn has_keyring_entry(action: &CleanupAction) -> (r: bool)
    ensures
        r == keyring_entry_left(action@),
{
    !action.cleanup_keyring_done && action.account.as_str().unicode_len() > 0
}

/// For what a record is cleaned up.
#[derive(Debug, Clone, Copy, PartialEq, Eq, Structural)]
pub enum CleanupPurpose {
    /// For a request that has made, deleted or used up a handle.
    Request,
    /// For the recovery of what an earlier process has left.
    Recovery,
}

/// How a cleanup is done.
#[derive(Debug, Clone, Copy, PartialEq, Eq, Structural)]
pub struct CleanupPlan {
    /// Whether there is a keyring entry to remove.
    pub clear_keyring: bool,
    /// Whether a cancellation stops it.
    pub heed_cancellation: bool,
}

/// How a cleanup is done. That of a request does not end with the request; that of a
/// recovery does, and is taken up again by the next.
pub open spec fn cleanup_planned(action: ActionModel, purpose: CleanupPurpose) -> CleanupPlan {
    CleanupPlan {
        clear_keyring: keyring_entry_left(action),
        heed_cancellation: purpose == CleanupPurpose::Recovery,
    }
}

/// Whether a cancellation stops a cleanup.
pub fn heeds_cancellation(purpose: CleanupPurpose) -> (r: bool)
    ensures
        r == (purpose == CleanupPurpose::Recovery),
{
    matches!(purpose, CleanupPurpose::Recovery)
}

/// How a cleanup is done.
pub fn plan_cleanup(action: &CleanupAction, purpose: CleanupPurpose) -> (plan: CleanupPlan)
    ensures
        plan == cleanup_planned(action@, purpose),
{
    CleanupPlan {
        clear_keyring: has_keyring_entry(action),
        heed_cancellation: heeds_cancellation(purpose),
    }
}

/// What a cleanup makes of the state and what goes wrong with it, given what goes
/// wrong with the helper and what the keyring answers.
pub open spec fn cleanup_performed(
    state: StateModel,
    action: ActionModel,
    purpose: CleanupPurpose,
    cancelled: bool,
    helper: Option<Seq<char>>,
    keyring: KeyringAnswers,
    now: u64,
) -> (StateModel, Option<Seq<char>>) {
    let plan = cleanup_planned(action, purpose);
    let left = if plan.clear_keyring {
        removal_fault(
            ClearModel::Clear { again: false },
            keyring,
            plan.heed_cancellation && cancelled,
        )
    } else {
        None
    };
    match cleanup_finalized(state, action, helper, left, now) {
        Err(e) => (state, Some(e)),
        Ok(after) => (after, cleanup_errors(helper, left)),
    }
}

/// A request that was cancelled is cleaned up just as any other.
pub proof fn law_cleanup_outlasts_its_request(
    state: StateModel,
    action: ActionModel,
    helper: Option<Seq<char>>,
    keyring: KeyringAnswers,
    now: u64,
)
    ensures
        cleanup_performed(state, action, CleanupPurpose::Request, true, helper, keyring, now)
            == cleanup_performed(
            state,
            action,
            CleanupPurpose::Request,
            false,
            helper,
            keyring,
            now,
        ),
{
}

/// The cleanup of a request reaches its end, whether or not the request was
/// cancelled: where nothing is left of the helper and the keyring forgets the
/// entry when it is asked to, the record gets its final status.
pub proof fn law_cleanup_of_a_request_reaches_its_end(
    state: StateModel,
    action: ActionModel,
    cancelled: bool,
    keyring: KeyringAnswers,
    now: u64,
)
    requires
        state.records.contains_key(action.handle),
        cleanup_holds(state.records[action.handle], action),
        (keyring.clear)(false, false) is Ok,
        (keyring.search)(false, 0) == Ok::<KeyringEntryState, Seq<char>>(
            KeyringEntryState::Missing,
        ),
    ensures
        ({
            let (after, fault) = cleanup_performed(
                state,
                action,
                CleanupPurpose::Request,
                cancelled,
                None,
                keyring,
                now,
            );
            &&& fault is None
            &&& after.records[action.handle].status == action.target
            &&& after.records[action.handle].cleanup_target is None
        }),
{
    reveal_with_fuel(removal_fault, 3);
}

// ---------------------------------------------------------------------------
// Deletion
// ---------------------------------------------------------------------------

/// A claimed record whose launch has noted a control group and has started nothing
/// that is known of.
pub open spec fn launch_reserved_only(record: RecordModel) -> bool {
    record.status == LifecycleStatus::Claimed && record.helper_cgroup is Some
        && record.helper_pid is None
}

/// A record that is revoked. A run that is under way finds it revoked when it
/// ends; everything else is cleaned up at once, and so is a launch that has noted
/// no more than its control group.
pub open spec fn revoked(record: RecordModel) -> RecordModel {
    if (record.status == LifecycleStatus::Claimed || record.status == LifecycleStatus::Running)
        && !launch_reserved_only(record) {
        advanced(
            RecordModel {
                status: LifecycleStatus::Revoked,
                cleanup_target: Some(LifecycleStatus::Deleted),
                ..record
            },
        )
    } else {
        advanced(pending(record, LifecycleStatus::Deleted))
    }
}

/// What deleting a handle makes of the state, and what there is to clean up: a
/// record whose life has ended is left as it is.
pub open spec fn handle_deleted(state: StateModel, handle: Seq<char>) -> Result<
    (StateModel, Option<ActionModel>),
    Seq<char>,
> {
    if !state.records.contains_key(handle) {
        Err("unknown handle"@)
    } else if terminal(state.records[handle].status) {
        Ok((state, None))
    } else {
        let record = revoked(state.records[handle]);
        Ok(
            (
                with_record(state, handle, record),
                Some(cleanup_of(record, LifecycleStatus::Deleted)),
            ),
        )
    }
}

/// What an optional cleanup stands for.
pub open spec fn optional_action(action: Option<CleanupAction>) -> Option<ActionModel> {
    match action {
        Some(a) => Some(a@),
        None => None,
    }
}

/// Revokes a handle, and tells what there is to clean up.
pub fn delete_handle(state: &mut State, handle: &str) -> (result: Result<
    Option<CleanupAction>,
    String,
>)
    requires
        old(state).wf(),
    ensures
        final(state).wf(),
        match result {
            Ok(action) => handle_deleted(old(state)@, handle@) == Ok::<
                (StateModel, Option<ActionModel>),
                Seq<char>,
            >((final(state)@, optional_action(action))),
            Err(e) => final(state)@ == old(state)@ && handle_deleted(old(state)@, handle@) == Err::<
                (StateModel, Option<ActionModel>),
                Seq<char>,
            >(e@),
        },
{
    match state.records.get_mut(handle) {
        None => Err("unknown handle".to_owned()),
        Some(record) => {
            let reserved_only = record.helper_cgroup.is_some() && record.helper_pid.is_none();
            match record.status {
                LifecycleStatus::Deleted | LifecycleStatus::Consumed | LifecycleStatus::Expired => {
                    assert(state@.records =~= old(state)@.records);
                    Ok(None)
                },
                LifecycleStatus::Claimed if reserved_only => {
                    set_pending(record, LifecycleStatus::Deleted);
                    advance(record);
                    Ok(Some(cleanup_action_for(record, LifecycleStatus::Deleted)))
                },
                LifecycleStatus::Claimed | LifecycleStatus::Running => {
                    record.status = LifecycleStatus::Revoked;
                    record.cleanup_target = Some(LifecycleStatus::Deleted);
                    advance(record);
                    Ok(Some(cleanup_action_for(record, LifecycleStatus::Deleted)))
                },
                _ => {
                    set_pending(record, LifecycleStatus::Deleted);
                    advance(record);
                    Ok(Some(cleanup_action_for(record, LifecycleStatus::Deleted)))
                },
            }
        },
    }
}

} // verus!
