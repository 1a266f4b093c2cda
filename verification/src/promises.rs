//! What every operation on a handle promises: when it succeeds, what it leaves of the
//! record, and how one operation bears on the next.
use vstd::prelude::*;
use vstd::string::*;

use crate::clock::{
    expired, fence_expired, lease_liveness, lease_of, mono_deadline, monotonic_pair,
    now as clock_now, operation_cgroup_expired, operation_cgroup_fence,
    operation_cgroup_fence_for_owner, operation_cgroup_owner_live,
    operation_cgroup_owner_liveness, own_fence, record_expired, saturating_sum, Clock, ClockModel,
    LeaseLiveness,
};
use crate::flow::{capture_provisioned, provision_capture, provision_under};
use crate::identity::ProcessLiveness;
use crate::keyring::{removal_fault, ClearModel, KeyringAnswers, KeyringEntryState};
use crate::lifecycle::{
    activate_capture, capture_activated, cleanup_finalized, cleanup_outcome, cleanup_performed,
    cleanup_planned, clear_helper, delete_handle, finalize_cleanup_parts, handle_deleted,
    handle_given_up, has_keyring_entry, heeds_cancellation, helped, helper_cleared,
    mark_cleanup_pending, mark_record_cleanup_pending, plan_cleanup, process_group_matches,
    provisioned, provisioning_record, register_fault, register_helper, validate_text, CleanupPlan,
    CleanupPurpose, HelperProcess,
};
use crate::reconcile::{
    actions_of, first_error, reconcile_record, reconcile_records, recovered, recovery_actions,
    recovery_target, stale_places, Reading,
};
use crate::record::{
    cleanup_of, helper_cleanup_of, ActionModel, CaptureFence, CaptureFenceModel, CgroupIdentity,
    ClaimModel, CleanupAction, FenceModel, HelperFence, HelperModel, LifecycleStatus,
    OperationCgroupFence, RecordModel, RunClaim, SecretRecord,
};
use crate::requests::{CaptureModel, CaptureRequest};
use crate::run::{
    check_launch, claim_decided, claim_for_run, claim_restored, claim_with_id, finish_record,
    launch_fault, launch_not_started, launch_reserved, launch_unrecognized, note_running,
    note_start_failure, note_unverified, reserve_launch, restore_claim, run_finished, running,
    ClaimDecision, ClaimDecisionModel, LaunchError, Unverified,
};
use crate::state::{
    ensure_capture_capacity, law_pruning_keeps_as_many_as_it_can, law_pruning_keeps_what_is_in_use,
    migrated_record, prune_terminal_records, pruned, removable, removable_keys, State, StateModel,
};
use crate::status::{
    handle_status, list_status, public_record, record_told, PublicModel, PublicRecord,
};
use crate::text::text_before;

verus! {

/// The generation behind another one, as long as it can be counted.
pub open spec fn successor(generation: u64) -> u64 {
    if generation == u64::MAX {
        generation
    } else {
        (generation + 1) as u64
    }
}

/// So many seconds later, as long as it can be counted.
pub open spec fn later_by(at: u64, seconds: int) -> u64 {
    if at + seconds > u64::MAX {
        u64::MAX
    } else {
        (at + seconds) as u64
    }
}

/// Whether a moment lies in the past: by the clock that counts from boot, if both the
/// moment and the reading have it, and by the wall clock otherwise. A moment of
/// another boot is past.
pub open spec fn time_is_up(
    wall: u64,
    mono: Option<u64>,
    boot: Option<Seq<char>>,
    at: ClockModel,
) -> bool {
    if mono is Some && boot is Some && at.mono is Some && at.boot is Some {
        boot != at.boot || mono->0 <= at.mono->0
    } else {
        wall <= at.wall
    }
}

/// Whether the time that a handle was given is over.
pub open spec fn handle_time_is_up(record: RecordModel, at: ClockModel) -> bool {
    time_is_up(record.expires_at, record.expires_mono, record.expires_boot_id, at)
}

/// Whether a status is one of those that a record keeps.
pub open spec fn ended(status: LifecycleStatus) -> bool {
    status is Consumed || status is Deleted || status is Expired
}

/// Whether a cleanup is that of a record towards a status: it names the record, its
/// keyring entry and its helper, and what of them is left.
pub open spec fn cleans_up(
    action: ActionModel,
    record: RecordModel,
    target: LifecycleStatus,
) -> bool {
    &&& action.handle == record.handle
    &&& action.account == record.keyring_account
    &&& action.target == target
    &&& action.generation == record.generation
    &&& action.helper_pid == record.helper_pid
    &&& action.helper_pgid == record.helper_pgid
    &&& action.helper_start_ticks == record.helper_start_ticks
    &&& action.helper_boot_id == record.helper_boot_id
    &&& action.helper_cgroup == record.helper_cgroup
    &&& action.helper_cgroup_identity == record.helper_cgroup_identity
    &&& action.cleanup_keyring_done == record.cleanup_keyring_done
    &&& action.helper_descendants_unknown == record.helper_descendants_unknown
}

/// The state with another record under a handle, and otherwise the same.
pub open spec fn only_changed(
    before: StateModel,
    after: StateModel,
    handle: Seq<char>,
    record: RecordModel,
) -> bool {
    &&& after.records == before.records.insert(handle, record)
    &&& after.operation_cgroups == before.operation_cgroups
    &&& after.schema_version == before.schema_version
    &&& after.recovery_mode == before.recovery_mode
}

/// A record with nobody at work on it.
pub open spec fn let_go(record: RecordModel) -> RecordModel {
    RecordModel {
        lease_owner: None,
        lease_expires_at: None,
        lease_expires_mono: None,
        lease_boot_id: None,
        ..record
    }
}

/// A record without a helper.
pub open spec fn alone(record: RecordModel) -> RecordModel {
    RecordModel {
        helper_pid: None,
        helper_pgid: None,
        helper_start_ticks: None,
        helper_boot_id: None,
        helper_kind: None,
        helper_cgroup: None,
        helper_cgroup_identity: None,
        ..record
    }
}

/// The cleanup of a record names all of it that is to be cleaned up; that of a helper
/// names the helper and no keyring entry.
pub proof fn law_cleanups_name_what_they_clean_up(
    record: RecordModel,
    helper: HelperModel,
    target: LifecycleStatus,
)
    ensures
        cleans_up(cleanup_of(record, target), record, target),
        ({
            let action = helper_cleanup_of(helper, target);
            &&& action.handle == helper.handle
            &&& action.target == target
            &&& action.generation == helper.generation
            &&& action.account.len() == 0
            &&& action.cleanup_keyring_done
            &&& !action.helper_descendants_unknown
            &&& action.helper_pid == Some(helper.pid)
            &&& action.helper_pgid == Some(helper.pgid)
            &&& action.helper_start_ticks == Some(helper.start_ticks)
            &&& action.helper_boot_id == Some(helper.boot_id)
            &&& action.helper_cgroup == helper.cgroup
            &&& action.helper_cgroup_identity == helper.cgroup_identity
        }),
{
}

// ---------------------------------------------------------------------------
// Time
// ---------------------------------------------------------------------------

/// The time of a record or a fence is up when its moment has passed, and not before.
pub proof fn law_time_is_judged_by_its_clock(
    record: RecordModel,
    fence: FenceModel,
    at: ClockModel,
)
    ensures
        expired(record, at) <==> handle_time_is_up(record, at),
        fence_expired(fence, at) <==> time_is_up(
            fence.expires_at,
            fence.expires_mono,
            fence.boot_id,
            at,
        ),
{
}

/// A handle lives exactly as long as was asked for: counted from the reading at which
/// it was made, by the clock that counts from boot while that can be read, and by
/// the wall clock otherwise.
pub proof fn law_handles_live_as_long_as_asked(
    handle: Seq<char>,
    target: Seq<char>,
    label: Seq<char>,
    ttl: u64,
    single_use: bool,
    owner: Seq<char>,
    made: ClockModel,
    at: ClockModel,
)
    requires
        made.wall + ttl <= u64::MAX,
        made.mono matches Some(mono) ==> mono + ttl <= u64::MAX,
    ensures
        made.mono is Some && made.boot is Some && at.mono is Some && at.boot is Some ==> (expired(
            provisioned(handle, target, label, ttl, single_use, owner, made),
            at,
        ) <==> made.boot != at.boot || at.mono->0 - made.mono->0 >= ttl),
        !(made.mono is Some && made.boot is Some && at.mono is Some && at.boot is Some) ==> (
        expired(provisioned(handle, target, label, ttl, single_use, owner, made), at) <==> at.wall
            - made.wall >= ttl),
{
}

/// What is known of a lease: it is over without an owner, with a dead owner, and with
/// a live owner once its moment has passed; it holds with a live owner before
/// that; and of everything else nothing is known.
pub proof fn law_leases_are_judged_by_owner_and_time(
    record: RecordModel,
    this_process: Seq<char>,
    found: ProcessLiveness,
    at: ClockModel,
)
    ensures
        ({
            let lease = lease_of(record, this_process, found, at);
            let alive = record.lease_owner == Some(this_process) || found is Alive;
            let dead = record.lease_owner != Some(this_process) && found is Dead;
            let by_boot = record.lease_expires_mono is Some && record.lease_boot_id is Some;
            let by_wall = record.lease_expires_mono is None && record.lease_boot_id is None;
            &&& record.lease_owner is None || dead ==> lease is Expired
            &&& record.lease_owner is Some && !alive && !dead ==> lease is Unknown
            &&& record.lease_owner is Some && alive && by_boot && at.mono is Some
                && at.boot is Some ==> lease == if record.lease_boot_id == at.boot && at.mono->0
                < record.lease_expires_mono->0 {
                LeaseLiveness::Live
            } else {
                LeaseLiveness::Expired
            }
            &&& record.lease_owner is Some && alive && by_wall && record.lease_expires_at is Some
                ==> lease == if at.wall < record.lease_expires_at->0 {
                LeaseLiveness::Live
            } else {
                LeaseLiveness::Expired
            }
            &&& record.lease_owner is Some && alive && !(by_boot && at.mono is Some
                && at.boot is Some) && !(by_wall && record.lease_expires_at is Some)
                ==> lease is Unknown
        }),
{
}

// ---------------------------------------------------------------------------
// Capture
// ---------------------------------------------------------------------------

/// A new record holds what was asked for and nothing else: it is leased to whoever
/// makes it for three minutes, and nothing has happened to it yet.
pub proof fn law_new_records_hold_what_was_asked(
    handle: Seq<char>,
    target: Seq<char>,
    label: Seq<char>,
    ttl: u64,
    single_use: bool,
    owner: Seq<char>,
    made: ClockModel,
)
    ensures
        ({
            let record = provisioned(handle, target, label, ttl, single_use, owner, made);
            let counted = made.mono is Some && made.boot is Some;
            &&& record.handle == handle
            &&& record.target == target
            &&& record.label == label
            &&& record.single_use == single_use
            &&& record.keyring_account == "handoff:"@ + handle
            &&& record.created_at == made.wall
            &&& record.expires_at == later_by(made.wall, ttl as int)
            &&& record.expires_mono == if counted {
                Some(later_by(made.mono->0, ttl as int))
            } else {
                None
            }
            &&& record.expires_boot_id == if counted {
                made.boot
            } else {
                None
            }
            &&& record.status is Provisioning
            &&& record.generation == 1
            &&& record.lease_owner == Some(owner)
            &&& record.lease_expires_at == Some(later_by(made.wall, 180))
            &&& record.lease_expires_mono == if counted {
                Some(later_by(made.mono->0, 180))
            } else {
                None
            }
            &&& record.lease_boot_id == if counted {
                made.boot
            } else {
                None
            }
            &&& record.claim_id is None && record.cleanup_target is None
            &&& record.consumed_at is None && record.last_error is None
            &&& !record.cleanup_keyring_done && !record.helper_descendants_unknown
            &&& alone(record) == record
        }),
{
}

/// Whether nothing is left to be done for a record.
pub open spec fn done_with(record: RecordModel) -> bool {
    ended(record.status) && record.cleanup_target is None && record.claim_id is None
        && record.lease_owner is None && record.helper_pid is None
}

/// When a record was done with: when it was consumed, or else when it was made.
pub open spec fn done_at(record: RecordModel) -> u64 {
    if record.consumed_at is Some {
        record.consumed_at->0
    } else {
        record.created_at
    }
}

/// How many records are still needed.
pub open spec fn needed(records: Map<Seq<char>, RecordModel>) -> nat {
    records.dom().filter(|key: Seq<char>| !done_with(records[key])).len()
}

/// Where a thousand and twenty-four records or more are held, those that are done with
/// go, the oldest first and of one age in the order of their handles, until there is
/// room for one more; nothing else goes.
pub proof fn law_only_the_oldest_go(records: Map<Seq<char>, RecordModel>)
    requires
        records.dom().finite(),
    ensures
        ({
            let kept = pruned(records);
            &&& records.len() < 1024 ==> kept == records
            &&& records.len() >= 1024 ==> kept.len() == if needed(records) > 1023 {
                needed(records)
            } else {
                1023
            }
            &&& forall|key: Seq<char>| #[trigger]
                kept.contains_key(key) ==> records.contains_key(key) && kept[key] == records[key]
            &&& forall|key: Seq<char>| #[trigger]
                records.contains_key(key) && !kept.contains_key(key) ==> done_with(records[key])
            &&& forall|gone: Seq<char>, left: Seq<char>| #[trigger]
                records.contains_key(gone) && !kept.contains_key(gone)
                    && #[trigger] kept.contains_key(left) && done_with(records[left]) ==> done_at(
                    records[gone],
                ) < done_at(records[left]) || (done_at(records[gone]) == done_at(records[left])
                    && text_before(gone, left))
        }),
{
    law_pruning_keeps_what_is_in_use(records);
    law_pruning_keeps_as_many_as_it_can(records);
    assert forall|record: RecordModel| #[trigger] removable(record) == done_with(record) by {}
    let rest = records.dom().filter(|key: Seq<char>| !done_with(records[key]));
    let gone = removable_keys(records);
    assert forall|key: Seq<char>| records.contains_key(key) implies removable(records[key])
        == done_with(records[key]) by {}
    vstd::set_lib::lemma_set_disjoint_lens(rest, gone);
    assert(rest + gone =~= records.dom());
}

/// A capture finds room as long as fewer than a thousand and twenty-four records are
/// needed, and then adds one record under its handle; what it drops to make room
/// is done with.
pub proof fn law_captures_add_one_record(
    state: StateModel,
    handle: Seq<char>,
    plan: CaptureModel,
    owner: Seq<char>,
    made: ClockModel,
)
    requires
        state.records.dom().finite(),
    ensures
        match capture_provisioned(state, handle, plan, owner, made) {
            Ok(after) => {
                &&& needed(state.records) < 1024
                &&& after.records.contains_key(handle)
                &&& after.records[handle] == provisioned(
                    handle,
                    plan.target,
                    plan.label,
                    plan.ttl_seconds,
                    plan.single_use,
                    owner,
                    made,
                )
                &&& forall|key: Seq<char>|
                    key != handle && #[trigger] after.records.contains_key(key)
                        ==> state.records.contains_key(key) && after.records[key]
                        == state.records[key]
                &&& forall|key: Seq<char>| #[trigger]
                    state.records.contains_key(key) && !after.records.contains_key(key)
                        ==> done_with(state.records[key])
                &&& after.operation_cgroups == state.operation_cgroups
                &&& after.schema_version == state.schema_version
                &&& after.recovery_mode == state.recovery_mode
            },
            Err(e) => needed(state.records) >= 1024 && e
                == "secret handle capacity has been reached"@,
        },
{
    law_only_the_oldest_go(state.records);
    let all = state.records.dom();
    let rest = all.filter(|key: Seq<char>| !done_with(state.records[key]));
    vstd::set_lib::lemma_len_subset(rest, all);
}

/// A capture is activated exactly if its record is there, is still being provisioned
/// and is in time; the record is then free for use.
pub proof fn law_activation_frees_the_handle(
    state: StateModel,
    handle: Seq<char>,
    at: ClockModel,
)
    ensures
        ({
            let record = state.records[handle];
            match capture_activated(state, handle, at) {
                Ok(after) => state.records.contains_key(handle) && record.status is Provisioning
                    && !handle_time_is_up(record, at) && only_changed(
                    state,
                    after,
                    handle,
                    RecordModel {
                        status: LifecycleStatus::Active,
                        generation: successor(record.generation),
                        ..let_go(record)
                    },
                ),
                Err(e) => if !state.records.contains_key(handle) {
                    e == "capture state disappeared"@
                } else if !(record.status is Provisioning) {
                    e == "capture was revoked during provisioning"@
                } else {
                    handle_time_is_up(record, at) && e == "capture expired before activation"@
                },
            }
        }),
{
}

/// A helper is noted for a capture exactly while the capture holds its record; it is
/// forgotten by whoever noted it, and where it is gone already that is well, too.
pub proof fn law_helpers_are_noted_and_forgotten(
    state: StateModel,
    capture: CaptureFenceModel,
    owner: Seq<char>,
    fence: HelperModel,
)
    ensures
        ({
            let record = state.records[capture.handle];
            match register_fault(state, capture, owner) {
                None => state.records.contains_key(capture.handle) && record.keyring_account
                    == "handoff:"@ + capture.handle && record.status is Provisioning
                    && record.lease_owner == Some(owner) && record.generation
                    == capture.generation,
                Some(e) => if !state.records.contains_key(capture.handle) {
                    e == "helper owner record is missing"@
                } else {
                    !(record.keyring_account == "handoff:"@ + capture.handle
                        && record.status is Provisioning && record.lease_owner == Some(owner)
                        && record.generation == capture.generation) && e
                        == "helper lifecycle fence was lost"@
                },
            }
        }),
        ({
            let record = state.records[fence.handle];
            let same = record.generation == fence.generation && record.helper_pid == Some(fence.pid)
                && record.helper_pgid == Some(fence.pgid) && record.helper_start_ticks == Some(
                fence.start_ticks,
            ) && record.helper_boot_id == Some(fence.boot_id) && record.helper_cgroup
                == fence.cgroup && record.helper_cgroup_identity == fence.cgroup_identity;
            match helper_cleared(state, fence) {
                Ok(after) => state.records.contains_key(fence.handle) && if same {
                    only_changed(
                        state,
                        after,
                        fence.handle,
                        RecordModel {
                            helper_descendants_unknown: false,
                            generation: successor(record.generation),
                            ..alone(record)
                        },
                    )
                } else {
                    after == state && record.helper_pid is None && (record.status is CleanupPending
                        || ended(record.status))
                },
                Err(e) => if !state.records.contains_key(fence.handle) {
                    e == "helper owner record is missing"@
                } else {
                    !same && !(record.helper_pid is None && (record.status is CleanupPending
                        || ended(record.status))) && e == "helper lifecycle fence was lost"@
                },
            }
        }),
{
}

/// A noted helper is known by its process, its boot and its control group, and leads a
/// process group of its own; nothing else of the record changes.
pub proof fn law_noted_helpers_are_known(
    record: RecordModel,
    pid: u32,
    start_ticks: u64,
    boot: Seq<char>,
    kind: Seq<char>,
    cgroup: Option<Seq<char>>,
    identity: Option<CgroupIdentity>,
)
    ensures
        helped(record, pid, start_ticks, boot, kind, cgroup, identity) == (RecordModel {
            helper_pid: Some(pid),
            helper_pgid: Some(pid as i32),
            helper_start_ticks: Some(start_ticks),
            helper_boot_id: Some(boot),
            helper_kind: Some(kind),
            helper_cgroup: cgroup,
            helper_cgroup_identity: identity,
            ..record
        }),
{
}

// ---------------------------------------------------------------------------
// Claim
// ---------------------------------------------------------------------------

/// A handle is granted to whoever asks exactly if it is active and in time. One whose
/// time is up is closed and cleaned up, any other is left as it is, and a handle
/// that nobody knows is told as such.
pub proof fn law_active_handles_are_granted(
    state: StateModel,
    handle: Seq<char>,
    id: Seq<char>,
    owner: Seq<char>,
    at: ClockModel,
)
    ensures
        ({
            let record = state.records[handle];
            let counted = at.mono is Some && at.boot is Some;
            match claim_decided(state, handle, id, owner, at) {
                Err(e) => !state.records.contains_key(handle) && e == "unknown handle"@,
                Ok((after, ClaimDecisionModel::Refused)) => state.records.contains_key(handle)
                    && !(record.status is Active) && after == state,
                Ok((after, ClaimDecisionModel::Expired(action))) => {
                    let closed = RecordModel {
                        status: LifecycleStatus::CleanupPending,
                        cleanup_target: Some(LifecycleStatus::Expired),
                        last_error: Some("handle expired before operation claim"@),
                        generation: successor(record.generation),
                        ..record
                    };
                    &&& state.records.contains_key(handle)
                    &&& record.status is Active
                    &&& handle_time_is_up(record, at)
                    &&& only_changed(state, after, handle, closed)
                    &&& cleans_up(action, closed, LifecycleStatus::Expired)
                },
                Ok((after, ClaimDecisionModel::Granted(claim))) => {
                    &&& state.records.contains_key(handle)
                    &&& record.status is Active
                    &&& !handle_time_is_up(record, at)
                    &&& only_changed(
                        state,
                        after,
                        handle,
                        RecordModel {
                            status: LifecycleStatus::Claimed,
                            claim_id: Some(id),
                            generation: successor(record.generation),
                            lease_owner: Some(owner),
                            lease_expires_at: Some(later_by(at.wall, 180)),
                            lease_expires_mono: if counted {
                                Some(later_by(at.mono->0, 180))
                            } else {
                                None
                            },
                            lease_boot_id: if counted {
                                at.boot
                            } else {
                                None
                            },
                            ..record
                        },
                    )
                    &&& claim == (ClaimModel {
                        handle,
                        account: record.keyring_account,
                        claim_id: id,
                        single_use: record.single_use,
                        generation: successor(record.generation),
                    })
                },
            }
        }),
{
}

/// A claim is handed back exactly while it stands, whoever touched the record in
/// between, and the handle is then active again.
pub proof fn law_standing_claims_are_handed_back(state: StateModel, claim: ClaimModel)
    ensures
        ({
            let record = state.records[claim.handle];
            let after = claim_restored(state, claim);
            let stands = state.records.contains_key(claim.handle) && record.status is Claimed
                && record.claim_id == Some(claim.claim_id);
            &&& stands ==> only_changed(
                state,
                after,
                claim.handle,
                RecordModel {
                    status: LifecycleStatus::Active,
                    claim_id: None,
                    generation: successor(record.generation),
                    ..let_go(record)
                },
            )
            &&& !stands ==> after == state
        }),
{
}

// ---------------------------------------------------------------------------
// Launch
// ---------------------------------------------------------------------------

/// A claim is launched exactly if the current boot is known and the claim stands as it
/// was granted.
pub proof fn law_standing_claims_are_launched(state: StateModel, claim: ClaimModel, at: ClockModel)
    ensures
        ({
            let record = state.records[claim.handle];
            let stands = record.status is Claimed && record.claim_id == Some(claim.claim_id)
                && record.generation == claim.generation;
            match launch_fault(state, claim, at) {
                None => at.mono is Some && at.boot is Some && state.records.contains_key(
                    claim.handle,
                ) && stands,
                Some(e) => if at.mono is None || at.boot is None {
                    e == "operation helper boot identity is unavailable"@
                } else if !state.records.contains_key(claim.handle) {
                    e == "unknown handle"@
                } else {
                    !stands && e == "handle was revoked before operation start"@
                },
            }
        }),
{
}

/// The fence that a process takes on a control group names the process and the control
/// group, and holds for two minutes.
pub proof fn law_fences_name_their_owner(
    owner: Seq<char>,
    identity: CgroupIdentity,
    at: ClockModel,
)
    ensures
        ({
            let fence = own_fence(owner, identity, at);
            let counted = at.mono is Some && at.boot is Some;
            &&& fence.owner == owner
            &&& fence.identity == Some(identity)
            &&& fence.expires_at == later_by(at.wall, 120)
            &&& fence.expires_mono == if counted {
                Some(later_by(at.mono->0, 120))
            } else {
                None
            }
            &&& fence.boot_id == if counted {
                at.boot
            } else {
                None
            }
        }),
{
}

/// Before a launch its control group is noted twice: at its record and among the fenced
/// control groups, as long as there is room there.
pub proof fn law_launches_are_noted(
    state: StateModel,
    claim: ClaimModel,
    cgroup: Seq<char>,
    identity: CgroupIdentity,
    owner: Seq<char>,
    at: ClockModel,
)
    ensures
        ({
            let record = state.records[claim.handle];
            let full = state.operation_cgroups.len() >= 1024
                && !state.operation_cgroups.contains_key(cgroup);
            match launch_reserved(state, claim, cgroup, identity, owner, at) {
                Ok(after) => {
                    &&& !full
                    &&& state.records.contains_key(claim.handle)
                    &&& after.records == state.records.insert(
                        claim.handle,
                        RecordModel {
                            helper_cgroup: Some(cgroup),
                            helper_cgroup_identity: Some(identity),
                            generation: successor(record.generation),
                            ..record
                        },
                    )
                    &&& after.operation_cgroups == state.operation_cgroups.insert(
                        cgroup,
                        own_fence(owner, identity, at),
                    )
                    &&& after.schema_version == state.schema_version
                    &&& after.recovery_mode == state.recovery_mode
                },
                Err(e) => if full {
                    e == "operation cgroup capacity has been reached"@
                } else {
                    !state.records.contains_key(claim.handle) && e == "unknown handle"@
                },
            }
        }),
{
}

/// The record of a launch that went wrong is cleaned up towards deletion, with what
/// went wrong noted and without claim and lease. Its control group is forgotten
/// exactly if it is known to be gone.
pub proof fn law_failed_launches_cost_the_handle(
    state: StateModel,
    claim: ClaimModel,
    cgroup: Seq<char>,
    cleanup: Option<Seq<char>>,
    error: Seq<char>,
)
    ensures
        ({
            let record = state.records[claim.handle];
            let known = state.records.contains_key(claim.handle);
            let lost = |note: Seq<char>|
                RecordModel {
                    status: LifecycleStatus::CleanupPending,
                    cleanup_target: Some(LifecycleStatus::Deleted),
                    claim_id: None,
                    last_error: Some(note),
                    generation: successor(record.generation),
                    ..let_go(record)
                };
            let unstarted = launch_not_started(state, claim, cgroup, cleanup);
            let unknown = launch_unrecognized(state, claim, error);
            &&& known && cleanup is Some ==> only_changed(
                state,
                unstarted,
                claim.handle,
                lost(
                    "allowlisted operation could not be started"@ + "; cgroup cleanup pending: "@
                        + cleanup->0,
                ),
            )
            &&& known && cleanup is None ==> unstarted.records == state.records.insert(
                claim.handle,
                RecordModel {
                    helper_cgroup: None,
                    helper_cgroup_identity: None,
                    ..lost("allowlisted operation could not be started"@)
                },
            )
            &&& !known ==> unstarted.records == state.records
            &&& unstarted.operation_cgroups == if cleanup is None {
                state.operation_cgroups.remove(cgroup)
            } else {
                state.operation_cgroups
            }
            &&& unstarted.schema_version == state.schema_version
            &&& unstarted.recovery_mode == state.recovery_mode
            &&& known ==> only_changed(state, unknown, claim.handle, lost(error))
            &&& !known ==> unknown == state
        }),
{
}

/// What runs is noted at its record, under a lease that lasts a minute and a half from
/// the start of the launch by the clock that counts from boot.
pub proof fn law_running_operations_are_noted(
    record: RecordModel,
    pid: u32,
    start_ticks: u64,
    boot: Seq<char>,
    cgroup: Seq<char>,
    identity: CgroupIdentity,
    mono: Option<u64>,
    wall: u64,
)
    ensures
        running(record, pid, start_ticks, boot, cgroup, identity, mono, wall) == (RecordModel {
            status: LifecycleStatus::Running,
            lease_expires_at: Some(later_by(wall, 90)),
            lease_expires_mono: if mono is Some {
                Some(later_by(mono->0, 90))
            } else {
                None
            },
            lease_boot_id: Some(boot),
            helper_pid: Some(pid),
            helper_pgid: Some(pid as i32),
            helper_start_ticks: Some(start_ticks),
            helper_boot_id: Some(boot),
            helper_kind: Some("allowlisted-operation"@),
            helper_cgroup: Some(cgroup),
            helper_cgroup_identity: Some(identity),
            generation: successor(record.generation),
            ..record
        }),
{
}

// ---------------------------------------------------------------------------
// The end of a run
// ---------------------------------------------------------------------------

/// A run ends its record exactly if it still holds it, or if the handle was revoked
/// meanwhile. A revoked handle and one whose run is in doubt are deleted, one for a
/// single use is consumed, and any other is active again.
pub proof fn law_runs_end_as_their_handle_says(
    state: StateModel,
    claim: ClaimModel,
    helper: HelperModel,
    uncertain: bool,
    owner: Seq<char>,
)
    ensures
        ({
            let record = state.records[claim.handle];
            let known = state.records.contains_key(claim.handle);
            let held = record.status is Running && record.claim_id == Some(claim.claim_id)
                && record.generation == helper.generation && record.helper_pid == Some(helper.pid)
                && record.helper_pgid == Some(helper.pgid) && record.helper_start_ticks == Some(
                helper.start_ticks,
            ) && record.helper_boot_id == Some(helper.boot_id) && record.helper_cgroup
                == helper.cgroup && record.helper_cgroup_identity == helper.cgroup_identity
                && record.lease_owner == Some(owner);
            let to_clean = |target: LifecycleStatus|
                RecordModel {
                    status: LifecycleStatus::CleanupPending,
                    cleanup_target: Some(target),
                    ..record
                };
            let end = run_finished(state, claim, helper, uncertain, owner);
            &&& end is Ok <==> known && (record.status is Revoked || held)
            &&& !known ==> end->Err_0 == "unknown handle"@
            &&& known && end is Err ==> end->Err_0 == "operation lifecycle fence was lost"@
            &&& known && (record.status is Revoked || (held && uncertain)) ==> only_changed(
                state,
                end->Ok_0.0,
                claim.handle,
                to_clean(LifecycleStatus::Deleted),
            ) && end->Ok_0.1 is Some && cleans_up(
                end->Ok_0.1->0,
                to_clean(LifecycleStatus::Deleted),
                LifecycleStatus::Deleted,
            )
            &&& known && held && !uncertain && claim.single_use ==> only_changed(
                state,
                end->Ok_0.0,
                claim.handle,
                to_clean(LifecycleStatus::Consumed),
            ) && end->Ok_0.1 is Some && cleans_up(
                end->Ok_0.1->0,
                to_clean(LifecycleStatus::Consumed),
                LifecycleStatus::Consumed,
            )
            &&& known && held && !uncertain && !claim.single_use ==> end->Ok_0.1 is None
                && only_changed(
                state,
                end->Ok_0.0,
                claim.handle,
                RecordModel {
                    status: LifecycleStatus::Active,
                    claim_id: None,
                    generation: successor(record.generation),
                    ..let_go(alone(record))
                },
            )
        }),
{
}

/// A handle that is not for a single use can be run with as often as its time allows:
/// from one claim to the end of its run nothing is left at its record but a higher
/// generation, and whoever asks next is granted it again.
pub proof fn law_reusable_handles_can_be_run_again(
    state: StateModel,
    handle: Seq<char>,
    id: Seq<char>,
    owner: Seq<char>,
    at: ClockModel,
    granted: StateModel,
    claim: ClaimModel,
    cgroup: Seq<char>,
    identity: CgroupIdentity,
    noted: StateModel,
    pid: u32,
    start_ticks: u64,
    boot: Seq<char>,
    mono: Option<u64>,
    wall: u64,
    next_id: Seq<char>,
    next_owner: Seq<char>,
    next_at: ClockModel,
)
    requires
        claim_decided(state, handle, id, owner, at) == Ok::<
            (StateModel, ClaimDecisionModel),
            Seq<char>,
        >((granted, ClaimDecisionModel::Granted(claim))),
        !state.records[handle].single_use,
        state.records[handle].claim_id is None,
        let_go(alone(state.records[handle])) == state.records[handle],
        launch_reserved(granted, claim, cgroup, identity, owner, at) == Ok::<
            StateModel,
            Seq<char>,
        >(noted),
        !handle_time_is_up(state.records[handle], next_at),
    ensures
        ({
            let record = running(
                noted.records[handle],
                pid,
                start_ticks,
                boot,
                cgroup,
                identity,
                mono,
                wall,
            );
            let runs = StateModel { records: noted.records.insert(handle, record), ..noted };
            let helper = HelperModel {
                handle,
                pid,
                pgid: pid as i32,
                start_ticks,
                boot_id: boot,
                generation: record.generation,
                cgroup: Some(cgroup),
                cgroup_identity: Some(identity),
            };
            let end = run_finished(runs, claim, helper, false, owner);
            &&& end is Ok && end->Ok_0.1 is None
            &&& end->Ok_0.0.records[handle] == (RecordModel {
                generation: end->Ok_0.0.records[handle].generation,
                ..state.records[handle]
            })
            &&& claim_decided(end->Ok_0.0, handle, next_id, next_owner, next_at) is Ok
            &&& claim_decided(end->Ok_0.0, handle, next_id, next_owner, next_at)->Ok_0.1 is Granted
        }),
{
    let record = running(
        noted.records[handle],
        pid,
        start_ticks,
        boot,
        cgroup,
        identity,
        mono,
        wall,
    );
    let runs = StateModel { records: noted.records.insert(handle, record), ..noted };
    assert(runs.records[handle] == record);
}

// ---------------------------------------------------------------------------
// Cleanup
// ---------------------------------------------------------------------------

/// A handle is given up unless its life has ended: it is cleaned up towards the given
/// status, with the reason noted and without a lease.
pub proof fn law_handles_are_given_up(
    state: StateModel,
    handle: Seq<char>,
    target: LifecycleStatus,
    error: Seq<char>,
)
    ensures
        ({
            let record = state.records[handle];
            let lost = RecordModel {
                status: LifecycleStatus::CleanupPending,
                cleanup_target: Some(target),
                last_error: Some(error),
                generation: successor(record.generation),
                ..let_go(record)
            };
            match handle_given_up(state, handle, target, error) {
                Ok((after, action)) => state.records.contains_key(handle) && !ended(record.status)
                    && only_changed(state, after, handle, lost) && cleans_up(action, lost, target),
                Err(e) => if !state.records.contains_key(handle) {
                    e == "unknown handle"@
                } else {
                    ended(record.status) && e == "cleanup was already finalized"@
                },
            }
        }),
{
}

/// A deletion revokes every handle whose life has not ended, whatever its status. A
/// process that may be at work on it finds it revoked; any other handle waits for its
/// cleanup at once, and so does one whose launch has noted no more than a control
/// group.
pub proof fn law_handles_are_deleted(state: StateModel, handle: Seq<char>)
    ensures
        ({
            let record = state.records[handle];
            let at_work = record.status is Running || (record.status is Claimed && !(
            record.helper_cgroup is Some && record.helper_pid is None));
            let gone = RecordModel {
                status: if at_work {
                    LifecycleStatus::Revoked
                } else {
                    LifecycleStatus::CleanupPending
                },
                cleanup_target: Some(LifecycleStatus::Deleted),
                generation: successor(record.generation),
                ..record
            };
            match handle_deleted(state, handle) {
                Err(e) => !state.records.contains_key(handle) && e == "unknown handle"@,
                Ok((after, None)) => state.records.contains_key(handle) && ended(record.status)
                    && after == state,
                Ok((after, Some(action))) => state.records.contains_key(handle) && !ended(
                    record.status,
                ) && only_changed(state, after, handle, gone) && cleans_up(
                    action,
                    gone,
                    LifecycleStatus::Deleted,
                ),
            }
        }),
{
}

/// A cleanup that its record still waits for has its result noted: the parts that are
/// done are done for good, and when both are, the record has its final status.
/// Otherwise what went wrong is noted and the record goes on waiting. A cleanup that
/// nobody waits for changes nothing.
pub proof fn law_cleanups_are_accounted_for(
    state: StateModel,
    action: ActionModel,
    helper: Option<Seq<char>>,
    keyring: Option<Seq<char>>,
    now: u64,
)
    ensures
        ({
            let record = state.records[action.handle];
            let known = state.records.contains_key(action.handle);
            let waits = (record.status is CleanupPending || record.status is Revoked)
                && record.cleanup_target == Some(action.target) && record.generation
                == action.generation;
            let free = helper is None || (record.helper_pid is None && record.helper_cgroup is None
                && !record.helper_descendants_unknown);
            let gone = keyring is None || record.cleanup_keyring_done;
            let result = cleanup_finalized(state, action, helper, keyring, now);
            &&& !known ==> result == Err::<StateModel, Seq<char>>("unknown handle"@)
            &&& known && !waits ==> result == Ok::<StateModel, Seq<char>>(state)
            &&& known && waits ==> result is Ok
            &&& known && waits && free && gone ==> only_changed(
                state,
                result->Ok_0,
                action.handle,
                RecordModel {
                    status: action.target,
                    cleanup_target: None,
                    claim_id: None,
                    last_error: None,
                    cleanup_keyring_done: false,
                    helper_descendants_unknown: false,
                    consumed_at: if action.target is Consumed {
                        Some(now)
                    } else {
                        record.consumed_at
                    },
                    generation: successor(record.generation),
                    ..let_go(
                        if helper is None {
                            alone(record)
                        } else {
                            record
                        },
                    )
                },
            )
            &&& known && waits && !(free && gone) ==> only_changed(
                state,
                result->Ok_0,
                action.handle,
                RecordModel {
                    cleanup_keyring_done: gone,
                    helper_descendants_unknown: helper is Some && record.helper_descendants_unknown,
                    last_error: Some(
                        if helper is Some && keyring is Some {
                            "helper cleanup failed: "@ + helper->0 + "; "@ + (
                            "keyring cleanup failed: "@ + keyring->0)
                        } else if helper is Some {
                            "helper cleanup failed: "@ + helper->0
                        } else {
                            "keyring cleanup failed: "@ + keyring->0
                        },
                    ),
                    generation: successor(record.generation),
                    ..if helper is None {
                        alone(record)
                    } else {
                        record
                    }
                },
            )
        }),
{
}

/// A keyring entry counts as removed exactly if the keyring could be asked to forget it
/// and a search that was made afterwards found it missing: the first one, or after a
/// second attempt to forget it the second or the third. A search that does not know
/// ends the removal.
pub proof fn law_removals_end_with_a_search(keyring: KeyringAnswers, stopped: bool)
    ensures
        ({
            let clear = keyring.clear;
            let search = keyring.search;
            let missing = |n: u8|
                search(stopped, n) == Ok::<KeyringEntryState, Seq<char>>(
                    KeyringEntryState::Missing,
                );
            let present = |n: u8|
                search(stopped, n) == Ok::<KeyringEntryState, Seq<char>>(
                    KeyringEntryState::Present,
                );
            removal_fault(ClearModel::Clear { again: false }, keyring, stopped) is None <==> clear(
                stopped,
                false,
            ) is Ok && (missing(0) || (present(0) && clear(stopped, true) is Ok && (missing(1) || (
            present(1) && missing(2)))))
        }),
{
    reveal_with_fuel(removal_fault, 7);
}

/// A cleanup has the keyring asked exactly where the record names an entry whose
/// removal is not noted yet, whatever the handle ends as; and only the cleanup of a
/// recovery is stopped by a cancellation.
pub proof fn law_every_entry_is_removed(action: ActionModel, purpose: CleanupPurpose)
    ensures
        cleanup_planned(action, purpose).clear_keyring <==> !action.cleanup_keyring_done
            && action.account.len() > 0,
        cleanup_planned(action, purpose).heed_cancellation <==> purpose is Recovery,
{
}

/// Whether a cancellation stops a cleanup: that of a recovery, and no other.
pub open spec fn stops(purpose: CleanupPurpose, cancelled: bool) -> bool {
    purpose is Recovery && cancelled
}

/// Whether a search for the entry of a removal answered that it is missing.
pub open spec fn seen_missing(keyring: KeyringAnswers, stopped: bool, search: u8) -> bool {
    (keyring.search)(stopped, search) == Ok::<KeyringEntryState, Seq<char>>(
        KeyringEntryState::Missing,
    )
}

/// A record gets its final status only after its keyring entry was seen to be gone:
/// where a cleanup names an entry that is not noted as removed, and the record
/// does not have its final status yet, it gets it only if the keyring was asked to
/// forget the entry and one of three searches answered that it is missing. Where
/// every search answers otherwise, the record goes on waiting, whatever it is to
/// end as.
pub proof fn law_final_records_have_no_keyring_entry(
    state: StateModel,
    action: ActionModel,
    purpose: CleanupPurpose,
    cancelled: bool,
    helper: Option<Seq<char>>,
    keyring: KeyringAnswers,
    now: u64,
)
    requires
        state.records.contains_key(action.handle),
        !ended(state.records[action.handle].status),
        !state.records[action.handle].cleanup_keyring_done,
        !action.cleanup_keyring_done,
        action.account.len() > 0,
    ensures
        ({
            let stopped = stops(purpose, cancelled);
            let after = cleanup_performed(
                state,
                action,
                purpose,
                cancelled,
                helper,
                keyring,
                now,
            ).0.records[action.handle];
            &&& ended(after.status) ==> after.status == action.target
            &&& ended(after.status) ==> (keyring.clear)(stopped, false) is Ok
            &&& ended(after.status) ==> exists|n: u8|
                n <= 2 && #[trigger] seen_missing(keyring, stopped, n)
        }),
{
    let stopped = stops(purpose, cancelled);
    law_removals_end_with_a_search(keyring, stopped);
    let left = removal_fault(ClearModel::Clear { again: false }, keyring, stopped);
    law_cleanups_are_accounted_for(state, action, helper, left, now);
    if left is None {
        assert(seen_missing(keyring, stopped, 0) || seen_missing(keyring, stopped, 1)
            || seen_missing(keyring, stopped, 2));
    }
}

// ---------------------------------------------------------------------------
// Recovery
// ---------------------------------------------------------------------------

/// Whether recovery has something to do about a record, and towards which status: what
/// waits for its cleanup is cleaned up again, what has expired is closed, and what a
/// process was at work on is deleted once its lease is known to be over.
pub open spec fn needs_recovery(
    record: RecordModel,
    reading: Reading,
    target: LifecycleStatus,
) -> bool {
    ||| record.status is CleanupPending && (record.cleanup_target == Some(target) || (
    record.cleanup_target is None && target is Deleted))
    ||| record.status is Revoked && target is Deleted
    ||| record.status is Active && reading.expired && target is Expired
    ||| (record.status is Provisioning || record.status is Claimed || record.status is Running)
        && reading.lease is Expired && target is Deleted
}

/// Whether recovery has nothing to do about a record: it has ended, it is active and in
/// time, or somebody may be at work on it.
pub open spec fn rests(record: RecordModel, reading: Reading) -> bool {
    ||| ended(record.status)
    ||| record.status is Active && !reading.expired
    ||| (record.status is Provisioning || record.status is Claimed || record.status is Running)
        && !(reading.lease is Expired)
}

/// Recovery makes progress: it leaves a record as it is exactly if there is nothing to
/// be done about it, and has every other record cleaned up towards the one status
/// that it is meant for.
pub proof fn law_recovery_makes_progress(record: RecordModel, reading: Reading)
    ensures
        recovery_target(record, reading) is None <==> rests(record, reading),
        rests(record, reading) ==> recovered(record, reading) == record,
        forall|target: LifecycleStatus|
            recovery_target(record, reading) == Some(target) <==> #[trigger] needs_recovery(
                record,
                reading,
                target,
            ),
        forall|target: LifecycleStatus| #[trigger]
            needs_recovery(record, reading, target) ==> recovered(record, reading) == (
            RecordModel {
                status: LifecycleStatus::CleanupPending,
                cleanup_target: Some(target),
                last_error: Some("cleanup scheduled during recovery"@),
                generation: successor(record.generation),
                ..record
            }),
{
}

/// The places of a list that grow from one to the next and stay below an end.
pub open spec fn places_in_order(places: Seq<int>, end: int) -> bool {
    &&& forall|i: int| 0 <= i < places.len() ==> 0 <= #[trigger] places[i] < end
    &&& forall|i: int, j: int| 0 <= i < j < places.len() ==> #[trigger] places[i] < #[trigger] places[j]
}

/// Whether cleanups are those that recovery owes to the records at certain places, each
/// of them once and in their order, and to no other record.
pub open spec fn owed_at(
    actions: Seq<ActionModel>,
    keys: Seq<Seq<char>>,
    records: Map<Seq<char>, RecordModel>,
    readings: Seq<Reading>,
    count: int,
    places: Seq<int>,
) -> bool {
    &&& places_in_order(places, count)
    &&& places.len() == actions.len()
    &&& forall|i: int|
        0 <= i < count ==> (places.contains(i) <==> !rests(
            records[#[trigger] keys[i]],
            readings[i],
        ))
    &&& forall|n: int|
        0 <= n < actions.len() ==> {
            let record = records[keys[places[n]]];
            &&& needs_recovery(record, readings[places[n]], (#[trigger] actions[n]).target)
            &&& cleans_up(
                actions[n],
                RecordModel { generation: successor(record.generation), ..record },
                actions[n].target,
            )
        }
}

/// Recovery owes exactly one cleanup to every record that does not rest, in the order of
/// the records, and none to any other.
pub proof fn law_recovery_owes_one_cleanup_each(
    keys: Seq<Seq<char>>,
    records: Map<Seq<char>, RecordModel>,
    readings: Seq<Reading>,
    count: nat,
)
    requires
        count <= keys.len(),
        count <= readings.len(),
    ensures
        exists|places: Seq<int>| #[trigger]
            owed_at(
                recovery_actions(keys, records, readings, count),
                keys,
                records,
                readings,
                count as int,
                places,
            ),
    decreases count,
{
    let actions = recovery_actions(keys, records, readings, count);
    if count == 0 {
        assert(owed_at(actions, keys, records, readings, 0, Seq::empty()));
    } else {
        let last = count - 1;
        law_recovery_owes_one_cleanup_each(keys, records, readings, last as nat);
        let before = recovery_actions(keys, records, readings, last as nat);
        let earlier = choose|places: Seq<int>| #[trigger]
            owed_at(before, keys, records, readings, last, places);
        let record = records[keys[last]];
        law_recovery_makes_progress(record, readings[last]);
        let places = if rests(record, readings[last]) {
            earlier
        } else {
            earlier.push(last)
        };
        assert forall|i: int| 0 <= i < count implies (places.contains(i) <==> !rests(
            records[#[trigger] keys[i]],
            readings[i],
        )) by {
            if !rests(record, readings[last]) {
                assert(places[earlier.len() as int] == last);
                if i < last && earlier.contains(i) {
                    let n = earlier.index_of(i);
                    assert(places[n] == i);
                }
            }
            if i == last && rests(record, readings[last]) && earlier.contains(i) {
                let n = earlier.index_of(i);
                assert(earlier[n] < last);
            }
        }
        assert(owed_at(actions, keys, records, readings, count as int, places));
    }
}

/// Whether a fence has gone stale: its moment has passed, or its owner is another
/// process that is known to be dead.
pub open spec fn abandoned(
    fence: FenceModel,
    this_process: Seq<char>,
    found: ProcessLiveness,
    at: ClockModel,
) -> bool {
    time_is_up(fence.expires_at, fence.expires_mono, fence.boot_id, at) || (fence.owner
        != this_process && found is Dead)
}

/// Whether a list holds the fences at certain places, in their order.
pub open spec fn fences_at(
    list: Seq<(Seq<char>, FenceModel)>,
    keys: Seq<Seq<char>>,
    fences: Map<Seq<char>, FenceModel>,
    this_process: Seq<char>,
    found: Seq<ProcessLiveness>,
    at: ClockModel,
    count: int,
    places: Seq<int>,
) -> bool {
    &&& places_in_order(places, count)
    &&& places.len() == list.len()
    &&& forall|i: int|
        0 <= i < count ==> (places.contains(i) <==> abandoned(
            fences[#[trigger] keys[i]],
            this_process,
            found[i],
            at,
        ))
    &&& forall|n: int|
        0 <= n < list.len() ==> #[trigger] list[n] == (keys[places[n]], fences[keys[places[n]]])
}

/// The stale fences are all that were abandoned, each once and in the order of their
/// paths, and no others.
pub proof fn law_abandoned_fences_are_found(
    keys: Seq<Seq<char>>,
    fences: Map<Seq<char>, FenceModel>,
    this_process: Seq<char>,
    found: Seq<ProcessLiveness>,
    at: ClockModel,
    count: nat,
)
    requires
        count <= keys.len(),
        count <= found.len(),
    ensures
        exists|places: Seq<int>| #[trigger]
            fences_at(
                stale_places(keys, fences, this_process, found, at, count),
                keys,
                fences,
                this_process,
                found,
                at,
                count as int,
                places,
            ),
    decreases count,
{
    let list = stale_places(keys, fences, this_process, found, at, count);
    if count == 0 {
        assert(fences_at(list, keys, fences, this_process, found, at, 0, Seq::empty()));
    } else {
        let last = count - 1;
        law_abandoned_fences_are_found(keys, fences, this_process, found, at, last as nat);
        let before = stale_places(keys, fences, this_process, found, at, last as nat);
        let earlier = choose|places: Seq<int>| #[trigger]
            fences_at(before, keys, fences, this_process, found, at, last, places);
        let stale = abandoned(fences[keys[last]], this_process, found[last], at);
        let places = if stale {
            earlier.push(last)
        } else {
            earlier
        };
        assert forall|i: int| 0 <= i < count implies (places.contains(i) <==> abandoned(
            fences[#[trigger] keys[i]],
            this_process,
            found[i],
            at,
        )) by {
            if stale {
                assert(places[earlier.len() as int] == last);
                if i < last && earlier.contains(i) {
                    let n = earlier.index_of(i);
                    assert(places[n] == i);
                }
            }
            if i == last && !stale && earlier.contains(i) {
                let n = earlier.index_of(i);
                assert(earlier[n] < last);
            }
        }
        assert(fences_at(list, keys, fences, this_process, found, at, count as int, places));
    }
}

/// What an older version left is taken up: what had ended is cleaned up once more
/// towards the same end, what waits without an aim is consumed, and a record whose
/// control group cannot be told apart is cleaned up with its processes unknown.
/// Everything else is read as it was written.
pub proof fn law_older_records_are_taken_up(record: RecordModel)
    ensures
        ({
            let lost = record.helper_cgroup is Some && record.helper_cgroup_identity is None;
            let quarantined = RecordModel {
                status: LifecycleStatus::CleanupPending,
                cleanup_target: if record.cleanup_target is Some {
                    record.cleanup_target
                } else {
                    Some(LifecycleStatus::Deleted)
                },
                claim_id: None,
                helper_cgroup: None,
                helper_cgroup_identity: None,
                helper_descendants_unknown: true,
                generation: successor(record.generation),
                ..let_go(record)
            };
            &&& lost ==> migrated_record(record, false) == quarantined && migrated_record(
                record,
                true,
            ) == quarantined
            &&& !lost ==> migrated_record(record, false) == record
            &&& !lost && ended(record.status) ==> migrated_record(record, true) == (RecordModel {
                status: LifecycleStatus::CleanupPending,
                cleanup_target: Some(record.status),
                generation: successor(record.generation),
                ..record
            })
            &&& !lost && record.status is CleanupPending && record.cleanup_target is None
                ==> migrated_record(record, true) == (RecordModel {
                cleanup_target: Some(LifecycleStatus::Consumed),
                ..record
            })
            &&& !lost && !ended(record.status) && !(record.status is CleanupPending
                && record.cleanup_target is None) ==> migrated_record(record, true) == record
        }),
{
}

// ---------------------------------------------------------------------------
// Status
// ---------------------------------------------------------------------------

/// What is told of a record is its own: its status by the name of that status, whatever
/// the clock says, but for an active handle whose time is up, which is told as
/// expired.
pub proof fn law_records_are_told_as_they_are(record: RecordModel, at: ClockModel)
    ensures
        ({
            let told = record_told(record, at);
            &&& told == (PublicModel {
                handle: record.handle,
                target: record.target,
                label: record.label,
                created_at: record.created_at,
                expires_at: record.expires_at,
                single_use: record.single_use,
                status: told.status,
                last_error: record.last_error,
            })
            &&& record.status is Active && !handle_time_is_up(record, at) ==> told.status
                == "active"@
            &&& record.status is Active && handle_time_is_up(record, at) ==> told.status
                == "expired"@
            &&& record.status is Provisioning ==> told.status == "provisioning"@
            &&& record.status is Claimed ==> told.status == "claimed"@
            &&& record.status is Running ==> told.status == "running"@
            &&& record.status is CleanupPending ==> told.status == "cleanup_pending"@
            &&& record.status is Consumed ==> told.status == "consumed"@
            &&& record.status is Deleted ==> told.status == "deleted"@
            &&& record.status is Expired ==> told.status == "expired"@
            &&& record.status is Revoked ==> told.status == "revoked"@
        }),
{
}

/// Of a record that is not active the same is told at any time.
pub proof fn law_only_active_handles_change_with_time(
    record: RecordModel,
    earlier: ClockModel,
    later: ClockModel,
)
    requires
        !(record.status is Active),
    ensures
        record_told(record, earlier) == record_told(record, later),
{
}

/// What is told of a handle is told exactly if the handle is acceptable and known.
pub proof fn law_known_handles_are_told_of(
    state: &State,
    handle: &str,
    clock: &Clock,
    result: Result<PublicRecord, String>,
    checked: Result<(), String>,
)
    requires
        call_ensures(handle_status, (state, handle, clock), result),
        call_ensures(validate_text, (handle, "handle"), checked),
    ensures
        result is Ok <==> checked is Ok && state@.records.contains_key(handle@),
        result matches Ok(told) ==> told@ == record_told(state@.records[handle@], clock@),
        result is Err && checked is Err ==> result->Err_0@ == checked->Err_0@,
        result is Err && checked is Ok ==> result->Err_0@ == "unknown handle"@,
{
}

/// Of all handles each is told of once, in the order of the handles.
pub proof fn law_all_handles_are_told_of(state: &State, clock: &Clock, list: Vec<PublicRecord>)
    requires
        state.wf(),
        forall|key: Seq<char>| #[trigger]
            state@.records.contains_key(key) ==> state@.records[key].handle == key,
        call_ensures(list_status, (state, clock), list),
    ensures
        list@.len() == state@.records.len(),
        forall|i: int|
            0 <= i < list@.len() ==> state@.records.contains_key((#[trigger] list@[i])@.handle)
                && list@[i]@ == record_told(state@.records[list@[i]@.handle], clock@),
        forall|i: int, j: int|
            0 <= i < j < list@.len() ==> text_before(
                (#[trigger] list@[i])@.handle,
                (#[trigger] list@[j])@.handle,
            ),
{
    let keys = state.records.keys();
    state.records.lemma_keys();
    assert forall|i: int| 0 <= i < list@.len() implies state@.records.contains_key(
        (#[trigger] list@[i])@.handle,
    ) && list@[i]@ == record_told(state@.records[list@[i]@.handle], clock@) && list@[i]@.handle
        == keys[i] by {
        assert(keys.contains(keys[i]));
        assert(state@.records.contains_key(keys[i]));
    }
}

// ---------------------------------------------------------------------------
// What is done to the state
// ---------------------------------------------------------------------------

/// Claims are decided, handed back, launched and ended, and captures activated, as their
/// laws say; whatever fails leaves the state as it was.
pub proof fn law_runs_change_the_state_by_their_laws(
    handle: &str,
    id: String,
    owner: &str,
    clock: &Clock,
    claim: &RunClaim,
    helper: &HelperFence,
    uncertain: bool,
    cgroup: &str,
    identity: CgroupIdentity,
    cleanup: &Result<(), String>,
    decision: Result<ClaimDecision, String>,
    reserved: Result<(), String>,
    ended: Result<Option<CleanupAction>, String>,
)
    ensures
        forall|state: &mut State| #[trigger]
            call_ensures(claim_with_id, (state, handle, id, owner, clock), decision)
                ==> match claim_decided(state@, handle@, id@, owner@, clock@) {
                Ok((after, made)) => decision is Ok && decision->Ok_0@ == made && final(state)@
                    == after,
                Err(e) => decision is Err && decision->Err_0@ == e && final(state)@ == state@,
            },
        forall|state: &mut State| #[trigger]
            call_ensures(restore_claim, (state, claim), ()) ==> final(state)@ == claim_restored(
                state@,
                claim@,
            ),
        forall|state: &mut State| #[trigger]
            call_ensures(reserve_launch, (state, claim, cgroup, identity, owner, clock), reserved)
                ==> match launch_reserved(state@, claim@, cgroup@, identity, owner@, clock@) {
                Ok(after) => reserved is Ok && final(state)@ == after,
                Err(e) => reserved is Err && reserved->Err_0@ == e && final(state)@ == state@,
            },
        forall|state: &mut State| #[trigger]
            call_ensures(note_start_failure, (state, claim, cgroup, cleanup), ()) ==> final(state)@
                == launch_not_started(
                state@,
                claim@,
                cgroup@,
                match *cleanup {
                    Ok(_) => None,
                    Err(e) => Some(e@),
                },
            ),
        forall|state: &mut State| #[trigger]
            call_ensures(finish_record, (state, claim, helper, uncertain, owner), ended)
                ==> match run_finished(state@, claim@, helper@, uncertain, owner@) {
                Ok((after, left)) => ended is Ok && final(state)@ == after && (ended->Ok_0 is Some
                    <==> left is Some) && (left is Some ==> ended->Ok_0->0@ == left->0),
                Err(e) => ended is Err && ended->Err_0@ == e && final(state)@ == state@,
            },
{
}

/// What a launch started and did not recognize is noted with what is wrong with it and what
/// is left of it; and what runs is noted at its record, and fenced by what was noted.
pub proof fn law_started_operations_are_noted(
    claim: &RunClaim,
    what: Unverified,
    left: &Option<String>,
    helper: &HelperProcess,
    cgroup: &str,
    identity: CgroupIdentity,
    mono: Option<u64>,
    wall: u64,
    noted: Result<HelperFence, LaunchError>,
)
    ensures
        forall|state: &mut State| #[trigger]
            call_ensures(note_unverified, (state, claim, what, left), ()) ==> {
                let seen = if what is Identity {
                    "operation helper identity could not be verified"@
                } else {
                    "operation helper process group could not be verified"@
                };
                final(state)@ == launch_unrecognized(
                    state@,
                    claim@,
                    if left is Some {
                        seen + "; "@ + left->0@
                    } else {
                        seen
                    },
                )
            },
        forall|state: &mut State| #[trigger]
            call_ensures(note_running, (state, claim, helper, cgroup, identity, mono, wall), noted)
                ==> {
                let known = state@.records.contains_key(claim.handle@);
                let record = running(
                    state@.records[claim.handle@],
                    helper.pid,
                    helper.start_ticks,
                    helper.boot_id@,
                    cgroup@,
                    identity,
                    mono,
                    wall,
                );
                &&& noted is Ok <==> known
                &&& known ==> only_changed(state@, final(state)@, claim.handle@, record)
                &&& noted matches Ok(fence) ==> fence@ == (HelperModel {
                    handle: claim.handle@,
                    pid: helper.pid,
                    pgid: helper.pid as i32,
                    start_ticks: helper.start_ticks,
                    boot_id: helper.boot_id@,
                    generation: record.generation,
                    cgroup: Some(cgroup@),
                    cgroup_identity: Some(identity),
                })
                &&& noted matches Err(e) ==> final(state)@ == state@ && e.message@
                    == "unknown handle"@ && !e.uncertain
            },
{
}

/// Captures are activated, given up, deleted and cleaned up, and their helpers noted and
/// forgotten, as their laws say; whatever fails leaves the state as it was.
pub proof fn law_handles_change_the_state_by_their_laws(
    handle: &str,
    clock: &Clock,
    target: LifecycleStatus,
    error: &str,
    action: &CleanupAction,
    helper: &Result<(), String>,
    keyring: &Result<(), String>,
    now: u64,
    fence: &HelperFence,
    done: Result<(), String>,
    marked: Result<CleanupAction, String>,
    deleted: Result<Option<CleanupAction>, String>,
)
    ensures
        forall|state: &mut State| #[trigger]
            call_ensures(activate_capture, (state, handle, clock), done) ==> match capture_activated(
                state@,
                handle@,
                clock@,
            ) {
                Ok(after) => done is Ok && final(state)@ == after,
                Err(e) => done is Err && done->Err_0@ == e && final(state)@ == state@,
            },
        forall|state: &mut State| #[trigger]
            call_ensures(clear_helper, (state, fence), done) ==> match helper_cleared(
                state@,
                fence@,
            ) {
                Ok(after) => done is Ok && final(state)@ == after,
                Err(e) => done is Err && done->Err_0@ == e && final(state)@ == state@,
            },
        forall|state: &mut State| #[trigger]
            call_ensures(mark_cleanup_pending, (state, handle, target, error), marked)
                ==> match handle_given_up(state@, handle@, target, error@) {
                Ok((after, left)) => marked is Ok && marked->Ok_0@ == left && final(state)@
                    == after,
                Err(e) => marked is Err && marked->Err_0@ == e && final(state)@ == state@,
            },
        forall|state: &mut State| #[trigger]
            call_ensures(delete_handle, (state, handle), deleted) ==> match handle_deleted(
                state@,
                handle@,
            ) {
                Ok((after, left)) => deleted is Ok && final(state)@ == after && (
                deleted->Ok_0 is Some <==> left is Some) && (left is Some ==> deleted->Ok_0->0@
                    == left->0),
                Err(e) => deleted is Err && deleted->Err_0@ == e && final(state)@ == state@,
            },
        forall|state: &mut State| #[trigger]
            call_ensures(finalize_cleanup_parts, (state, action, helper, keyring, now), done)
                ==> match cleanup_finalized(
                state@,
                action@,
                match *helper {
                    Ok(_) => None,
                    Err(e) => Some(e@),
                },
                match *keyring {
                    Ok(_) => None,
                    Err(e) => Some(e@),
                },
                now,
            ) {
                Ok(after) => done is Ok && final(state)@ == after,
                Err(e) => done is Err && done->Err_0@ == e && final(state)@ == state@,
            },
{
}

/// A helper is noted at the record that its capture holds, and nothing else changes.
pub proof fn law_helpers_are_noted_at_their_record(
    capture: &CaptureFence,
    helper: &HelperProcess,
    kind: &str,
    cgroup: &str,
    identity: CgroupIdentity,
    owner: &str,
    noted: Result<HelperFence, String>,
)
    ensures
        forall|state: &mut State| #[trigger]
            call_ensures(
                register_helper,
                (state, capture, helper, kind, cgroup, identity, owner),
                noted,
            ) ==> {
                let record = state@.records[capture.handle@];
                &&& noted is Ok <==> register_fault(state@, capture@, owner@) is None
                &&& noted matches Err(e) ==> register_fault(state@, capture@, owner@) == Some(e@)
                    && final(state)@ == state@
                &&& noted is Ok ==> only_changed(
                    state@,
                    final(state)@,
                    capture.handle@,
                    RecordModel {
                        helper_pid: Some(helper.pid),
                        helper_pgid: Some(helper.pid as i32),
                        helper_start_ticks: Some(helper.start_ticks),
                        helper_boot_id: Some(helper.boot_id@),
                        helper_kind: Some(kind@),
                        helper_cgroup: Some(cgroup@),
                        helper_cgroup_identity: Some(identity),
                        generation: successor(record.generation),
                        ..record
                    },
                )
                &&& noted matches Ok(fence) ==> fence@ == (HelperModel {
                    handle: capture.handle@,
                    pid: helper.pid,
                    pgid: helper.pid as i32,
                    start_ticks: helper.start_ticks,
                    boot_id: helper.boot_id@,
                    generation: successor(record.generation),
                    cgroup: Some(cgroup@),
                    cgroup_identity: Some(identity),
                })
            },
{
}

/// Room is made for a capture, and a record is made for it, as their laws say: with its
/// first generation under its handle.
pub proof fn law_captures_change_the_state_by_their_laws(
    handle: &str,
    plan: &CaptureRequest,
    owner: &str,
    clock: &Clock,
    made: Result<CaptureFence, String>,
    room: Result<(), String>,
)
    ensures
        forall|state: &mut State| #[trigger]
            call_ensures(provision_under, (state, handle, plan, owner, clock), made)
                ==> match capture_provisioned(state@, handle@, plan@, owner@, clock@) {
                Ok(after) => made is Ok && final(state)@ == after && made->Ok_0.handle@ == handle@
                    && made->Ok_0.generation == 1,
                Err(e) => made is Err && made->Err_0@ == e && final(state)@.records == pruned(
                    state@.records,
                ) && final(state)@.operation_cgroups == state@.operation_cgroups,
            },
        forall|state: &mut State| #[trigger]
            call_ensures(ensure_capture_capacity, (state,), room) ==> {
                &&& room is Ok <==> pruned(state@.records).len() < 1024
                &&& room matches Err(e) ==> e@ == "secret handle capacity has been reached"@
                &&& final(state)@.records == pruned(state@.records)
                &&& final(state)@.operation_cgroups == state@.operation_cgroups
                &&& final(state)@.schema_version == state@.schema_version
                &&& final(state)@.recovery_mode == state@.recovery_mode
            },
        forall|state: &mut State| #[trigger]
            call_ensures(prune_terminal_records, (state,), ()) ==> final(state)@.records == pruned(
                state@.records,
            ) && final(state)@.operation_cgroups == state@.operation_cgroups
                && final(state)@.schema_version == state@.schema_version
                && final(state)@.recovery_mode == state@.recovery_mode,
{
}

/// A record is recovered, and its cleanup handed out, exactly if it does not rest; the
/// cleanup is that of the record as it then stands.
pub proof fn law_records_are_recovered(
    reading: Reading,
    action: Option<CleanupAction>,
    target: LifecycleStatus,
    error: String,
    kept: Option<String>,
    first: Option<String>,
)
    requires
        call_ensures(first_error, (kept, error), first),
    ensures
        forall|record: &mut SecretRecord| #[trigger]
            call_ensures(reconcile_record, (record, reading), action) ==> {
                &&& action is None <==> rests(record@, reading)
                &&& action is None ==> final(record)@ == record@
                &&& action is Some ==> needs_recovery(record@, reading, action->0@.target)
                    && cleans_up(action->0@, final(record)@, action->0@.target) && final(record)@
                    == (RecordModel {
                    status: LifecycleStatus::CleanupPending,
                    cleanup_target: Some(action->0@.target),
                    last_error: Some("cleanup scheduled during recovery"@),
                    generation: successor(record@.generation),
                    ..record@
                })
            },
        forall|record: &mut SecretRecord| #[trigger]
            call_ensures(mark_record_cleanup_pending, (record, target, error), ())
                ==> final(record)@ == (RecordModel {
                status: LifecycleStatus::CleanupPending,
                cleanup_target: Some(target),
                claim_id: None,
                last_error: Some(error@),
                generation: successor(record@.generation),
                ..let_go(record@)
            }),
        first is Some && first->0@ == if kept is Some {
            kept->0@
        } else {
            error@
        },
{
}

/// Whether one record of a state was seen to: it is as it was if it was not read or rests,
/// and else it waits for its cleanup; and nothing but records changed.
pub open spec fn seen_to(
    before: StateModel,
    after: StateModel,
    keys: Seq<Seq<char>>,
    readings: Seq<Reading>,
    place: int,
) -> bool {
    let record = before.records[keys[place]];
    let same = place >= readings.len() || rests(record, readings[place]);
    &&& after.records.dom() == before.records.dom()
    &&& after.operation_cgroups == before.operation_cgroups
    &&& after.schema_version == before.schema_version
    &&& after.recovery_mode == before.recovery_mode
    &&& same ==> after.records[keys[place]] == record
    &&& !same ==> after.records[keys[place]] == (RecordModel {
        status: LifecycleStatus::CleanupPending,
        cleanup_target: after.records[keys[place]].cleanup_target,
        last_error: Some("cleanup scheduled during recovery"@),
        generation: successor(record.generation),
        ..record
    })
    &&& !same ==> after.records[keys[place]].cleanup_target is Some && needs_recovery(
        record,
        readings[place],
        after.records[keys[place]].cleanup_target->0,
    )
}

/// Recovery sees to every record that was read, and to no other, and hands out the cleanups
/// that it owes.
pub proof fn law_recovery_sees_to_every_record(
    readings: &Vec<Reading>,
    actions: Vec<CleanupAction>,
    place: int,
)
    ensures
        forall|state: &mut State| #[trigger]
            call_ensures(reconcile_records, (state, readings), actions) && 0 <= place
                < state.records.keys().len() ==> seen_to(
                state@,
                final(state)@,
                state.records.keys(),
                readings@,
                place,
            ) && actions_of(actions@) == recovery_actions(
                state.records.keys(),
                state@.records,
                readings@,
                readings@.len(),
            ),
{
    assert forall|state: &mut State| #[trigger]
        call_ensures(reconcile_records, (state, readings), actions) && 0 <= place
            < state.records.keys().len() implies seen_to(
        state@,
        final(state)@,
        state.records.keys(),
        readings@,
        place,
    ) by {
        let record = state@.records[state.records.keys()[place]];
        if place < readings@.len() {
            law_recovery_makes_progress(record, readings@[place]);
            if let Some(target) = recovery_target(record, readings@[place]) {
                assert(needs_recovery(record, readings@[place], target));
            }
        }
    }
}

/// What is said of a record's clock, its lease and the owner of a fence is what their laws
/// say, and a clock before the epoch reads as the epoch.
pub proof fn law_clocks_are_read_by_their_laws(
    since_epoch: Option<u64>,
    seconds: u64,
    record: &SecretRecord,
    fence: &OperationCgroupFence,
    clock: &Clock,
    this_process: &str,
    found: ProcessLiveness,
    up: bool,
    past: bool,
    lease: LeaseLiveness,
    owner: ProcessLiveness,
    live: bool,
)
    requires
        call_ensures(clock_now, (since_epoch,), seconds),
        call_ensures(record_expired, (record, clock), up),
        call_ensures(operation_cgroup_expired, (fence, clock), past),
        call_ensures(lease_liveness, (record, this_process, found, clock), lease),
        call_ensures(operation_cgroup_owner_liveness, (fence, this_process, found), owner),
        call_ensures(operation_cgroup_owner_live, (fence, this_process, found), live),
    ensures
        since_epoch is Some ==> seconds == since_epoch->0,
        since_epoch is None ==> seconds == 0,
        up == handle_time_is_up(record@, clock@),
        past == time_is_up(
            fence@.expires_at,
            fence@.expires_mono,
            fence@.boot_id,
            clock@,
        ),
        lease == lease_of(record@, this_process@, found, clock@),
        fence@.owner == this_process@ ==> owner is Alive,
        fence@.owner != this_process@ ==> owner == found,
        live <==> owner is Alive,
{
}

/// A cleanup went well exactly if both of its parts did, and else what went wrong is told;
/// only a recovery heeds a cancellation, and a group is a process's own exactly if it
/// carries its number.
pub proof fn law_cleanups_are_told_of(
    helper: &Result<(), String>,
    keyring: &Result<(), String>,
    result: Result<(), String>,
    purpose: CleanupPurpose,
    heeds: bool,
    action: &CleanupAction,
    entry: bool,
    plan: CleanupPlan,
    reported: i32,
    pgid: i32,
    own: bool,
)
    requires
        call_ensures(cleanup_outcome, (helper, keyring), result),
        call_ensures(heeds_cancellation, (purpose,), heeds),
        call_ensures(has_keyring_entry, (action,), entry),
        call_ensures(plan_cleanup, (action, purpose), plan),
        call_ensures(process_group_matches, (reported, pgid), own),
    ensures
        result is Ok <==> helper is Ok && keyring is Ok,
        helper is Err && keyring is Ok ==> result->Err_0@ == "helper cleanup failed: "@
            + helper->Err_0@,
        helper is Ok && keyring is Err ==> result->Err_0@ == "keyring cleanup failed: "@
            + keyring->Err_0@,
        helper is Err && keyring is Err ==> result->Err_0@ == "helper cleanup failed: "@
            + helper->Err_0@ + "; "@ + ("keyring cleanup failed: "@ + keyring->Err_0@),
        heeds <==> purpose is Recovery,
        entry <==> action.account@.len() > 0 && !action.cleanup_keyring_done,
        plan.clear_keyring == entry,
        plan.heed_cancellation == heeds,
        own <==> reported == pgid,
{
}

/// What is told of a record, and the record that is made for a capture, are what their laws
/// say: a handle that was made at one time is out of time at another exactly if as many
/// seconds have passed as were asked for, and only then an active one is told as expired.
pub proof fn law_handles_expire_when_they_are_told_to(
    handle: &str,
    target: &str,
    label: &str,
    ttl: u64,
    single_use: bool,
    owner: &str,
    made: &Clock,
    record: SecretRecord,
    at: &Clock,
    up: bool,
    other: &SecretRecord,
    told: PublicRecord,
)
    requires
        made@.wall + ttl <= u64::MAX,
        made@.mono matches Some(mono) ==> mono + ttl <= u64::MAX,
        call_ensures(
            provisioning_record,
            (handle, target, label, ttl, single_use, owner, made),
            record,
        ),
        call_ensures(record_expired, (&record, at), up),
        call_ensures(public_record, (other, at), told),
    ensures
        made@.mono is Some && made@.boot is Some && at@.mono is Some && at@.boot is Some ==> (up
            <==> made@.boot != at@.boot || at@.mono->0 - made@.mono->0 >= ttl),
        !(made@.mono is Some && made@.boot is Some && at@.mono is Some && at@.boot is Some) ==> (up
            <==> at@.wall - made@.wall >= ttl),
        record@.handle == handle@ && record@.target == target@ && record@.label == label@,
        record@.single_use == single_use && record@.status is Provisioning && record@.generation
            == 1,
        told.handle@ == other.handle@ && told.target@ == other.target@ && told.label@
            == other.label@,
        told.created_at == other.created_at && told.expires_at == other.expires_at,
        told.single_use == other.single_use,
        other.status is Active && handle_time_is_up(other@, at@) ==> told.status@ == "expired"@,
        other.status is Active && !handle_time_is_up(other@, at@) ==> told.status@ == "active"@,
        other.status is CleanupPending ==> told.status@ == "cleanup_pending"@,
        other.status is Running ==> told.status@ == "running"@,
        other.status is Claimed ==> told.status@ == "claimed"@,
        other.status is Provisioning ==> told.status@ == "provisioning"@,
        other.status is Revoked ==> told.status@ == "revoked"@,
        other.status is Consumed ==> told.status@ == "consumed"@,
        other.status is Deleted ==> told.status@ == "deleted"@,
        other.status is Expired ==> told.status@ == "expired"@,
{
}

/// A launch is let through exactly if its claim stands, and a claim is decided under some
/// new identifier as its law says.
pub proof fn law_claims_and_launches_are_decided(
    state: &State,
    claim: &RunClaim,
    handle: &str,
    owner: &str,
    clock: &Clock,
    launch: Result<(), LaunchError>,
    decision: Result<ClaimDecision, String>,
)
    requires
        call_ensures(check_launch, (state, claim, clock), launch),
    ensures
        launch is Ok <==> launch_fault(state@, claim@, clock@) is None,
        launch matches Err(e) ==> launch_fault(state@, claim@, clock@) == Some(e.message@)
            && !e.uncertain,
        forall|before: &mut State| #[trigger]
            call_ensures(claim_for_run, (before, handle, owner, clock), decision) ==> {
                let record = before@.records[handle@];
                let known = before@.records.contains_key(handle@);
                &&& decision is Err <==> !known
                &&& decision is Err ==> decision->Err_0@ == "unknown handle"@ && final(before)@
                    == before@
                &&& known && record.status is Active && !handle_time_is_up(record, clock@)
                    ==> decision->Ok_0@ is Granted
                &&& known && record.status is Active && handle_time_is_up(record, clock@)
                    ==> decision->Ok_0@ is Expired
                &&& known && !(record.status is Active) ==> decision->Ok_0@ is Refused
                    && final(before)@ == before@
                &&& decision is Ok && decision->Ok_0@ is Granted ==> {
                    let granted = decision->Ok_0@->Granted_0;
                    &&& granted.handle == handle@
                    &&& granted.account == record.keyring_account
                    &&& granted.single_use == record.single_use
                    &&& final(before)@.records[handle@].status is Claimed
                    &&& final(before)@.records[handle@].claim_id == Some(granted.claim_id)
                    &&& final(before)@.records[handle@].generation == granted.generation
                    &&& final(before)@.records[handle@].lease_owner == Some(owner@)
                }
            },
{
}

/// A capture that is made under a new handle is made as its law says, as long as there is
/// room for it.
pub proof fn law_captures_are_made_under_new_handles(
    plan: &CaptureRequest,
    owner: &str,
    clock: &Clock,
    made: Result<CaptureFence, String>,
)
    ensures
        forall|state: &mut State| #[trigger]
            call_ensures(provision_capture, (state, plan, owner, clock), made) ==> {
                &&& made is Ok <==> pruned(state@.records).len() < 1024
                &&& made matches Ok(fence) ==> capture_provisioned(
                    state@,
                    fence.handle@,
                    plan@,
                    owner@,
                    clock@,
                ) == Ok::<StateModel, Seq<char>>(final(state)@) && fence.generation == 1
                &&& made matches Err(e) ==> e@ == "secret handle capacity has been reached"@
                    && final(state)@.records == pruned(state@.records)
                    && final(state)@.operation_cgroups == state@.operation_cgroups
            },
{
}

/// Deadlines are counted from a reading, as far as they can be counted, and a clock counts
/// from boot only together with its boot; and fences are those of their owners.
pub proof fn law_deadlines_are_counted_from_a_reading(
    a: u64,
    b: u64,
    sum: u64,
    current: Option<u64>,
    deadline: Option<u64>,
    clock: &Clock,
    pair: (Option<u64>, Option<String>),
    identity: CgroupIdentity,
    owner: &str,
    own: OperationCgroupFence,
    foreign: OperationCgroupFence,
)
    requires
        call_ensures(saturating_sum, (a, b), sum),
        call_ensures(mono_deadline, (current, b), deadline),
        call_ensures(monotonic_pair, (clock,), pair),
        call_ensures(operation_cgroup_fence, (identity, owner, clock), own),
        call_ensures(operation_cgroup_fence_for_owner, (owner, identity, clock), foreign),
    ensures
        sum == later_by(a, b as int),
        deadline is Some <==> current is Some,
        current is Some ==> deadline->0 == later_by(current->0, b as int),
        pair.0 is Some <==> clock@.mono is Some && clock@.boot is Some,
        pair.1 is Some <==> pair.0 is Some,
        pair.0 is Some ==> pair.0 == clock@.mono && Some(pair.1->0@) == clock@.boot,
        own@ == own_fence(owner@, identity, clock@),
        foreign@.owner == owner@ && foreign@.identity == Some(identity) && foreign@.expires_at
            == clock@.wall,
        clock@.mono is Some && clock@.boot is Some ==> foreign@.expires_mono == clock@.mono
            && foreign@.boot_id == clock@.boot,
        clock@.mono is None || clock@.boot is None ==> foreign@.expires_mono is None
            && foreign@.boot_id is None,
{
}

// ---------------------------------------------------------------------------
// From one operation to the next
// ---------------------------------------------------------------------------

/// A handle whose life has not ended and that is deleted is granted to nobody any more, and
/// ends as deleted once its helper and its keyring entry are gone.
pub proof fn law_deleted_handles_end_deleted(
    state: StateModel,
    handle: Seq<char>,
    after: StateModel,
    action: ActionModel,
    id: Seq<char>,
    owner: Seq<char>,
    at: ClockModel,
    purpose: CleanupPurpose,
    cancelled: bool,
    keyring: KeyringAnswers,
    now: u64,
)
    requires
        state.records.contains_key(handle),
        state.records[handle].handle == handle,
        handle_deleted(state, handle) == Ok::<(StateModel, Option<ActionModel>), Seq<char>>(
            (after, Some(action)),
        ),
        (keyring.clear)(stops(purpose, cancelled), false) is Ok,
        seen_missing(keyring, stops(purpose, cancelled), 0),
    ensures
        claim_decided(after, handle, id, owner, at) == Ok::<
            (StateModel, ClaimDecisionModel),
            Seq<char>,
        >((after, ClaimDecisionModel::Refused)),
        ({
            let (end, told) = cleanup_performed(
                after,
                action,
                purpose,
                cancelled,
                None,
                keyring,
                now,
            );
            &&& told is None
            &&& end.records[handle].status is Deleted
            &&& record_told(end.records[handle], at).status == "deleted"@
            &&& end.records[handle].keyring_account == state.records[handle].keyring_account
            &&& claim_decided(end, handle, id, owner, at)->Ok_0.1 is Refused
        }),
{
    let stopped = stops(purpose, cancelled);
    law_removals_end_with_a_search(keyring, stopped);
    let left = removal_fault(ClearModel::Clear { again: false }, keyring, stopped);
    assert(left is None);
    law_cleanups_are_accounted_for(after, action, None, left, now);
    law_cleanups_are_accounted_for(after, action, None, None, now);
}

/// A handle for a single use is used once: when its run ends it is granted to nobody any
/// more, and it ends as consumed once its keyring entry is gone.
pub proof fn law_single_use_handles_are_used_once(
    state: StateModel,
    claim: ClaimModel,
    helper: HelperModel,
    owner: Seq<char>,
    after: StateModel,
    action: Option<ActionModel>,
    id: Seq<char>,
    next_owner: Seq<char>,
    at: ClockModel,
    purpose: CleanupPurpose,
    cancelled: bool,
    keyring: KeyringAnswers,
    now: u64,
)
    requires
        claim.single_use,
        state.records[claim.handle].status is Running,
        state.records[claim.handle].handle == claim.handle,
        run_finished(state, claim, helper, false, owner) == Ok::<
            (StateModel, Option<ActionModel>),
            Seq<char>,
        >((after, action)),
        (keyring.clear)(stops(purpose, cancelled), false) is Ok,
        seen_missing(keyring, stops(purpose, cancelled), 0),
    ensures
        action is Some,
        claim_decided(after, claim.handle, id, next_owner, at) == Ok::<
            (StateModel, ClaimDecisionModel),
            Seq<char>,
        >((after, ClaimDecisionModel::Refused)),
        ({
            let end = cleanup_performed(
                after,
                action->0,
                purpose,
                cancelled,
                None,
                keyring,
                now,
            ).0.records[claim.handle];
            end.status is Consumed && end.consumed_at == Some(now)
        }),
{
    law_runs_end_as_their_handle_says(state, claim, helper, false, owner);
    let stopped = stops(purpose, cancelled);
    law_removals_end_with_a_search(keyring, stopped);
    let left = removal_fault(ClearModel::Clear { again: false }, keyring, stopped);
    assert(left is None);
    law_cleanups_are_accounted_for(after, action->0, None, left, now);
}

/// A cleanup that failed is tried again: recovery hands out another one of the same record
/// towards the same end, which the record then waits for, and which ends it once its
/// helper and its keyring entry are gone.
pub proof fn law_failed_cleanups_are_tried_again(
    state: StateModel,
    action: ActionModel,
    helper: Option<Seq<char>>,
    keyring: Option<Seq<char>>,
    now: u64,
    after: StateModel,
    reading: Reading,
    later: u64,
)
    requires
        state.records.contains_key(action.handle),
        state.records[action.handle].handle == action.handle,
        state.records[action.handle].status is CleanupPending,
        state.records[action.handle].cleanup_target == Some(action.target),
        ended(action.target),
        cleanup_finalized(state, action, helper, keyring, now) == Ok::<StateModel, Seq<char>>(
            after,
        ),
        !ended(after.records[action.handle].status),
    ensures
        ({
            let waiting = after.records[action.handle];
            let recovered_record = recovered(waiting, reading);
            let again = cleanup_of(recovered_record, action.target);
            let recovered_state = StateModel {
                records: after.records.insert(action.handle, recovered_record),
                ..after
            };
            let end = cleanup_finalized(recovered_state, again, None, None, later);
            &&& needs_recovery(waiting, reading, action.target)
            &&& cleans_up(again, recovered_record, action.target)
            &&& end is Ok
            &&& end->Ok_0.records[action.handle].status == action.target
            &&& end->Ok_0.records[action.handle].last_error is None
        }),
{
    law_cleanups_are_accounted_for(state, action, helper, keyring, now);
    let waiting = after.records[action.handle];
    law_recovery_makes_progress(waiting, reading);
    let recovered_record = recovered(waiting, reading);
    let again = cleanup_of(recovered_record, action.target);
    let recovered_state = StateModel {
        records: after.records.insert(action.handle, recovered_record),
        ..after
    };
    law_cleanups_are_accounted_for(recovered_state, again, None, None, later);
}

/// Whatever is done to a handle, what was asked for when it was captured stays: its handle,
/// its target, its label, its times, its account, and for how many uses it is.
pub open spec fn same_wish(before: RecordModel, after: RecordModel) -> bool {
    &&& after.handle == before.handle
    &&& after.target == before.target
    &&& after.label == before.label
    &&& after.created_at == before.created_at
    &&& after.expires_at == before.expires_at
    &&& after.expires_mono == before.expires_mono
    &&& after.expires_boot_id == before.expires_boot_id
    &&& after.single_use == before.single_use
    &&& after.keyring_account == before.keyring_account
}

/// Whether everything that a state holds is kept but for what befalls one record, and of
/// that what was asked for.
pub open spec fn bears_on_one(before: StateModel, after: StateModel, handle: Seq<char>) -> bool {
    &&& after.records.dom() == before.records.dom()
    &&& forall|key: Seq<char>|
        key != handle && #[trigger] before.records.contains_key(key) ==> after.records[key]
            == before.records[key]
    &&& before.records.contains_key(handle) ==> same_wish(
        before.records[handle],
        after.records[handle],
    )
    &&& after.schema_version == before.schema_version
    &&& after.recovery_mode == before.recovery_mode
}

/// Claims, runs, activations, deletions, giving up and cleanups bear on their own record
/// alone, and keep what was asked for when it was captured.
pub proof fn law_operations_bear_on_one_record(
    state: StateModel,
    handle: Seq<char>,
    id: Seq<char>,
    owner: Seq<char>,
    at: ClockModel,
    claim: ClaimModel,
    helper: HelperModel,
    uncertain: bool,
    action: ActionModel,
    target: LifecycleStatus,
    error: Seq<char>,
    helper_fault: Option<Seq<char>>,
    keyring_fault: Option<Seq<char>>,
    now: u64,
)
    ensures
        claim_decided(state, handle, id, owner, at) matches Ok(done) ==> bears_on_one(
            state,
            done.0,
            handle,
        ),
        bears_on_one(state, claim_restored(state, claim), claim.handle),
        run_finished(state, claim, helper, uncertain, owner) matches Ok(done) ==> bears_on_one(
            state,
            done.0,
            claim.handle,
        ),
        bears_on_one(state, launch_unrecognized(state, claim, error), claim.handle),
        capture_activated(state, handle, at) matches Ok(after) ==> bears_on_one(
            state,
            after,
            handle,
        ),
        helper_cleared(state, helper) matches Ok(after) ==> bears_on_one(
            state,
            after,
            helper.handle,
        ),
        handle_deleted(state, handle) matches Ok(done) ==> bears_on_one(state, done.0, handle),
        handle_given_up(state, handle, target, error) matches Ok(done) ==> bears_on_one(
            state,
            done.0,
            handle,
        ),
        cleanup_finalized(state, action, helper_fault, keyring_fault, now) matches Ok(after)
            ==> bears_on_one(state, after, action.handle),
{
    if let Ok(done) = claim_decided(state, handle, id, owner, at) {
        assert(done.0.records.dom() =~= state.records.dom());
    }
    assert(claim_restored(state, claim).records.dom() =~= state.records.dom());
    if let Ok(done) = run_finished(state, claim, helper, uncertain, owner) {
        assert(done.0.records.dom() =~= state.records.dom());
    }
    assert(launch_unrecognized(state, claim, error).records.dom() =~= state.records.dom());
    if let Ok(after) = capture_activated(state, handle, at) {
        assert(after.records.dom() =~= state.records.dom());
    }
    if let Ok(after) = helper_cleared(state, helper) {
        assert(after.records.dom() =~= state.records.dom());
    }
    if let Ok(done) = handle_deleted(state, handle) {
        assert(done.0.records.dom() =~= state.records.dom());
    }
    if let Ok(done) = handle_given_up(state, handle, target, error) {
        assert(done.0.records.dom() =~= state.records.dom());
    }
    if let Ok(after) = cleanup_finalized(state, action, helper_fault, keyring_fault, now) {
        assert(after.records.dom() =~= state.records.dom());
    }
}

} // verus!
