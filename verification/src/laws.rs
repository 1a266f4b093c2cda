//! What holds of all transitions together: whatever they make of a sound state is
//! sound, what is revoked stays revoked, and whoever fenced a record before loses
//! it.
use vstd::prelude::*;
use vstd::string::*;
use vstd::utf8::*;

use crate::cgroups::{
    cgroup_forgotten, cgroup_registered, cgroup_replaced, fence_for, fenced, unfenced,
};
use crate::clock::{expired, paired, ClockModel};
use crate::flow::{capture_planned, outcome_uncertain};
use crate::lifecycle::{
    advanced, capture_activated, capture_holds, cleaned, cleanup_errors, cleanup_finalized,
    cleanup_holds, given_up, handle_deleted, handle_given_up, helped, helper_cleared, helper_gone,
    helper_holds, noted, pending, provisioned, revoked, unhelped, unleased, with_record,
};
use crate::reconcile::{recovered, Reading};
use crate::record::{
    terminal, ActionModel, CaptureFenceModel, CgroupIdentity, ClaimModel, HelperModel,
    LifecycleStatus, RecordModel,
};
use crate::requests::CaptureModel;
use crate::run::{
    claim_decided, claim_restored, claim_waits, claimed, handed_back, lapsed, launch_fault,
    launch_given_up, launch_not_started, launch_reserved, launch_unrecognized, reserved, run_finished, run_holds,
    run_target, running, start_failure, ClaimDecisionModel,
};
use crate::state::{
    law_pruning_keeps_what_is_in_use, pruned, quarantined, upgraded, StateModel, MAX_OPERATION_CGROUPS,
};
use crate::text::{blank, byte_count, holds_control, lemma_trimmed_is_fit, white_char};
use crate::token::{handle_named, hex_digit, random_digits};
use crate::validate::{
    account_of, fence_broken, law_written_state_is_read_back, null_identity, sound, sound_record,
    state_read, state_written, unfit, unfit_path,
};

verus! {

/// Printable characters of ASCII.
pub open spec fn plain(s: Seq<char>) -> bool {
    forall|i: int| 0 <= i < s.len() ==> ' ' <= #[trigger] s[i] && s[i] <= '~'
}

/// A plain text has one byte for each character and holds no control code.
pub proof fn lemma_plain_text(s: Seq<char>)
    requires
        plain(s),
    ensures
        byte_count(s) == s.len(),
        !holds_control(s),
{
    assert(is_ascii_chars(s)) by {
        assert forall|i: int| 0 <= i < s.len() implies '\0' <= #[trigger] s[i]
            <= '\u{7f}' by {}
    }
    is_ascii_chars_encode_utf8(s);
}

/// A clock whose boot, if it is known, can be stored.
pub open spec fn storable_clock(clock: ClockModel) -> bool {
    clock.boot matches Some(boot) ==> boot.len() > 0 && !unfit(boot, 128)
}

/// A control group that can be stored.
pub open spec fn storable_cgroup(path: Seq<char>, identity: CgroupIdentity) -> bool {
    !unfit_path(path) && !null_identity(identity)
}

/// A process that can be stored as a helper.
pub open spec fn storable_helper(pid: u32, start_ticks: u64, boot: Seq<char>) -> bool {
    1 < pid <= i32::MAX && start_ticks > 0 && !unfit(boot, 128)
}

proof fn lemma_with_record(state: StateModel, key: Seq<char>, record: RecordModel)
    requires
        sound(state),
        sound_record(key, record),
    ensures
        sound(with_record(state, key, record)),
{
    let after = with_record(state, key, record);
    assert forall|k: Seq<char>| #[trigger] after.records.contains_key(k) implies sound_record(
        k,
        after.records[k],
    ) by {
        if k != key {
            assert(state.records.contains_key(k));
        }
    }
}

// ---------------------------------------------------------------------------
// Soundness
// ---------------------------------------------------------------------------

/// Giving up a handle keeps the state sound.
pub proof fn law_giving_up_keeps_soundness(
    state: StateModel,
    handle: Seq<char>,
    target: LifecycleStatus,
    error: Seq<char>,
    after: StateModel,
    action: ActionModel,
)
    requires
        sound(state),
        terminal(target),
        !unfit(error, 2048),
        handle_given_up(state, handle, target, error) == Ok::<(StateModel, ActionModel), Seq<char>>(
            (after, action),
        ),
    ensures
        sound(after),
{
    let record = state.records[handle];
    assert(sound_record(handle, record));
    lemma_with_record(state, handle, given_up(record, target, error));
}

/// Whatever one attempt to clean up comes to keeps the state sound.
pub proof fn law_cleanup_keeps_soundness(
    state: StateModel,
    action: ActionModel,
    helper: Option<Seq<char>>,
    keyring: Option<Seq<char>>,
    now: u64,
    after: StateModel,
)
    requires
        sound(state),
        cleanup_errors(helper, keyring) matches Some(errors) ==> !unfit(errors, 2048),
        cleanup_finalized(state, action, helper, keyring, now) == Ok::<StateModel, Seq<char>>(
            after,
        ),
    ensures
        sound(after),
{
    let record = state.records[action.handle];
    if cleanup_holds(record, action) {
        assert(sound_record(action.handle, record));
        reveal_strlit("cleanup remains incomplete");
        lemma_plain_text("cleanup remains incomplete"@);
        lemma_with_record(
            state,
            action.handle,
            cleaned(record, action.target, helper, keyring, now),
        );
    }
}

/// Deleting a handle keeps the state sound.
pub proof fn law_deletion_keeps_soundness(
    state: StateModel,
    handle: Seq<char>,
    after: StateModel,
    action: Option<ActionModel>,
)
    requires
        sound(state),
        handle_deleted(state, handle) == Ok::<(StateModel, Option<ActionModel>), Seq<char>>(
            (after, action),
        ),
    ensures
        sound(after),
{
    let record = state.records[handle];
    if !terminal(record.status) {
        assert(sound_record(handle, record));
        lemma_with_record(state, handle, revoked(record));
    }
}

/// Claiming a handle keeps the state sound.
pub proof fn law_claim_keeps_soundness(
    state: StateModel,
    handle: Seq<char>,
    id: Seq<char>,
    owner: Seq<char>,
    clock: ClockModel,
    after: StateModel,
    decision: ClaimDecisionModel,
)
    requires
        sound(state),
        random_digits(id),
        !unfit(owner, 128),
        storable_clock(clock),
        claim_decided(state, handle, id, owner, clock) == Ok::<
            (StateModel, ClaimDecisionModel),
            Seq<char>,
        >((after, decision)),
    ensures
        sound(after),
{
    let record = state.records[handle];
    assert(sound_record(handle, record));
    lemma_plain_text(id);
    reveal_strlit("handle expired before operation claim");
    lemma_plain_text("handle expired before operation claim"@);
    if record.status == LifecycleStatus::Active {
        lemma_with_record(state, handle, lapsed(record));
        lemma_with_record(state, handle, claimed(record, id, owner, clock));
    }
}

/// Handing a claim back keeps the state sound, as long as nothing was noted for
/// its launch.
pub proof fn law_handing_back_keeps_soundness(state: StateModel, claim: ClaimModel)
    requires
        sound(state),
        state.records.contains_key(claim.handle) && claim_waits(
            state.records[claim.handle],
            claim,
        ) ==> {
            let record = state.records[claim.handle];
            record.helper_pid is None && record.helper_cgroup is None
                && record.cleanup_target is None
        },
    ensures
        sound(claim_restored(state, claim)),
{
    if state.records.contains_key(claim.handle) && claim_waits(state.records[claim.handle], claim) {
        let record = state.records[claim.handle];
        assert(sound_record(claim.handle, record));
        lemma_with_record(state, claim.handle, handed_back(record));
    }
}

/// Activating a capture keeps the state sound, once its helper is forgotten.
pub proof fn law_activation_keeps_soundness(
    state: StateModel,
    handle: Seq<char>,
    clock: ClockModel,
    after: StateModel,
)
    requires
        sound(state),
        capture_activated(state, handle, clock) == Ok::<StateModel, Seq<char>>(after),
        state.records[handle].helper_pid is None,
        state.records[handle].cleanup_target is None,
    ensures
        sound(after),
{
    let record = state.records[handle];
    assert(sound_record(handle, record));
    lemma_with_record(
        state,
        handle,
        advanced(RecordModel { status: LifecycleStatus::Active, ..unleased(record) }),
    );
}

/// Noting a helper for a capture keeps the state sound.
pub proof fn law_noting_a_helper_keeps_soundness(
    state: StateModel,
    fence: CaptureFenceModel,
    owner: Seq<char>,
    pid: u32,
    start_ticks: u64,
    boot: Seq<char>,
    kind: Seq<char>,
    cgroup: Seq<char>,
    identity: CgroupIdentity,
)
    requires
        sound(state),
        state.records.contains_key(fence.handle),
        capture_holds(state.records[fence.handle], fence, owner),
        storable_helper(pid, start_ticks, boot),
        storable_cgroup(cgroup, identity),
        !unfit(kind, 128),
    ensures
        sound(
            with_record(
                state,
                fence.handle,
                advanced(
                    helped(
                        state.records[fence.handle],
                        pid,
                        start_ticks,
                        boot,
                        kind,
                        Some(cgroup),
                        Some(identity),
                    ),
                ),
            ),
        ),
{
    let record = state.records[fence.handle];
    assert(sound_record(fence.handle, record));
    assert(pid as i32 == pid);
    lemma_with_record(
        state,
        fence.handle,
        advanced(
            helped(record, pid, start_ticks, boot, kind, Some(cgroup), Some(identity)),
        ),
    );
}

/// Forgetting a helper keeps the state sound, for a record that does not run.
pub proof fn law_forgetting_a_helper_keeps_soundness(
    state: StateModel,
    fence: HelperModel,
    after: StateModel,
)
    requires
        sound(state),
        helper_cleared(state, fence) == Ok::<StateModel, Seq<char>>(after),
        state.records[fence.handle].status != LifecycleStatus::Running,
    ensures
        sound(after),
{
    let record = state.records[fence.handle];
    assert(sound_record(fence.handle, record));
    if helper_holds(record, fence) {
        lemma_with_record(
            state,
            fence.handle,
            advanced(RecordModel { helper_descendants_unknown: false, ..unhelped(record) }),
        );
    }
}

/// Noting the control group of a launch keeps the state sound.
pub proof fn law_reserving_keeps_soundness(
    state: StateModel,
    claim: ClaimModel,
    cgroup: Seq<char>,
    identity: CgroupIdentity,
    owner: Seq<char>,
    clock: ClockModel,
    after: StateModel,
)
    requires
        sound(state),
        launch_fault(state, claim, clock) is None,
        launch_reserved(state, claim, cgroup, identity, owner, clock) == Ok::<
            StateModel,
            Seq<char>,
        >(after),
        storable_cgroup(cgroup, identity),
        storable_clock(clock),
        owner.len() > 0,
        !unfit(owner, 128),
    ensures
        sound(after),
{
    let record = state.records[claim.handle];
    assert(sound_record(claim.handle, record));
    lemma_with_record(state, claim.handle, reserved(record, cgroup, identity));
    assert forall|path: Seq<char>| #[trigger] after.operation_cgroups.contains_key(
        path,
    ) implies !fence_broken(path, after.operation_cgroups[path]) by {
        if path != cgroup {
            assert(state.operation_cgroups.contains_key(path));
        }
    }
}

/// Noting that an operation did not start keeps the state sound.
pub proof fn law_start_failure_keeps_soundness(
    state: StateModel,
    claim: ClaimModel,
    cgroup: Seq<char>,
    cleanup: Option<Seq<char>>,
)
    requires
        sound(state),
        !unfit(start_failure(cleanup), 2048),
    ensures
        sound(launch_not_started(state, claim, cgroup, cleanup)),
{
    let record = state.records[claim.handle];
    let marked = launch_given_up(record, start_failure(cleanup));
    let after = launch_not_started(state, claim, cgroup, cleanup);
    if state.records.contains_key(claim.handle) {
        assert(sound_record(claim.handle, record));
        lemma_with_record(state, claim.handle, marked);
        lemma_with_record(
            state,
            claim.handle,
            RecordModel { helper_cgroup: None, helper_cgroup_identity: None, ..marked },
        );
    }
    assert forall|path: Seq<char>| #[trigger] after.operation_cgroups.contains_key(
        path,
    ) implies !fence_broken(path, after.operation_cgroups[path]) by {
        assert(state.operation_cgroups.contains_key(path));
    }
}

/// Noting that an operation was started and then not recognized keeps the state
/// sound.
pub proof fn law_unrecognized_start_keeps_soundness(
    state: StateModel,
    claim: ClaimModel,
    error: Seq<char>,
)
    requires
        sound(state),
        !unfit(error, 2048),
    ensures
        sound(launch_unrecognized(state, claim, error)),
{
    let record = state.records[claim.handle];
    if state.records.contains_key(claim.handle) {
        assert(sound_record(claim.handle, record));
        lemma_with_record(state, claim.handle, launch_given_up(record, error));
    }
}

/// Noting that an operation runs keeps the state sound.
pub proof fn law_running_keeps_soundness(
    state: StateModel,
    claim: ClaimModel,
    pid: u32,
    start_ticks: u64,
    boot: Seq<char>,
    cgroup: Seq<char>,
    identity: CgroupIdentity,
    mono: u64,
    wall: u64,
)
    requires
        sound(state),
        state.records.contains_key(claim.handle),
        claim_waits(state.records[claim.handle], claim),
        storable_helper(pid, start_ticks, boot),
        storable_cgroup(cgroup, identity),
    ensures
        sound(
            with_record(
                state,
                claim.handle,
                running(
                    state.records[claim.handle],
                    pid,
                    start_ticks,
                    boot,
                    cgroup,
                    identity,
                    Some(mono),
                    wall,
                ),
            ),
        ),
{
    let record = state.records[claim.handle];
    assert(sound_record(claim.handle, record));
    assert(pid as i32 == pid);
    reveal_strlit("allowlisted-operation");
    lemma_plain_text("allowlisted-operation"@);
    lemma_with_record(
        state,
        claim.handle,
        running(record, pid, start_ticks, boot, cgroup, identity, Some(mono), wall),
    );
}

/// The end of a run keeps the state sound, unless a record that is already to be
/// cleaned up could be used again.
pub proof fn law_finishing_keeps_soundness(
    state: StateModel,
    claim: ClaimModel,
    helper: HelperModel,
    uncertain: bool,
    owner: Seq<char>,
    after: StateModel,
    action: Option<ActionModel>,
)
    requires
        sound(state),
        run_finished(state, claim, helper, uncertain, owner) == Ok::<
            (StateModel, Option<ActionModel>),
            Seq<char>,
        >((after, action)),
        run_target(state.records[claim.handle], claim, uncertain) is None
            ==> state.records[claim.handle].cleanup_target is None,
    ensures
        sound(after),
{
    let record = state.records[claim.handle];
    assert(sound_record(claim.handle, record));
    match run_target(record, claim, uncertain) {
        Some(target) => {
            lemma_with_record(state, claim.handle, pending(record, target));
        },
        None => {
            lemma_with_record(
                state,
                claim.handle,
                advanced(
                    RecordModel {
                        status: LifecycleStatus::Active,
                        claim_id: None,
                        ..unhelped(unleased(record))
                    },
                ),
            );
        },
    }
}

/// Recovery keeps the state sound, whichever of its records are looked at.
pub proof fn law_recovery_keeps_soundness(
    state: StateModel,
    readings: Map<Seq<char>, Reading>,
    after: StateModel,
)
    requires
        sound(state),
        after == (StateModel { records: after.records, ..state }),
        after.records.dom() == state.records.dom(),
        forall|key: Seq<char>| #[trigger]
            state.records.contains_key(key) ==> after.records[key] == if readings.contains_key(
                key,
            ) {
                recovered(state.records[key], readings[key])
            } else {
                state.records[key]
            },
    ensures
        sound(after),
{
    reveal_strlit("cleanup scheduled during recovery");
    lemma_plain_text("cleanup scheduled during recovery"@);
    assert forall|key: Seq<char>| #[trigger] after.records.contains_key(key) implies sound_record(
        key,
        after.records[key],
    ) by {
        assert(state.records.contains_key(key));
        assert(sound_record(key, state.records[key]));
    }
}

/// A record that was just made for a capture is sound.
pub proof fn law_new_record_is_sound(
    id: Seq<char>,
    request: CaptureModel,
    plan: CaptureModel,
    owner: Seq<char>,
    clock: ClockModel,
)
    requires
        random_digits(id),
        capture_planned(request) == Ok::<CaptureModel, Seq<char>>(plan),
        !unfit(owner, 128),
        storable_clock(clock),
    ensures
        sound_record(
            handle_named(id),
            provisioned(
                handle_named(id),
                plan.target,
                plan.label,
                plan.ttl_seconds,
                plan.single_use,
                owner,
                clock,
            ),
        ),
{
    let handle = handle_named(id);
    reveal_strlit("sh_");
    reveal_strlit("handoff:");
    assert(handle.len() == 35);
    assert forall|i: int| 0 <= i < handle.len() implies ' ' <= #[trigger] handle[i] && handle[i]
        <= '~' by {
        if i >= 3 {
            assert(handle[i] == id[i - 3]);
            assert(hex_digit(id[i - 3]));
        }
    }
    lemma_plain_text(handle);
    let account = account_of(handle);
    assert forall|i: int| 0 <= i < account.len() implies ' ' <= #[trigger] account[i] && account[i]
        <= '~' by {
        if i >= 8 {
            assert(account[i] == handle[i - 8]);
        }
    }
    lemma_plain_text(account);
    assert(!blank(handle)) by {
        assert(handle[0] == 's');
        assert(!white_char(handle[0]));
    }
    lemma_trimmed_is_fit(request.target);
    lemma_trimmed_is_fit(request.label);
}

/// Making a record for a capture keeps the state sound.
pub proof fn law_capture_keeps_soundness(
    state: StateModel,
    id: Seq<char>,
    request: CaptureModel,
    plan: CaptureModel,
    owner: Seq<char>,
    clock: ClockModel,
)
    requires
        sound(state),
        random_digits(id),
        capture_planned(request) == Ok::<CaptureModel, Seq<char>>(plan),
        !unfit(owner, 128),
        storable_clock(clock),
    ensures
        sound(
            with_record(
                StateModel { records: pruned(state.records), ..state },
                handle_named(id),
                provisioned(
                    handle_named(id),
                    plan.target,
                    plan.label,
                    plan.ttl_seconds,
                    plan.single_use,
                    owner,
                    clock,
                ),
            ),
        ),
{
    let room = StateModel { records: pruned(state.records), ..state };
    law_pruning_keeps_what_is_in_use(state.records);
    assert(room.records.dom().subset_of(state.records.dom())) by {
        assert forall|key: Seq<char>| room.records.dom().contains(
            key,
        ) implies state.records.dom().contains(key) by {
            assert(room.records.contains_key(key));
        }
    }
    vstd::set_lib::lemma_len_subset(room.records.dom(), state.records.dom());
    assert forall|key: Seq<char>| #[trigger] room.records.contains_key(key) implies sound_record(
        key,
        room.records[key],
    ) by {
        assert(state.records.contains_key(key));
    }
    law_new_record_is_sound(id, request, plan, owner, clock);
    lemma_with_record(
        room,
        handle_named(id),
        provisioned(
            handle_named(id),
            plan.target,
            plan.label,
            plan.ttl_seconds,
            plan.single_use,
            owner,
            clock,
        ),
    );
}

/// Taking, replacing and dropping fences keeps them sound and within their number.
pub proof fn law_fences_stay_sound(
    state: StateModel,
    path: Seq<char>,
    expected: Option<CgroupIdentity>,
    identity: CgroupIdentity,
    owner: Seq<char>,
    this_process: Seq<char>,
    clock: ClockModel,
)
    requires
        sound(state),
        state.operation_cgroups.len() <= MAX_OPERATION_CGROUPS,
        storable_cgroup(path, identity),
        storable_clock(clock),
        owner.len() > 0,
        !unfit(owner, 128),
    ensures
        ({
            let fence = fence_for(owner, this_process, identity, clock);
            &&& cgroup_registered(state, path, fence) matches Ok((after, _)) ==> sound(after)
                && after.operation_cgroups.len() <= MAX_OPERATION_CGROUPS
            &&& cgroup_replaced(state, path, expected, identity, fence) matches Ok((after, _))
                ==> sound(after) && after.operation_cgroups.len() <= MAX_OPERATION_CGROUPS
        }),
        sound(cgroup_forgotten(state, path, identity)),
        cgroup_forgotten(state, path, identity).operation_cgroups.len() <= MAX_OPERATION_CGROUPS,
{
    let fence = fence_for(owner, this_process, identity, clock);
    assert(!fence_broken(path, fence));
    let with = fenced(state, path, fence);
    assert forall|p: Seq<char>| #[trigger] with.operation_cgroups.contains_key(
        p,
    ) implies !fence_broken(p, with.operation_cgroups[p]) by {
        if p != path {
            assert(state.operation_cgroups.contains_key(p));
        }
    }
    let without = unfenced(state, path);
    assert forall|p: Seq<char>| #[trigger] without.operation_cgroups.contains_key(
        p,
    ) implies !fence_broken(p, without.operation_cgroups[p]) by {
        assert(state.operation_cgroups.contains_key(p));
    }
    if state.operation_cgroups.contains_key(path) {
        assert(with.operation_cgroups.dom() =~= state.operation_cgroups.dom());
    }
}

// ---------------------------------------------------------------------------
// Revocation
// ---------------------------------------------------------------------------

/// A record that is not used again: it is revoked, waits to be cleaned up, or has
/// ended.
pub open spec fn retired(record: RecordModel) -> bool {
    record.status == LifecycleStatus::Revoked || record.status == LifecycleStatus::CleanupPending
        || terminal(record.status)
}

/// A handle whose record is not used again.
pub open spec fn handle_retired(state: StateModel, handle: Seq<char>) -> bool {
    state.records.contains_key(handle) && retired(state.records[handle])
}

/// Deletion takes effect at once: it succeeds on every known handle, and the
/// handle can then neither be claimed nor launched nor activated.
pub proof fn law_deletion_revokes(
    state: StateModel,
    handle: Seq<char>,
    id: Seq<char>,
    owner: Seq<char>,
    claim: ClaimModel,
    clock: ClockModel,
)
    requires
        state.records.contains_key(handle),
        claim.handle == handle,
    ensures
        handle_deleted(state, handle) is Ok,
        ({
            let after = handle_deleted(state, handle)->Ok_0.0;
            &&& handle_retired(after, handle)
            &&& claim_decided(after, handle, id, owner, clock) == Ok::<
                (StateModel, ClaimDecisionModel),
                Seq<char>,
            >((after, ClaimDecisionModel::Refused))
            &&& launch_fault(after, claim, clock) is Some
            &&& claim_restored(after, claim) == after
            &&& capture_activated(after, handle, clock) is Err
        }),
{
}

/// A deletion can be tried again: what it has written is read back, and a handle
/// whose cleanup is not through can be deleted once more, towards the same end.
pub proof fn law_deletion_can_be_retried(
    state: StateModel,
    handle: Seq<char>,
    after: StateModel,
    action: ActionModel,
    written: StateModel,
)
    requires
        sound(state),
        handle_deleted(state, handle) == Ok::<(StateModel, Option<ActionModel>), Seq<char>>(
            (after, Some(action)),
        ),
        state_written(after) == Ok::<StateModel, Seq<char>>(written),
    ensures
        state_read(Some(written)) == Ok::<StateModel, Seq<char>>(written),
        handle_retired(written, handle),
        handle_deleted(written, handle) is Ok,
        handle_deleted(written, handle)->Ok_0.1 is Some,
        handle_deleted(written, handle)->Ok_0.1->0.target == LifecycleStatus::Deleted,
        handle_deleted(written, handle)->Ok_0.1->0.account == action.account,
{
    law_deletion_keeps_soundness(state, handle, after, Some(action));
    law_written_state_is_read_back(after, written);
    law_pruning_keeps_what_is_in_use(after.records);
    assert(after.records.contains_key(handle));
}

/// What is retired stays retired, whatever is done afterwards.
pub proof fn law_retirement_is_final(
    state: StateModel,
    handle: Seq<char>,
    id: Seq<char>,
    owner: Seq<char>,
    clock: ClockModel,
    claim: ClaimModel,
    helper: HelperModel,
    uncertain: bool,
    action: ActionModel,
    helper_error: Option<Seq<char>>,
    keyring_error: Option<Seq<char>>,
    target: LifecycleStatus,
    error: Seq<char>,
    reading: Reading,
)
    requires
        handle_retired(state, handle),
        claim.handle == handle,
        helper.handle == handle,
        action.handle == handle,
        terminal(action.target),
    ensures
        claim_decided(state, handle, id, owner, clock) matches Ok((after, _)) ==> handle_retired(
            after,
            handle,
        ),
        handle_retired(claim_restored(state, claim), handle),
        capture_activated(state, handle, clock) is Err,
        run_finished(state, claim, helper, uncertain, owner) matches Ok((after, _))
            ==> handle_retired(after, handle),
        cleanup_finalized(state, action, helper_error, keyring_error, clock.wall) matches Ok(after)
            ==> handle_retired(after, handle),
        handle_given_up(state, handle, target, error) matches Ok((after, _)) ==> handle_retired(
            after,
            handle,
        ),
        handle_deleted(state, handle) matches Ok((after, _)) ==> handle_retired(after, handle),
        helper_cleared(state, helper) matches Ok(after) ==> handle_retired(after, handle),
        retired(recovered(state.records[handle], reading)),
{
}

/// A run that ends after its handle was deleted does not bring the handle back:
/// it is cleaned up towards deletion.
pub proof fn law_deletion_survives_a_run(
    state: StateModel,
    claim: ClaimModel,
    helper: HelperModel,
    uncertain: bool,
    owner: Seq<char>,
)
    requires
        state.records.contains_key(claim.handle),
        state.records[claim.handle].status == LifecycleStatus::Running,
    ensures
        ({
            let deleted = handle_deleted(state, claim.handle)->Ok_0.0;
            &&& run_finished(deleted, claim, helper, uncertain, owner) is Ok
            &&& {
                let (after, action) = run_finished(
                    deleted,
                    claim,
                    helper,
                    uncertain,
                    owner,
                )->Ok_0;
                &&& after.records[claim.handle].status == LifecycleStatus::CleanupPending
                &&& after.records[claim.handle].cleanup_target == Some(LifecycleStatus::Deleted)
                &&& action is Some
                &&& action->0.target == LifecycleStatus::Deleted
            }
        }),
{
}

// ---------------------------------------------------------------------------
// Claims and runs
// ---------------------------------------------------------------------------

/// A handle that was claimed cannot be claimed again, and the claim can be
/// launched as long as nobody touches the record.
pub proof fn law_claims_are_exclusive(
    state: StateModel,
    handle: Seq<char>,
    id: Seq<char>,
    owner: Seq<char>,
    clock: ClockModel,
    after: StateModel,
    claim: ClaimModel,
    other_id: Seq<char>,
    other_owner: Seq<char>,
    later: ClockModel,
)
    requires
        claim_decided(state, handle, id, owner, clock) == Ok::<
            (StateModel, ClaimDecisionModel),
            Seq<char>,
        >((after, ClaimDecisionModel::Granted(claim))),
    ensures
        claim_decided(after, handle, other_id, other_owner, later) == Ok::<
            (StateModel, ClaimDecisionModel),
            Seq<char>,
        >((after, ClaimDecisionModel::Refused)),
        paired(later).1 is Some ==> launch_fault(after, claim, later) is None,
        !expired(state.records[handle], clock),
{
}

/// A handle whose time is up is never granted: it is closed in the same step in
/// which it was asked for.
pub proof fn law_expiry_closes_at_claim(
    state: StateModel,
    handle: Seq<char>,
    id: Seq<char>,
    owner: Seq<char>,
    clock: ClockModel,
)
    requires
        state.records.contains_key(handle),
        state.records[handle].status == LifecycleStatus::Active,
        expired(state.records[handle], clock),
    ensures
        claim_decided(state, handle, id, owner, clock) is Ok,
        claim_decided(state, handle, id, owner, clock)->Ok_0.1 is Expired,
        handle_retired(claim_decided(state, handle, id, owner, clock)->Ok_0.0, handle),
        claim_decided(state, handle, id, owner, clock)->Ok_0.0.records[handle].cleanup_target
            == Some(LifecycleStatus::Expired),
{
}

/// A claim that is handed back unused leaves a handle that held no claim and no
/// lease as it was, but for its generation.
pub proof fn law_unused_claims_leave_no_trace(
    state: StateModel,
    handle: Seq<char>,
    id: Seq<char>,
    owner: Seq<char>,
    clock: ClockModel,
    after: StateModel,
    claim: ClaimModel,
)
    requires
        claim_decided(state, handle, id, owner, clock) == Ok::<
            (StateModel, ClaimDecisionModel),
            Seq<char>,
        >((after, ClaimDecisionModel::Granted(claim))),
        state.records[handle].claim_id is None,
        unleased(state.records[handle]) == state.records[handle],
    ensures
        ({
            let back = claim_restored(after, claim);
            &&& back == with_record(
                state,
                handle,
                RecordModel {
                    generation: back.records[handle].generation,
                    ..state.records[handle]
                },
            )
        }),
{
    let back = claim_restored(after, claim);
    assert(back.records =~= with_record(
        state,
        handle,
        RecordModel { generation: back.records[handle].generation, ..state.records[handle] },
    ).records);
}

/// A run whose outcome is uncertain costs the handle, also one that could have
/// been used again; a handle for a single use is consumed by a run that is known
/// to have ended; and only a reusable handle whose run is known to have ended
/// may be used again.
pub proof fn law_runs_use_handles_up(
    state: StateModel,
    claim: ClaimModel,
    helper: HelperModel,
    uncertain: bool,
    owner: Seq<char>,
    after: StateModel,
    action: Option<ActionModel>,
)
    requires
        run_finished(state, claim, helper, uncertain, owner) == Ok::<
            (StateModel, Option<ActionModel>),
            Seq<char>,
        >((after, action)),
    ensures
        uncertain ==> after.records[claim.handle].status == LifecycleStatus::CleanupPending
            && after.records[claim.handle].cleanup_target == Some(LifecycleStatus::Deleted),
        !uncertain && claim.single_use && state.records[claim.handle].status
            != LifecycleStatus::Revoked ==> after.records[claim.handle].cleanup_target == Some(
            LifecycleStatus::Consumed,
        ),
        after.records[claim.handle].status == LifecycleStatus::Active <==> action is None,
        action is None ==> !uncertain && !claim.single_use,
{
}

/// A handle for a single use is run with once: whatever its run comes to, the
/// handle cannot be claimed again afterwards.
pub proof fn law_single_use_handles_run_once(
    state: StateModel,
    handle: Seq<char>,
    id: Seq<char>,
    owner: Seq<char>,
    clock: ClockModel,
    granted: StateModel,
    claim: ClaimModel,
    running: StateModel,
    helper: HelperModel,
    uncertain: bool,
    after: StateModel,
    action: Option<ActionModel>,
    other_id: Seq<char>,
    other_owner: Seq<char>,
    later: ClockModel,
)
    requires
        state.records[handle].single_use,
        claim_decided(state, handle, id, owner, clock) == Ok::<
            (StateModel, ClaimDecisionModel),
            Seq<char>,
        >((granted, ClaimDecisionModel::Granted(claim))),
        run_finished(running, claim, helper, uncertain, owner) == Ok::<
            (StateModel, Option<ActionModel>),
            Seq<char>,
        >((after, action)),
    ensures
        handle_retired(after, handle),
        action is Some,
        claim_decided(after, handle, other_id, other_owner, later) == Ok::<
            (StateModel, ClaimDecisionModel),
            Seq<char>,
        >((after, ClaimDecisionModel::Refused)),
{
}

/// Between the check of a launch and the note that its operation runs, the record
/// stays: what is written of the noted control group still holds it.
pub proof fn law_launch_keeps_its_record(
    state: StateModel,
    claim: ClaimModel,
    cgroup: Seq<char>,
    identity: CgroupIdentity,
    owner: Seq<char>,
    clock: ClockModel,
    noted: StateModel,
    written: StateModel,
)
    requires
        state.records.dom().finite(),
        launch_fault(state, claim, clock) is None,
        launch_reserved(state, claim, cgroup, identity, owner, clock) == Ok::<
            StateModel,
            Seq<char>,
        >(noted),
        state_written(noted) == Ok::<StateModel, Seq<char>>(written),
    ensures
        written.records.contains_key(claim.handle),
        written.records[claim.handle] == reserved(state.records[claim.handle], cgroup, identity),
        claim_waits(written.records[claim.handle], claim),
{
    law_pruning_keeps_what_is_in_use(noted.records);
    assert(noted.records.contains_key(claim.handle));
}

/// A run that timed out, was cancelled, or left something behind costs the
/// handle, however often the handle could have been used.
pub proof fn law_doubtful_runs_are_not_repeated(
    state: StateModel,
    claim: ClaimModel,
    helper: HelperModel,
    failed: bool,
    cancelled: bool,
    helper_error: Option<Seq<char>>,
    forget_error: Option<Seq<char>>,
    owner: Seq<char>,
    after: StateModel,
    action: Option<ActionModel>,
)
    requires
        failed || cancelled || helper_error is Some || forget_error is Some,
        run_finished(
            state,
            claim,
            helper,
            outcome_uncertain(failed, cancelled, helper_error, forget_error),
            owner,
        ) == Ok::<(StateModel, Option<ActionModel>), Seq<char>>((after, action)),
    ensures
        handle_retired(after, claim.handle),
        after.records[claim.handle].cleanup_target == Some(LifecycleStatus::Deleted),
        action is Some && action->0.target == LifecycleStatus::Deleted,
{
}

// ---------------------------------------------------------------------------
// Cleanup
// ---------------------------------------------------------------------------

/// A cleanup is final only when the helper and the keyring entry are both gone:
/// a part that failed is tried again, and a part that succeeded is not.
pub proof fn law_cleanup_needs_both_parts(
    record: RecordModel,
    target: LifecycleStatus,
    helper: Option<Seq<char>>,
    keyring: Option<Seq<char>>,
    now: u64,
)
    requires
        terminal(target),
        !terminal(record.status),
    ensures
        ({
            let after = cleaned(record, target, helper, keyring, now);
            &&& terminal(after.status) ==> after.status == target && (helper is None
                || helper_gone(record)) && (keyring is None || record.cleanup_keyring_done)
            &&& helper is None && keyring is None ==> after.status == target
            &&& !terminal(after.status) ==> after.status == record.status && after.cleanup_target
                == record.cleanup_target && after.last_error is Some
            &&& !terminal(after.status) && keyring is None ==> after.cleanup_keyring_done
            &&& !terminal(after.status) && helper is None ==> helper_gone(after)
            &&& !terminal(after.status) && record.cleanup_keyring_done
                ==> after.cleanup_keyring_done
        }),
{
}

/// A record that was consumed tells when.
pub proof fn law_consumption_is_dated(
    record: RecordModel,
    helper: Option<Seq<char>>,
    keyring: Option<Seq<char>>,
    now: u64,
)
    requires
        !terminal(record.status),
    ensures
        cleaned(record, LifecycleStatus::Consumed, helper, keyring, now).status
            == LifecycleStatus::Consumed ==> cleaned(
            record,
            LifecycleStatus::Consumed,
            helper,
            keyring,
            now,
        ).consumed_at == Some(now),
{
}

// ---------------------------------------------------------------------------
// Fencing
// ---------------------------------------------------------------------------

/// Whoever knows a record by an earlier generation has lost it once it was
/// touched, up to the largest generation that can be held.
pub proof fn law_touched_records_are_fenced(
    record: RecordModel,
    capture: CaptureFenceModel,
    owner: Seq<char>,
    helper: HelperModel,
    claim: ClaimModel,
    action: ActionModel,
)
    requires
        record.generation < u64::MAX,
        capture.generation == record.generation,
        helper.generation == record.generation,
        action.generation == record.generation,
    ensures
        advanced(record).generation > record.generation,
        !capture_holds(advanced(record), capture, owner),
        !helper_holds(advanced(record), helper),
        !run_holds(advanced(record), claim, helper, owner),
        !cleanup_holds(advanced(record), action),
{
}

/// No transition brings an earlier generation back.
pub proof fn law_generations_never_decrease(
    record: RecordModel,
    id: Seq<char>,
    owner: Seq<char>,
    clock: ClockModel,
    target: LifecycleStatus,
    error: Seq<char>,
    helper: Option<Seq<char>>,
    keyring: Option<Seq<char>>,
    cgroup: Seq<char>,
    identity: CgroupIdentity,
    reading: Reading,
)
    ensures
        advanced(record).generation >= record.generation,
        claimed(record, id, owner, clock).generation >= record.generation,
        lapsed(record).generation >= record.generation,
        handed_back(record).generation >= record.generation,
        revoked(record).generation >= record.generation,
        given_up(record, target, error).generation >= record.generation,
        cleaned(record, target, helper, keyring, clock.wall).generation >= record.generation,
        reserved(record, cgroup, identity).generation >= record.generation,
        pending(record, target).generation == record.generation,
        recovered(record, reading).generation >= record.generation,
        quarantined(record).generation >= record.generation,
        upgraded(record).generation >= record.generation,
{
}

} // verus!
