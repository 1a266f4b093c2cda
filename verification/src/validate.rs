//! Which stored states are taken, and which are refused and why.
use vstd::prelude::*;
use vstd::string::*;
use vstd::utf8::*;

use crate::paths::{downward, has_step_back, is_absolute, steps_back};
use crate::record::{
    optional_text, terminal, CgroupIdentity, FenceModel, LifecycleStatus, OperationCgroupFence,
    RecordModel, SecretRecord,
};
use crate::state::{
    empty_state, identified, law_migration_is_idempotent, law_pruning_is_idempotent,
    law_pruning_keeps_what_is_in_use, migrate_legacy_state, migrated, migrated_records,
    prune_terminal_records, pruned, quarantined, State, StateModel, CURRENT_STATE_SCHEMA_VERSION,
    MAX_OPERATION_CGROUPS, MAX_RECORDS, MAX_STATE_BYTES,
};
use crate::text::{
    blank, byte_count, byte_len, control_char, has_control, holds_control, is_blank,
    lemma_text_order_is_strict, lemma_text_order_is_total, same_text, text_before, verdict,
    white_char,
};
use crate::textmap::TextMap;

verus! {

/// The account under which the keyring holds the secret of a handle.
pub open spec fn account_of(handle: Seq<char>) -> Seq<char> {
    "handoff:"@ + handle
}

/// A text that is longer than it may be, or that holds a control code.
pub open spec fn unfit(text: Seq<char>, limit: nat) -> bool {
    byte_count(text) > limit || holds_control(text)
}

/// An optional text that is there and unfit.
pub open spec fn optional_unfit(text: Option<Seq<char>>, limit: nat) -> bool {
    text matches Some(t) && unfit(t, limit)
}

/// A path that cannot be that of a control group.
pub open spec fn unfit_path(path: Seq<char>) -> bool {
    unfit(path, 512) || !downward(path)
}

/// An identity that no file has.
pub open spec fn null_identity(identity: CgroupIdentity) -> bool {
    identity.dev == 0 || identity.ino == 0
}

/// A fence that cannot have been written for a control group.
pub open spec fn fence_broken(path: Seq<char>, fence: FenceModel) -> bool {
    ||| unfit_path(path)
    ||| fence.owner.len() == 0
    ||| unfit(fence.owner, 128)
    ||| fence.identity is None
    ||| (fence.identity matches Some(identity) && null_identity(identity))
    ||| (fence.boot_id matches Some(boot) && boot.len() == 0)
    ||| optional_unfit(fence.boot_id, 128)
    ||| fence.expires_mono is Some != fence.boot_id is Some
}

/// A record some of whose texts cannot have been written, or that is held under
/// another handle or account than its own.
pub open spec fn beyond_limits(key: Seq<char>, record: RecordModel) -> bool {
    ||| unfit(record.handle, 160)
    ||| unfit(record.target, 160)
    ||| unfit(record.label, 160)
    ||| byte_count(record.keyring_account) > 256
    ||| optional_unfit(record.claim_id, 128)
    ||| optional_unfit(record.lease_owner, 128)
    ||| optional_unfit(record.lease_boot_id, 128)
    ||| optional_unfit(record.expires_boot_id, 128)
    ||| optional_unfit(record.helper_boot_id, 128)
    ||| optional_unfit(record.helper_kind, 128)
    ||| optional_unfit(record.last_error, 2048)
    ||| (record.helper_cgroup matches Some(path) && unfit_path(path))
    ||| (record.helper_cgroup_identity matches Some(identity) && null_identity(identity))
    ||| key != record.handle
    ||| record.keyring_account != account_of(record.handle)
    ||| blank(record.handle)
    ||| blank(record.target)
    ||| blank(record.label)
}

/// A record whose leases, deadlines or helper are told in part only, or that has
/// a helper that its status does not allow.
pub open spec fn fence_incomplete(record: RecordModel) -> bool {
    ||| record.lease_owner is Some != record.lease_expires_at is Some
    ||| record.lease_expires_mono is Some != record.lease_boot_id is Some
    ||| record.expires_mono is Some != record.expires_boot_id is Some
    ||| record.helper_pid is Some != record.helper_pgid is Some
    ||| record.helper_pid is Some != record.helper_start_ticks is Some
    ||| record.helper_pid is Some != record.helper_boot_id is Some
    ||| record.helper_pid is Some != record.helper_kind is Some
    ||| (record.helper_cgroup is Some != record.helper_cgroup_identity is Some
        && !record.helper_descendants_unknown)
    ||| (record.helper_cgroup is Some && record.helper_pid is None && record.status
        != LifecycleStatus::Claimed && record.status != LifecycleStatus::CleanupPending)
    ||| (record.helper_descendants_unknown && record.status != LifecycleStatus::CleanupPending
        && record.status != LifecycleStatus::Revoked)
}

/// A helper that no process can be: helpers lead a process group of their own.
pub open spec fn helper_impossible(record: RecordModel) -> bool {
    match (record.helper_pid, record.helper_pgid, record.helper_start_ticks) {
        (Some(pid), Some(pgid), Some(ticks)) => pid == 0 || pgid <= 1 || pgid != pid || ticks == 0,
        _ => false,
    }
}

/// What a record may not hold in its status.
pub open spec fn lifecycle_fault(record: RecordModel) -> Option<Seq<char>> {
    match record.status {
        LifecycleStatus::Provisioning => if record.claim_id is Some || record.lease_owner is None {
            Some("provisioning record lifecycle is invalid"@)
        } else {
            None
        },
        LifecycleStatus::Active => if record.claim_id is Some || record.lease_owner is Some
            || record.helper_pid is Some || record.cleanup_target is Some {
            Some("active record lifecycle is invalid"@)
        } else {
            None
        },
        LifecycleStatus::Claimed => if record.claim_id is None || record.lease_owner is None {
            Some("claimed record lifecycle is invalid"@)
        } else {
            None
        },
        LifecycleStatus::Running => if record.claim_id is None || record.lease_owner is None
            || record.helper_pid is None {
            Some("running record lifecycle is invalid"@)
        } else {
            None
        },
        LifecycleStatus::CleanupPending | LifecycleStatus::Revoked => None,
        LifecycleStatus::Consumed | LifecycleStatus::Deleted | LifecycleStatus::Expired => if record.claim_id is Some
            || record.lease_owner is Some || record.helper_pid is Some || record.cleanup_target is Some
            || record.cleanup_keyring_done || record.helper_descendants_unknown {
            Some("terminal record lifecycle is invalid"@)
        } else {
            None
        },
    }
}

/// What is wrong with a record that is held under a key.
pub open spec fn record_fault(key: Seq<char>, record: RecordModel) -> Option<Seq<char>> {
    if beyond_limits(key, record) {
        Some("state record exceeds the configured limit"@)
    } else if fence_incomplete(record) {
        Some("state record lifecycle fence is invalid"@)
    } else if helper_impossible(record) {
        Some("state record helper identity is invalid"@)
    } else if record.cleanup_target matches Some(target) && !terminal(target) {
        Some("state record cleanup target is invalid"@)
    } else {
        lifecycle_fault(record)
    }
}

/// A record with a fault, and no record with a fault stands before it.
pub open spec fn first_faulty(records: Map<Seq<char>, RecordModel>, key: Seq<char>) -> bool {
    &&& records.contains_key(key)
    &&& record_fault(key, records[key]) is Some
    &&& forall|other: Seq<char>| #[trigger]
        records.contains_key(other) && record_fault(other, records[other]) is Some && other != key
            ==> text_before(key, other)
}

/// The fault of the first record that has one.
pub open spec fn records_fault(records: Map<Seq<char>, RecordModel>) -> Option<Seq<char>> {
    if exists|key: Seq<char>| first_faulty(records, key) {
        let key = choose|key: Seq<char>| first_faulty(records, key);
        record_fault(key, records[key])
    } else {
        None
    }
}

/// A pending cleanup that leads nowhere.
pub open spec fn aimless(record: RecordModel) -> bool {
    record.status == LifecycleStatus::CleanupPending && record.cleanup_target is None
}

/// What is wrong with a state of the current version.
pub open spec fn current_fault(state: StateModel) -> Option<Seq<char>> {
    if state.recovery_mode && state.records.len() <= MAX_RECORDS {
        Some("state recovery mode is invalid below the record capacity"@)
    } else if state.records.len() > MAX_RECORDS && !state.recovery_mode {
        Some("state record capacity has been reached"@)
    } else if state.operation_cgroups.len() > MAX_OPERATION_CGROUPS {
        Some("state operation cgroup capacity has been reached"@)
    } else if exists|path: Seq<char>| #[trigger]
        state.operation_cgroups.contains_key(path) && fence_broken(
            path,
            state.operation_cgroups[path],
        ) {
        Some("state operation cgroup fence is invalid"@)
    } else if records_fault(state.records) is Some {
        records_fault(state.records)
    } else if exists|key: Seq<char>| #[trigger]
        state.records.contains_key(key) && aimless(state.records[key]) {
        Some("cleanup-pending record has no target"@)
    } else {
        None
    }
}

/// What is wrong with a stored state.
pub open spec fn stored_fault(state: StateModel) -> Option<Seq<char>> {
    if state.schema_version > CURRENT_STATE_SCHEMA_VERSION {
        Some("state file uses a newer unsupported schema version"@)
    } else {
        current_fault(migrated(state))
    }
}

/// What is read of what is stored: a state that holds nothing where there is no
/// state file.
pub open spec fn state_read(stored: Option<StateModel>) -> Result<StateModel, Seq<char>> {
    match stored {
        None => Ok(migrated(empty_state())),
        Some(state) => match stored_fault(state) {
            Some(fault) => Err(fault),
            None => Ok(migrated(state)),
        },
    }
}

/// The account under which the keyring holds the secret of a handle.
pub fn keyring_account(handle: &str) -> (account: String)
    ensures
        account@ == account_of(handle@),
{
    let mut account = "handoff:".to_owned();
    account.append(handle);
    account
}

fn is_unfit(text: &str, limit: usize) -> (r: bool)
    ensures
        r == unfit(text@, limit as nat),
{
    byte_len(text) > limit || has_control(text)
}

fn is_optional_unfit(text: &Option<String>, limit: usize) -> (r: bool)
    ensures
        r == optional_unfit(optional_text(*text), limit as nat),
{
    match text {
        Some(t) => is_unfit(t.as_str(), limit),
        None => false,
    }
}

fn is_unfit_path(path: &str) -> (r: bool)
    ensures
        r == unfit_path(path@),
{
    is_unfit(path, 512) || !is_absolute(path) || has_step_back(path)
}

fn is_null_identity(identity: Option<CgroupIdentity>) -> (r: bool)
    ensures
        r == (identity matches Some(i) && null_identity(i)),
{
    match identity {
        Some(i) => i.dev == 0 || i.ino == 0,
        None => false,
    }
}

fn is_fence_broken(path: &str, fence: &OperationCgroupFence) -> (r: bool)
    ensures
        r == fence_broken(path@, fence@),
{
    if is_unfit_path(path) || fence.owner.as_str().unicode_len() == 0 || is_unfit(
        fence.owner.as_str(),
        128,
    ) || fence.identity.is_none() || is_null_identity(fence.identity) || is_optional_unfit(
        &fence.boot_id,
        128,
    ) || fence.expires_mono.is_some() != fence.boot_id.is_some() {
        return true;
    }
    match &fence.boot_id {
        Some(boot) => boot.as_str().unicode_len() == 0,
        None => false,
    }
}

fn is_account_of(account: &str, handle: &str) -> (r: bool)
    ensures
        r == (account@ == account_of(handle@)),
{
    let expected = keyring_account(handle);
    same_text(account, expected.as_str())
}

fn is_beyond_limits(key: &str, record: &SecretRecord) -> (r: bool)
    ensures
        r == beyond_limits(key@, record@),
{
    if is_unfit(record.handle.as_str(), 160) || is_unfit(record.target.as_str(), 160) || is_unfit(
        record.label.as_str(),
        160,
    ) || byte_len(record.keyring_account.as_str()) > 256 {
        return true;
    }
    if is_optional_unfit(&record.claim_id, 128) || is_optional_unfit(&record.lease_owner, 128)
        || is_optional_unfit(&record.lease_boot_id, 128) || is_optional_unfit(
        &record.expires_boot_id,
        128,
    ) || is_optional_unfit(&record.helper_boot_id, 128) || is_optional_unfit(
        &record.helper_kind,
        128,
    ) || is_optional_unfit(&record.last_error, 2048) {
        return true;
    }
    let path_unfit = match &record.helper_cgroup {
        Some(path) => is_unfit_path(path.as_str()),
        None => false,
    };
    path_unfit || is_null_identity(record.helper_cgroup_identity) || !same_text(
        key,
        record.handle.as_str(),
    ) || !is_account_of(record.keyring_account.as_str(), record.handle.as_str()) || is_blank(
        record.handle.as_str(),
    ) || is_blank(record.target.as_str()) || is_blank(record.label.as_str())
}

fn is_fence_incomplete(record: &SecretRecord) -> (r: bool)
    ensures
        r == fence_incomplete(record@),
{
    let helped = record.helper_pid.is_some();
    record.lease_owner.is_some() != record.lease_expires_at.is_some()
        || record.lease_expires_mono.is_some() != record.lease_boot_id.is_some()
        || record.expires_mono.is_some() != record.expires_boot_id.is_some() || helped
        != record.helper_pgid.is_some() || helped != record.helper_start_ticks.is_some() || helped
        != record.helper_boot_id.is_some() || helped != record.helper_kind.is_some() || (
    record.helper_cgroup.is_some() != record.helper_cgroup_identity.is_some()
        && !record.helper_descendants_unknown) || (record.helper_cgroup.is_some() && !helped
        && !matches!(
        record.status,
        LifecycleStatus::Claimed | LifecycleStatus::CleanupPending
    )) || (record.helper_descendants_unknown && !matches!(
        record.status,
        LifecycleStatus::CleanupPending | LifecycleStatus::Revoked
    ))
}

fn is_helper_impossible(record: &SecretRecord) -> (r: bool)
    ensures
        r == helper_impossible(record@),
{
    match (record.helper_pid, record.helper_pgid, record.helper_start_ticks) {
        (Some(pid), Some(pgid), Some(ticks)) => pid == 0 || pgid <= 1 || pgid as i64 != pid as i64
            || ticks == 0,
        _ => false,
    }
}

fn check_lifecycle(record: &SecretRecord) -> (result: Result<(), String>)
    ensures
        verdict(result, lifecycle_fault(record@)),
{
    let claimed = record.claim_id.is_some();
    let leased = record.lease_owner.is_some();
    let helped = record.helper_pid.is_some();
    let aimed = record.cleanup_target.is_some();
    match record.status {
        LifecycleStatus::Provisioning => {
            if claimed || !leased {
                return Err("provisioning record lifecycle is invalid".to_owned());
            }
        },
        LifecycleStatus::Active => {
            if claimed || leased || helped || aimed {
                return Err("active record lifecycle is invalid".to_owned());
            }
        },
        LifecycleStatus::Claimed => {
            if !claimed || !leased {
                return Err("claimed record lifecycle is invalid".to_owned());
            }
        },
        LifecycleStatus::Running => {
            if !claimed || !leased || !helped {
                return Err("running record lifecycle is invalid".to_owned());
            }
        },
        LifecycleStatus::CleanupPending | LifecycleStatus::Revoked => {},
        LifecycleStatus::Consumed | LifecycleStatus::Deleted | LifecycleStatus::Expired => {
            if claimed || leased || helped || aimed || record.cleanup_keyring_done
                || record.helper_descendants_unknown {
                return Err("terminal record lifecycle is invalid".to_owned());
            }
        },
    }
    Ok(())
}

/// Whether a record may be held under a key.
pub fn check_record(key: &str, record: &SecretRecord) -> (result: Result<(), String>)
    ensures
        verdict(result, record_fault(key@, record@)),
{
    if is_beyond_limits(key, record) {
        return Err("state record exceeds the configured limit".to_owned());
    }
    if is_fence_incomplete(record) {
        return Err("state record lifecycle fence is invalid".to_owned());
    }
    if is_helper_impossible(record) {
        return Err("state record helper identity is invalid".to_owned());
    }
    match record.cleanup_target {
        Some(target) => {
            if !target.is_terminal() {
                return Err("state record cleanup target is invalid".to_owned());
            }
        },
        None => {},
    }
    check_lifecycle(record)
}

fn check_fences(fences: &TextMap<OperationCgroupFence>) -> (result: Result<(), String>)
    requires
        fences.wf(),
    ensures
        verdict(
            result,
            if exists|path: Seq<char>| #[trigger]
                fences@.contains_key(path) && fence_broken(path, fences@[path]) {
                Some("state operation cgroup fence is invalid"@)
            } else {
                None
            },
        ),
{
    let n: usize = fences.len();
    for i in 0..n
        invariant
            fences.wf(),
            n == fences.keys().len(),
            forall|j: int|
                0 <= j < i ==> !fence_broken(
                    #[trigger] fences.keys()[j],
                    fences@[fences.keys()[j]],
                ),
    {
        let path = fences.key_at(i);
        if is_fence_broken(path.as_str(), fences.value_at(i)) {
            assert(fences@.contains_key(path@));
            return Err("state operation cgroup fence is invalid".to_owned());
        }
    }
    proof {
        fences.lemma_keys();
        assert forall|path: Seq<char>| #[trigger] fences@.contains_key(path) implies !fence_broken(
            path,
            fences@[path],
        ) by {
            let j = fences.keys().index_of(path);
            assert(fences.keys()[j] == path);
        }
    }
    Ok(())
}

fn check_records(records: &TextMap<SecretRecord>) -> (result: Result<(), String>)
    requires
        records.wf(),
    ensures
        verdict(result, records_fault(records@)),
{
    let n: usize = records.len();
    for i in 0..n
        invariant
            records.wf(),
            n == records.keys().len(),
            forall|j: int|
                0 <= j < i ==> record_fault(
                    #[trigger] records.keys()[j],
                    records@[records.keys()[j]],
                ) is None,
    {
        let key = records.key_at(i);
        let result = check_record(key.as_str(), records.value_at(i));
        if result.is_err() {
            proof {
                records.lemma_keys();
                assert forall|other: Seq<char>| #[trigger]
                    records@.contains_key(other) && record_fault(other, records@[other]) is Some
                        && other != key@ implies text_before(key@, other) by {
                    let j = records.keys().index_of(other);
                    assert(records.keys()[j] == other);
                }
                assert(first_faulty(records@, key@));
                let chosen = choose|k: Seq<char>| first_faulty(records@, k);
                if chosen != key@ {
                    lemma_text_order_is_strict(key@, chosen, key@);
                    lemma_text_order_is_strict(key@, key@, key@);
                }
            }
            return result;
        }
    }
    proof {
        records.lemma_keys();
        assert forall|key: Seq<char>| #[trigger] records@.contains_key(key) implies record_fault(
            key,
            records@[key],
        ) is None by {
            let j = records.keys().index_of(key);
            assert(records.keys()[j] == key);
        }
    }
    Ok(())
}

fn has_aimless(records: &TextMap<SecretRecord>) -> (r: bool)
    requires
        records.wf(),
    ensures
        r == exists|key: Seq<char>| #[trigger] records@.contains_key(key) && aimless(records@[key]),
{
    let n: usize = records.len();
    for i in 0..n
        invariant
            records.wf(),
            n == records.keys().len(),
            forall|j: int| 0 <= j < i ==> !aimless(records@[#[trigger] records.keys()[j]]),
    {
        let record = records.value_at(i);
        if matches!(record.status, LifecycleStatus::CleanupPending)
            && record.cleanup_target.is_none() {
            let key = records.key_at(i);
            assert(records@.contains_key(key@));
            return true;
        }
    }
    proof {
        records.lemma_keys();
        assert forall|key: Seq<char>| #[trigger] records@.contains_key(key) implies !aimless(
            records@[key],
        ) by {
            let j = records.keys().index_of(key);
            assert(records.keys()[j] == key);
        }
    }
    false
}

/// Whether a state of the current version may be used.
pub fn check_state(state: &State) -> (result: Result<(), String>)
    requires
        state.wf(),
    ensures
        verdict(result, current_fault(state@)),
{
    if state.recovery_mode && state.records.len() <= MAX_RECORDS {
        return Err("state recovery mode is invalid below the record capacity".to_owned());
    }
    if state.records.len() > MAX_RECORDS && !state.recovery_mode {
        return Err("state record capacity has been reached".to_owned());
    }
    if state.operation_cgroups.len() > MAX_OPERATION_CGROUPS {
        return Err("state operation cgroup capacity has been reached".to_owned());
    }
    let fences = check_fences(&state.operation_cgroups);
    if fences.is_err() {
        return fences;
    }
    let records = check_records(&state.records);
    if records.is_err() {
        return records;
    }
    if has_aimless(&state.records) {
        return Err("cleanup-pending record has no target".to_owned());
    }
    Ok(())
}

/// The state that is read of what is stored.
pub fn read_state(stored: Option<State>) -> (result: Result<State, String>)
    requires
        stored matches Some(s) ==> s.wf(),
    ensures
        match result {
            Ok(state) => state.wf() && state_read(
                match stored {
                    Some(s) => Some(s@),
                    None => None,
                },
            ) == Ok::<StateModel, Seq<char>>(state@),
            Err(e) => state_read(
                match stored {
                    Some(s) => Some(s@),
                    None => None,
                },
            ) == Err::<StateModel, Seq<char>>(e@),
        },
{
    match stored {
        None => {
            let mut state = State::default();
            migrate_legacy_state(&mut state);
            Ok(state)
        },
        Some(found) => {
            let mut state = found;
            if state.schema_version > CURRENT_STATE_SCHEMA_VERSION {
                return Err("state file uses a newer unsupported schema version".to_owned());
            }
            migrate_legacy_state(&mut state);
            match check_state(&state) {
                Ok(_) => Ok(state),
                Err(e) => Err(e),
            }
        },
    }
}

/// Whether a state file of this size is read.
pub fn check_state_size(size: u64) -> (result: Result<(), String>)
    ensures
        verdict(
            result,
            if size > MAX_STATE_BYTES {
                Some("state file exceeds the configured limit"@)
            } else {
                None
            },
        ),
{
    if size > MAX_STATE_BYTES {
        return Err("state file exceeds the configured limit".to_owned());
    }
    Ok(())
}

/// A state with as many records dropped as may be, and without the recovery mode
/// that it has outgrown.
pub open spec fn prepared(state: StateModel) -> StateModel {
    StateModel {
        records: pruned(state.records),
        recovery_mode: state.recovery_mode && pruned(state.records).len() > MAX_RECORDS,
        ..state
    }
}

/// What is written of a state, or why nothing is.
pub open spec fn state_written(state: StateModel) -> Result<StateModel, Seq<char>> {
    let ready = prepared(state);
    if ready.records.len() > MAX_RECORDS && !ready.recovery_mode {
        Err("state record capacity has been reached"@)
    } else if ready.operation_cgroups.len() > MAX_OPERATION_CGROUPS {
        Err("state operation cgroup capacity has been reached"@)
    } else {
        Ok(ready)
    }
}

/// Makes a state ready to be written.
pub fn prepare_state_commit(state: &mut State) -> (result: Result<(), String>)
    requires
        old(state).wf(),
    ensures
        final(state).wf(),
        final(state)@ == prepared(old(state)@),
        match result {
            Ok(_) => state_written(old(state)@) == Ok::<StateModel, Seq<char>>(final(state)@),
            Err(e) => state_written(old(state)@) == Err::<StateModel, Seq<char>>(e@),
        },
{
    prune_terminal_records(state);
    if state.records.len() > MAX_RECORDS {
        if !state.recovery_mode {
            return Err("state record capacity has been reached".to_owned());
        }
    } else {
        state.recovery_mode = false;
    }
    if state.operation_cgroups.len() > MAX_OPERATION_CGROUPS {
        return Err("state operation cgroup capacity has been reached".to_owned());
    }
    Ok(())
}

/// Ends a change of the state: nothing is kept of a change that failed, and any
/// other is made ready to be written.
pub fn commit_change<R>(state: &mut State, outcome: Result<R, String>) -> (result: Result<R, String>)
    requires
        old(state).wf(),
    ensures
        final(state).wf(),
        match outcome {
            Err(e) => result == Err::<R, String>(e) && final(state)@ == old(state)@,
            Ok(value) => match result {
                Ok(kept) => kept == value && state_written(old(state)@) == Ok::<
                    StateModel,
                    Seq<char>,
                >(final(state)@),
                Err(e) => state_written(old(state)@) == Err::<StateModel, Seq<char>>(e@)
                    && final(state)@ == prepared(old(state)@),
            },
        },
{
    match outcome {
        Err(e) => Err(e),
        Ok(value) => match prepare_state_commit(state) {
            Err(e) => Err(e),
            Ok(_) => Ok(value),
        },
    }
}

/// What is made of a change of the state: what is told, and the state that is to be
/// written, if any is.
pub open spec fn change_kept<R>(
    left: StateModel,
    outcome: Result<R, String>,
    to_write: Option<State>,
    told: Result<R, String>,
) -> bool {
    match outcome {
        Err(e) => to_write is None && told == Err::<R, String>(e),
        Ok(value) => match state_written(left) {
            Ok(written) => to_write is Some && to_write->0.wf() && to_write->0@ == written && told
                == Ok::<R, String>(value),
            Err(e) => to_write is None && told is Err && told->Err_0@ == e,
        },
    }
}

/// Changes the state that is read of what is stored. A state that is refused is not
/// changed at all; of any other the change is made once, and what it leaves is
/// to be written only if it succeeds.
pub fn with_state<R, F: FnOnce(State) -> (State, Result<R, String>)>(
    stored: Option<State>,
    mutator: F,
) -> (result: (Option<State>, Result<R, String>))
    requires
        stored matches Some(s) ==> s.wf(),
        forall|state: State| #[trigger] state.wf() ==> call_requires(mutator, (state,)),
        forall|state: State, change: (State, Result<R, String>)|
            state.wf() && #[trigger] call_ensures(mutator, (state,), change) ==> change.0.wf(),
    ensures
        match state_read(
            match stored {
                Some(s) => Some(s@),
                None => None,
            },
        ) {
            Ok(model) => exists|state: State, change: (State, Result<R, String>)|
                state.wf() && state@ == model && #[trigger] call_ensures(mutator, (state,), change)
                    && change_kept(change.0@, change.1, result.0, result.1),
            Err(e) => result.0 is None && result.1 is Err && result.1->Err_0@ == e,
        },
{
    match read_state(stored) {
        Err(e) => (None, Err(e)),
        Ok(state) => {
            let (left, outcome) = mutator(state);
            let mut left = left;
            match commit_change(&mut left, outcome) {
                Ok(value) => (Some(left), Ok(value)),
                Err(e) => (None, Err(e)),
            }
        },
    }
}

/// Lets a reader see the state that is read of what is stored. It sees nothing of a
/// state that is refused.
pub fn with_state_read<R, F: FnOnce(&State) -> Result<R, String>>(
    stored: Option<State>,
    reader: F,
) -> (result: Result<R, String>)
    requires
        stored matches Some(s) ==> s.wf(),
        forall|state: State| #[trigger] state.wf() ==> call_requires(reader, (&state,)),
    ensures
        match state_read(
            match stored {
                Some(s) => Some(s@),
                None => None,
            },
        ) {
            Ok(model) => exists|state: State|
                state.wf() && state@ == model && #[trigger] call_ensures(
                    reader,
                    (&state,),
                    result,
                ),
            Err(e) => result is Err && result->Err_0@ == e,
        },
{
    match read_state(stored) {
        Ok(state) => reader(&state),
        Err(e) => Err(e),
    }
}

/// A record that is taken as it stands whenever it is read.
pub open spec fn sound_record(key: Seq<char>, record: RecordModel) -> bool {
    record_fault(key, record) is None && !aimless(record) && quarantined(record) == record
}

/// Records that are all taken as they stand.
pub open spec fn sound_records(records: Map<Seq<char>, RecordModel>) -> bool {
    forall|key: Seq<char>| #[trigger] records.contains_key(key) ==> sound_record(key, records[key])
}

/// Fences that are all taken as they stand.
pub open spec fn sound_fences(fences: Map<Seq<char>, FenceModel>) -> bool {
    forall|path: Seq<char>| #[trigger]
        fences.contains_key(path) ==> !fence_broken(path, fences[path])
}

/// A state whose records and fences are all taken as they stand.
pub open spec fn sound(state: StateModel) -> bool {
    &&& state.schema_version == CURRENT_STATE_SCHEMA_VERSION
    &&& state.records.dom().finite()
    &&& state.operation_cgroups.dom().finite()
    &&& sound_records(state.records)
    &&& sound_fences(state.operation_cgroups)
}

proof fn lemma_faultless_records(records: Map<Seq<char>, RecordModel>)
    requires
        records.dom().finite(),
        records_fault(records) is None,
    ensures
        forall|key: Seq<char>| #[trigger]
            records.contains_key(key) ==> record_fault(key, records[key]) is None,
{
    let faulty = records.dom().filter(|key: Seq<char>| record_fault(key, records[key]) is Some);
    assert forall|key: Seq<char>| #[trigger] records.contains_key(key) implies record_fault(
        key,
        records[key],
    ) is None by {
        if record_fault(key, records[key]) is Some {
            assert(faulty.contains(key));
            let first = lemma_first_text(faulty);
            assert forall|other: Seq<char>| #[trigger]
                records.contains_key(other) && record_fault(other, records[other]) is Some && other
                    != first implies text_before(first, other) by {
                assert(faulty.contains(other));
            }
            assert(records.contains_key(first));
            assert(first_faulty(records, first));
            let chosen = choose|k: Seq<char>| first_faulty(records, k);
            assert(record_fault(chosen, records[chosen]) is Some);
        }
    }
}

/// Of finitely many texts, one stands before all others.
proof fn lemma_first_text(texts: Set<Seq<char>>) -> (first: Seq<char>)
    requires
        texts.finite(),
        !texts.is_empty(),
    ensures
        texts.contains(first),
        forall|other: Seq<char>| #[trigger]
            texts.contains(other) && other != first ==> text_before(first, other),
    decreases texts.len(),
{
    let a = texts.choose();
    let rest = texts.remove(a);
    if rest.is_empty() {
        assert forall|other: Seq<char>| #[trigger] texts.contains(other) implies other == a by {
            if other != a {
                assert(rest.contains(other));
            }
        }
        a
    } else {
        let b = lemma_first_text(rest);
        lemma_text_order_is_total(a, b);
        let first = if text_before(a, b) {
            a
        } else {
            b
        };
        assert forall|other: Seq<char>| #[trigger]
            texts.contains(other) && other != first implies text_before(first, other) by {
            if other != a {
                assert(rest.contains(other));
                if other != b {
                    lemma_text_order_is_strict(a, b, other);
                }
            }
        }
        first
    }
}

/// Whatever is read is sound, and it exceeds the number of records that may be
/// held exactly where it is in recovery mode.
pub proof fn law_read_state_is_sound(stored: Option<StateModel>, state: StateModel)
    requires
        stored matches Some(s) ==> s.records.dom().finite() && s.operation_cgroups.dom().finite(),
        state_read(stored) == Ok::<StateModel, Seq<char>>(state),
    ensures
        sound(state),
        state.recovery_mode <==> state.records.len() > MAX_RECORDS,
        state.operation_cgroups.len() <= MAX_OPERATION_CGROUPS,
{
    let source = match stored {
        Some(s) => s,
        None => empty_state(),
    };
    assert(state == migrated(source));
    law_migration_is_idempotent(source);
    lemma_migrated_is_finite(source);
    assert(state.schema_version == CURRENT_STATE_SCHEMA_VERSION);
    if stored is Some {
        lemma_faultless_records(state.records);
        assert forall|key: Seq<char>| #[trigger] state.records.contains_key(key) implies sound_record(
            key,
            state.records[key],
        ) by {
            assert(migrated(state).records[key] == state.records[key]);
        }
    } else {
        assert(state.records =~= Map::empty());
        assert(state.operation_cgroups =~= Map::empty());
    }
}

proof fn lemma_migrated_is_finite(state: StateModel)
    requires
        state.records.dom().finite(),
        state.operation_cgroups.dom().finite(),
    ensures
        migrated(state).records.dom().finite(),
        migrated(state).operation_cgroups.dom().finite(),
{
    let older = state.schema_version != CURRENT_STATE_SCHEMA_VERSION;
    let records = migrated_records(state.records, older);
    assert(records.dom() =~= state.records.dom());
    law_pruning_keeps_what_is_in_use(records);
    assert(pruned(records).dom().subset_of(records.dom())) by {
        assert forall|key: Seq<char>| pruned(records).dom().contains(key) implies records.dom().contains(
            key,
        ) by {
            assert(pruned(records).contains_key(key));
        }
    }
    let fences = state.operation_cgroups;
    assert(identified(fences).dom().subset_of(fences.dom()));
    vstd::set_lib::lemma_len_subset(identified(fences).dom(), fences.dom());
    vstd::set_lib::lemma_len_subset(pruned(records).dom(), records.dom());
}

/// What is written of a sound state is sound, and is read back unchanged.
pub proof fn law_written_state_is_read_back(state: StateModel, written: StateModel)
    requires
        sound(state),
        state_written(state) == Ok::<StateModel, Seq<char>>(written),
    ensures
        sound(written),
        state_read(Some(written)) == Ok::<StateModel, Seq<char>>(written),
{
    law_pruning_keeps_what_is_in_use(state.records);
    assert(written.records.dom().subset_of(state.records.dom())) by {
        assert forall|key: Seq<char>| written.records.dom().contains(
            key,
        ) implies state.records.dom().contains(key) by {
            assert(written.records.contains_key(key));
        }
    }
    vstd::set_lib::lemma_len_subset(written.records.dom(), state.records.dom());
    assert forall|key: Seq<char>| #[trigger] written.records.contains_key(key) implies sound_record(
        key,
        written.records[key],
    ) by {
        assert(state.records.contains_key(key));
    }
    let read = migrated(written);
    assert(read.records =~= written.records) by {
        assert forall|key: Seq<char>| #[trigger] written.records.contains_key(key) implies quarantined(
            written.records[key],
        ) == written.records[key] by {}
    }
    assert(read.operation_cgroups =~= written.operation_cgroups);
    assert(read == written);
    if exists|key: Seq<char>| first_faulty(written.records, key) {
        let key = choose|key: Seq<char>| first_faulty(written.records, key);
        assert(written.records.contains_key(key));
        assert(sound_record(key, written.records[key]));
    }
    assert(records_fault(written.records) is None);
    assert(current_fault(written) is None);
}

/// A state of an older version with too many records is taken in recovery mode,
/// and nothing can be captured then. Whatever was read can be written, and
/// recovery mode ends as soon as the records fit again.
pub proof fn law_recovery_mode_drains(stored: StateModel, state: StateModel)
    requires
        stored.records.dom().finite(),
        stored.operation_cgroups.dom().finite(),
        state_read(Some(stored)) == Ok::<StateModel, Seq<char>>(state),
    ensures
        stored.schema_version != CURRENT_STATE_SCHEMA_VERSION && state.recovery_mode ==> pruned(
            state.records,
        ).len() > MAX_RECORDS,
        prepared(state).recovery_mode <==> pruned(state.records).len() > MAX_RECORDS,
        state_written(state) is Ok,
{
    law_read_state_is_sound(Some(stored), state);
    law_pruning_keeps_what_is_in_use(state.records);
    lemma_migrated_is_finite(stored);
    assert(pruned(state.records).dom().subset_of(state.records.dom())) by {
        assert forall|key: Seq<char>| pruned(state.records).dom().contains(
            key,
        ) implies state.records.dom().contains(key) by {
            assert(pruned(state.records).contains_key(key));
        }
    }
    vstd::set_lib::lemma_len_subset(pruned(state.records).dom(), state.records.dom());
    let older = stored.schema_version != CURRENT_STATE_SCHEMA_VERSION;
    let records = migrated_records(stored.records, older);
    assert(records.dom() =~= stored.records.dom());
    law_pruning_is_idempotent(records);
}

/// Whether a text has at most so many bytes and no control code.
pub open spec fn short(text: Seq<char>, limit: nat) -> bool {
    encode_utf8(text).len() <= limit && forall|i: int|
        0 <= i < text.len() ==> !control_char(#[trigger] text[i])
}

/// Whether a text is short, if there is one.
pub open spec fn short_if_any(text: Option<Seq<char>>, limit: nat) -> bool {
    text is None || short(text->0, limit)
}

/// Whether something is written in a text.
pub open spec fn says_something(text: Seq<char>) -> bool {
    exists|i: int| 0 <= i < text.len() && !white_char(#[trigger] text[i])
}

/// Whether a path can be that of a control group.
pub open spec fn group_path(path: Seq<char>) -> bool {
    short(path, 512) && path.len() > 0 && path[0] == '/' && !steps_back(path)
}

/// Whether a record is held under its own handle and its own account, and all of its texts
/// keep to their limits.
pub open spec fn within_limits(key: Seq<char>, record: RecordModel) -> bool {
    &&& key == record.handle
    &&& record.keyring_account == "handoff:"@ + record.handle
    &&& encode_utf8(record.keyring_account).len() <= 256
    &&& short(record.handle, 160) && says_something(record.handle)
    &&& short(record.target, 160) && says_something(record.target)
    &&& short(record.label, 160) && says_something(record.label)
    &&& short_if_any(record.claim_id, 128)
    &&& short_if_any(record.lease_owner, 128)
    &&& short_if_any(record.lease_boot_id, 128)
    &&& short_if_any(record.expires_boot_id, 128)
    &&& short_if_any(record.helper_boot_id, 128)
    &&& short_if_any(record.helper_kind, 128)
    &&& short_if_any(record.last_error, 2048)
    &&& record.helper_cgroup is None || group_path(record.helper_cgroup->0)
    &&& record.helper_cgroup_identity is None || (record.helper_cgroup_identity->0.dev != 0
        && record.helper_cgroup_identity->0.ino != 0)
}

/// Whether leases, deadlines and helpers are told as a whole, and a helper only where there
/// can be one.
pub open spec fn told_as_a_whole(record: RecordModel) -> bool {
    &&& record.lease_owner is Some <==> record.lease_expires_at is Some
    &&& record.lease_expires_mono is Some <==> record.lease_boot_id is Some
    &&& record.expires_mono is Some <==> record.expires_boot_id is Some
    &&& record.helper_pid is Some <==> record.helper_pgid is Some
    &&& record.helper_pid is Some <==> record.helper_start_ticks is Some
    &&& record.helper_pid is Some <==> record.helper_boot_id is Some
    &&& record.helper_pid is Some <==> record.helper_kind is Some
    &&& record.helper_descendants_unknown || (record.helper_cgroup is Some
        <==> record.helper_cgroup_identity is Some)
    &&& record.helper_cgroup is None || record.helper_pid is Some || record.status is Claimed
        || record.status is CleanupPending
    &&& record.helper_descendants_unknown ==> record.status is CleanupPending
        || record.status is Revoked
}

/// Whether a helper can be a process: it leads its own process group, is not the first
/// process, and was started at some time.
pub open spec fn possible_helper(record: RecordModel) -> bool {
    record.helper_pid is Some && record.helper_pgid is Some && record.helper_start_ticks is Some
        ==> record.helper_pid->0 == record.helper_pgid->0 && record.helper_pgid->0 > 1
        && record.helper_start_ticks->0 != 0
}

/// Whether a record holds what goes with its status.
pub open spec fn goes_with_its_status(record: RecordModel) -> bool {
    match record.status {
        LifecycleStatus::Provisioning => record.claim_id is None && record.lease_owner is Some,
        LifecycleStatus::Active => record.claim_id is None && record.lease_owner is None
            && record.helper_pid is None && record.cleanup_target is None,
        LifecycleStatus::Claimed => record.claim_id is Some && record.lease_owner is Some,
        LifecycleStatus::Running => record.claim_id is Some && record.lease_owner is Some
            && record.helper_pid is Some,
        LifecycleStatus::CleanupPending => true,
        LifecycleStatus::Revoked => true,
        _ => record.claim_id is None && record.lease_owner is None && record.helper_pid is None
            && record.cleanup_target is None && !record.cleanup_keyring_done
            && !record.helper_descendants_unknown,
    }
}

/// Whether a record leads to an end, if it leads anywhere.
pub open spec fn leads_to_an_end(record: RecordModel) -> bool {
    record.cleanup_target is None || record.cleanup_target->0 is Consumed
        || record.cleanup_target->0 is Deleted || record.cleanup_target->0 is Expired
}

/// Whether a record can be held under a key.
pub open spec fn holdable(key: Seq<char>, record: RecordModel) -> bool {
    within_limits(key, record) && told_as_a_whole(record) && possible_helper(record)
        && leads_to_an_end(record) && goes_with_its_status(record)
}

proof fn lemma_short(text: Seq<char>, limit: nat)
    ensures
        unfit(text, limit) <==> !short(text, limit),
        blank(text) <==> !says_something(text),
{
}

proof fn lemma_short_if_any(text: Option<Seq<char>>, limit: nat)
    ensures
        optional_unfit(text, limit) <==> !short_if_any(text, limit),
{
    if let Some(t) = text {
        lemma_short(t, limit);
    }
}

proof fn lemma_holdable(key: Seq<char>, record: RecordModel)
    ensures
        beyond_limits(key, record) <==> !within_limits(key, record),
        fence_incomplete(record) <==> !told_as_a_whole(record),
        helper_impossible(record) <==> !possible_helper(record),
        record_fault(key, record) is None <==> holdable(key, record),
{
    lemma_short(record.handle, 160);
    lemma_short(record.target, 160);
    lemma_short(record.label, 160);
    lemma_short_if_any(record.claim_id, 128);
    lemma_short_if_any(record.lease_owner, 128);
    lemma_short_if_any(record.lease_boot_id, 128);
    lemma_short_if_any(record.expires_boot_id, 128);
    lemma_short_if_any(record.helper_boot_id, 128);
    lemma_short_if_any(record.helper_kind, 128);
    lemma_short_if_any(record.last_error, 2048);
    if let Some(path) = record.helper_cgroup {
        lemma_short(path, 512);
    }
}

/// A record is taken exactly if it can be held under its key, and what is wrong with
/// another one is told: first its limits, then its fences, its helper, its aim, and what
/// does not go with its status.
pub proof fn law_holdable_records_are_taken(
    key: &str,
    record: &SecretRecord,
    result: Result<(), String>,
)
    requires
        call_ensures(check_record, (key, record), result),
    ensures
        result is Ok <==> holdable(key@, record@),
        result matches Err(e) ==> e@ == if !within_limits(key@, record@) {
            "state record exceeds the configured limit"@
        } else if !told_as_a_whole(record@) {
            "state record lifecycle fence is invalid"@
        } else if !possible_helper(record@) {
            "state record helper identity is invalid"@
        } else if !leads_to_an_end(record@) {
            "state record cleanup target is invalid"@
        } else {
            match record@.status {
                LifecycleStatus::Provisioning => "provisioning record lifecycle is invalid"@,
                LifecycleStatus::Active => "active record lifecycle is invalid"@,
                LifecycleStatus::Claimed => "claimed record lifecycle is invalid"@,
                LifecycleStatus::Running => "running record lifecycle is invalid"@,
                _ => "terminal record lifecycle is invalid"@,
            }
        },
{
    lemma_holdable(key@, record@);
}

/// Whether a fence can have been written for a control group.
pub open spec fn holdable_fence(path: Seq<char>, fence: FenceModel) -> bool {
    &&& group_path(path)
    &&& fence.owner.len() > 0 && short(fence.owner, 128)
    &&& fence.identity is Some && fence.identity->0.dev != 0 && fence.identity->0.ino != 0
    &&& fence.boot_id is None || (fence.boot_id->0.len() > 0 && short(fence.boot_id->0, 128))
    &&& fence.expires_mono is Some <==> fence.boot_id is Some
}

proof fn lemma_holdable_fence(path: Seq<char>, fence: FenceModel)
    ensures
        fence_broken(path, fence) <==> !holdable_fence(path, fence),
{
    lemma_short(path, 512);
    lemma_short(fence.owner, 128);
    lemma_short_if_any(fence.boot_id, 128);
}

/// Whether all fences of a state can have been written.
pub open spec fn fences_are_holdable(state: StateModel) -> bool {
    forall|path: Seq<char>| #[trigger]
        state.operation_cgroups.contains_key(path) ==> holdable_fence(
            path,
            state.operation_cgroups[path],
        )
}

/// Whether all records of a state can be held under their keys.
pub open spec fn records_are_holdable(state: StateModel) -> bool {
    forall|key: Seq<char>| #[trigger]
        state.records.contains_key(key) ==> holdable(key, state.records[key])
}

/// Whether every record of a state that waits for its cleanup has an aim.
pub open spec fn records_have_aims(state: StateModel) -> bool {
    forall|key: Seq<char>| #[trigger]
        state.records.contains_key(key) && state.records[key].status is CleanupPending
            ==> state.records[key].cleanup_target is Some
}

/// A state is taken exactly if it is in recovery mode just where it holds more than a
/// thousand and twenty-four records, fences no more control groups than that, and holds
/// only what can be held.
pub proof fn law_holdable_states_are_taken(state: &State, result: Result<(), String>)
    requires
        state.wf(),
        call_ensures(check_state, (state,), result),
    ensures
        result is Ok <==> (state@.recovery_mode <==> state@.records.len() > 1024)
            && state@.operation_cgroups.len() <= 1024 && fences_are_holdable(state@)
            && records_are_holdable(state@) && records_have_aims(state@),
        result is Err && state@.recovery_mode && state@.records.len() <= 1024 ==> result->Err_0@
            == "state recovery mode is invalid below the record capacity"@,
        result is Err && !state@.recovery_mode && state@.records.len() > 1024 ==> result->Err_0@
            == "state record capacity has been reached"@,
        (state@.recovery_mode <==> state@.records.len() > 1024) && state@.operation_cgroups.len()
            > 1024 ==> result is Err && result->Err_0@
            == "state operation cgroup capacity has been reached"@,
        (state@.recovery_mode <==> state@.records.len() > 1024) && state@.operation_cgroups.len()
            <= 1024 && !fences_are_holdable(state@) ==> result is Err && result->Err_0@
            == "state operation cgroup fence is invalid"@,
        (state@.recovery_mode <==> state@.records.len() > 1024) && state@.operation_cgroups.len()
            <= 1024 && fences_are_holdable(state@) && records_are_holdable(state@)
            && !records_have_aims(state@) ==> result is Err && result->Err_0@
            == "cleanup-pending record has no target"@,
{
    let model = state@;
    state.records.lemma_keys();
    if exists|path: Seq<char>| #[trigger]
        model.operation_cgroups.contains_key(path) && fence_broken(
            path,
            model.operation_cgroups[path],
        ) {
        let path = choose|path: Seq<char>| #[trigger]
            model.operation_cgroups.contains_key(path) && fence_broken(
                path,
                model.operation_cgroups[path],
            );
        lemma_holdable_fence(path, model.operation_cgroups[path]);
    } else {
        assert forall|path: Seq<char>| #[trigger]
            model.operation_cgroups.contains_key(path) implies holdable_fence(
            path,
            model.operation_cgroups[path],
        ) by {
            lemma_holdable_fence(path, model.operation_cgroups[path]);
        }
    }
    if records_fault(model.records) is None {
        lemma_faultless_records(model.records);
        assert forall|key: Seq<char>| #[trigger] model.records.contains_key(key) implies holdable(
            key,
            model.records[key],
        ) by {
            lemma_holdable(key, model.records[key]);
        }
    } else {
        let key = choose|key: Seq<char>| first_faulty(model.records, key);
        lemma_holdable(key, model.records[key]);
        assert(model.records.contains_key(key));
    }
    if exists|key: Seq<char>| #[trigger]
        model.records.contains_key(key) && aimless(model.records[key]) {
        let key = choose|key: Seq<char>| #[trigger]
            model.records.contains_key(key) && aimless(model.records[key]);
        assert(!records_have_aims(model));
    } else {
        assert forall|key: Seq<char>| #[trigger]
            model.records.contains_key(key)
                && model.records[key].status is CleanupPending implies model.records[key].cleanup_target is Some by {
            assert(!aimless(model.records[key]));
        }
    }
}

/// What is stored is read exactly if it is of no later version than the fourth and, brought
/// up to date, can be taken; and where nothing is stored, an empty state is read.
pub proof fn law_stored_states_are_read(
    stored: Option<State>,
    result: Result<State, String>,
    current: &State,
    checked: Result<(), String>,
)
    requires
        call_ensures(read_state, (stored,), result),
        call_ensures(check_state, (current,), checked),
        stored matches Some(s) ==> current@ == migrated(s@),
    ensures
        stored is None ==> result is Ok && result->Ok_0@.records.len() == 0
            && result->Ok_0@.operation_cgroups.len() == 0 && result->Ok_0@.schema_version == 4
            && !result->Ok_0@.recovery_mode,
        stored is Some ==> (result is Ok <==> stored->0@.schema_version <= 4 && checked is Ok),
        stored is Some && result is Ok ==> result->Ok_0@ == migrated(stored->0@),
        stored is Some && stored->0@.schema_version > 4 ==> result is Err && result->Err_0@
            == "state file uses a newer unsupported schema version"@,
        stored is Some && stored->0@.schema_version <= 4 && checked is Err ==> result is Err
            && result->Err_0@ == checked->Err_0@,
{
    let empty = migrated(empty_state());
    assert(empty.records =~= Map::<Seq<char>, RecordModel>::empty());
    assert(empty.operation_cgroups =~= Map::<Seq<char>, FenceModel>::empty());
}

/// A state file is read exactly if it has at most four mebibytes, and a secret lies in the
/// keyring under the account of its handle.
pub proof fn law_state_files_are_held_to_their_limit(
    size: u64,
    result: Result<(), String>,
    handle: &str,
    account: String,
)
    requires
        call_ensures(check_state_size, (size,), result),
        call_ensures(keyring_account, (handle,), account),
    ensures
        result is Ok <==> size <= 4_194_304,
        result matches Err(e) ==> e@ == "state file exceeds the configured limit"@,
        account@ == "handoff:"@ + handle@,
{
}

/// A state is written exactly if no more than a thousand and twenty-four records are left
/// of it, or it is in recovery mode, and no more control groups are fenced; recovery
/// mode ends once the records fit.
pub proof fn law_states_are_written_within_their_limits(state: StateModel)
    ensures
        ({
            let kept = pruned(state.records);
            match state_written(state) {
                Ok(written) => {
                    &&& kept.len() <= 1024 || state.recovery_mode
                    &&& state.operation_cgroups.len() <= 1024
                    &&& written.records == kept
                    &&& written.operation_cgroups == state.operation_cgroups
                    &&& written.schema_version == state.schema_version
                    &&& written.recovery_mode == (state.recovery_mode && kept.len() > 1024)
                },
                Err(e) => if kept.len() > 1024 && !state.recovery_mode {
                    e == "state record capacity has been reached"@
                } else {
                    state.operation_cgroups.len() > 1024 && e
                        == "state operation cgroup capacity has been reached"@
                },
            }
        }),
        prepared(state).records == pruned(state.records),
        prepared(state).operation_cgroups == state.operation_cgroups,
        prepared(state).schema_version == state.schema_version,
        prepared(state).recovery_mode == (state.recovery_mode && pruned(state.records).len()
            > 1024),
{
}

/// A change is written exactly if it succeeded and the state that it leaves can be written;
/// what is told of it is its own result, unless the state cannot be written.
pub proof fn law_only_successful_changes_are_written<R>(
    left: StateModel,
    outcome: Result<R, String>,
    to_write: Option<State>,
    told: Result<R, String>,
)
    requires
        change_kept(left, outcome, to_write, told),
    ensures
        to_write is Some <==> outcome is Ok && state_written(left) is Ok,
        to_write is Some ==> to_write->0@ == state_written(left)->Ok_0,
        told is Ok <==> to_write is Some,
        told is Ok ==> told->Ok_0 == outcome->Ok_0,
        outcome is Err ==> told is Err && told->Err_0 == outcome->Err_0,
        outcome is Ok && told is Err ==> told->Err_0@ == state_written(left)->Err_0,
{
}

/// A change that failed leaves the state as it is, and one that succeeded leaves it ready to
/// be written.
pub proof fn law_changes_are_made_ready<R>(
    outcome: Result<R, String>,
    result: Result<R, String>,
    ready: Result<(), String>,
)
    ensures
        forall|state: &mut State| #[trigger]
            call_ensures(commit_change::<R>, (state, outcome), result) ==> {
                &&& outcome is Err ==> result == outcome && final(state)@ == state@
                &&& outcome is Ok ==> final(state)@ == prepared(state@)
                &&& outcome is Ok ==> (result is Ok <==> state_written(state@) is Ok)
                &&& result is Ok ==> result == outcome
            },
        forall|state: &mut State| #[trigger]
            call_ensures(prepare_state_commit, (state,), ready) ==> final(state)@
                == prepared(state@) && (ready is Ok <==> state_written(state@) is Ok) && (
            ready is Err ==> ready->Err_0@ == state_written(state@)->Err_0),
{
}

/// A state that cannot be read is neither changed nor shown. Of any other state one change
/// is made, to the state as it is read, and its result is told; it is written exactly if
/// the change succeeded and can be written.
pub proof fn law_changes_are_made_to_the_state_that_is_read<
    R,
    F: FnOnce(State) -> (State, Result<R, String>),
>(
    stored: Option<State>,
    mutator: F,
    result: (Option<State>, Result<R, String>),
    read: Result<State, String>,
)
    requires
        call_ensures(with_state::<R, F>, (stored, mutator), result),
        call_ensures(read_state, (stored,), read),
    ensures
        read matches Err(e) ==> result.0 is None && result.1 is Err && result.1->Err_0@ == e@,
        read matches Ok(state) ==> exists|seen: State, change: (State, Result<R, String>)|
            seen@ == state@ && #[trigger] call_ensures(mutator, (seen,), change) && (
            result.0 is Some <==> change.1 is Ok && state_written(change.0@) is Ok) && (
            result.0 is Some ==> result.0->0@ == state_written(change.0@)->Ok_0 && result.1
                == change.1) && (change.1 is Err ==> result.1 == change.1) && (result.1 is Ok
                <==> result.0 is Some),
{
}

/// A reader sees the state as it is read, and its answer is told.
pub proof fn law_readers_see_the_state_that_is_read<R, F: FnOnce(&State) -> Result<R, String>>(
    stored: Option<State>,
    reader: F,
    result: Result<R, String>,
    read: Result<State, String>,
)
    requires
        call_ensures(with_state_read::<R, F>, (stored, reader), result),
        call_ensures(read_state, (stored,), read),
    ensures
        read matches Err(e) ==> result is Err && result->Err_0@ == e@,
        read matches Ok(state) ==> exists|seen: State|
            seen@ == state@ && #[trigger] call_ensures(reader, (&seen,), result),
{
}

} // verus!
