//! Recovery: which records are taken up again after their process is gone or
//! their time is up.
use vstd::prelude::*;
use vstd::string::*;

use crate::cgroups::{fence_stale, is_fence_stale};
use crate::clock::{Clock, ClockModel, LeaseLiveness};
use crate::identity::ProcessLiveness;
use crate::lifecycle::{advance, advanced, noted, pending, set_pending};
use crate::promises::{fences_at, law_abandoned_fences_are_found};
use crate::record::{
    cleanup_action_for, cleanup_of, copy_text, in_flight, terminal, ActionModel, CleanupAction,
    FenceModel, LifecycleStatus, OperationCgroupFence, RecordModel, SecretRecord,
};
use crate::state::{State, StateModel};

verus! {

/// What was found out about a record before it is decided on.
#[derive(Debug, Clone, Copy, PartialEq, Eq, Structural)]
pub struct Reading {
    pub lease: LeaseLiveness,
    pub expired: bool,
}

/// The final status that a record is cleaned up to, if it is cleaned up at all. A
/// record that a process is at work on is left alone until its lease is known to
/// be over.
pub open spec fn recovery_target(record: RecordModel, reading: Reading) -> Option<LifecycleStatus> {
    if in_flight(record.status) {
        if reading.lease == LeaseLiveness::Expired {
            Some(LifecycleStatus::Deleted)
        } else {
            None
        }
    } else {
        match record.status {
            LifecycleStatus::Revoked => Some(LifecycleStatus::Deleted),
            LifecycleStatus::CleanupPending => match record.cleanup_target {
                Some(target) => Some(target),
                None => Some(LifecycleStatus::Deleted),
            },
            LifecycleStatus::Active => if reading.expired {
                Some(LifecycleStatus::Expired)
            } else {
                None
            },
            _ => None,
        }
    }
}

/// A record that is taken up again.
pub open spec fn recovering(record: RecordModel, target: LifecycleStatus) -> RecordModel {
    advanced(noted(pending(record, target), "cleanup scheduled during recovery"@))
}

/// A record after it was decided on.
pub open spec fn recovered(record: RecordModel, reading: Reading) -> RecordModel {
    match recovery_target(record, reading) {
        Some(target) => recovering(record, target),
        None => record,
    }
}

fn target_of(record: &SecretRecord, reading: Reading) -> (target: Option<LifecycleStatus>)
    ensures
        target == recovery_target(record@, reading),
{
    if record.status.is_in_flight() {
        return if matches!(reading.lease, LeaseLiveness::Expired) {
            Some(LifecycleStatus::Deleted)
        } else {
            None
        };
    }
    match record.status {
        LifecycleStatus::Revoked => Some(LifecycleStatus::Deleted),
        LifecycleStatus::CleanupPending => match record.cleanup_target {
            Some(target) => Some(target),
            None => Some(LifecycleStatus::Deleted),
        },
        LifecycleStatus::Active => if reading.expired {
            Some(LifecycleStatus::Expired)
        } else {
            None
        },
        _ => None,
    }
}

/// Takes up one record, if it has to be, and tells what there is to clean up.
pub fn reconcile_record(record: &mut SecretRecord, reading: Reading) -> (action: Option<
    CleanupAction,
>)
    ensures
        final(record)@ == recovered(old(record)@, reading),
        match action {
            Some(a) => recovery_target(old(record)@, reading) is Some && a@ == cleanup_of(
                final(record)@,
                recovery_target(old(record)@, reading)->0,
            ),
            None => recovery_target(old(record)@, reading) is None,
        },
{
    match target_of(record, reading) {
        None => None,
        Some(target) => {
            set_pending(record, target);
            record.last_error = Some("cleanup scheduled during recovery".to_owned());
            advance(record);
            Some(cleanup_action_for(record, target))
        },
    }
}

/// What there is to clean up of the first records, in their order.
pub open spec fn recovery_actions(
    keys: Seq<Seq<char>>,
    records: Map<Seq<char>, RecordModel>,
    readings: Seq<Reading>,
    count: nat,
) -> Seq<ActionModel>
    decreases count,
{
    if count == 0 {
        Seq::empty()
    } else {
        let before = recovery_actions(keys, records, readings, (count - 1) as nat);
        let record = records[keys[count - 1]];
        match recovery_target(record, readings[count - 1]) {
            Some(target) => before.push(cleanup_of(recovering(record, target), target)),
            None => before,
        }
    }
}

/// What the cleanups in a list stand for.
pub open spec fn actions_of(list: Seq<CleanupAction>) -> Seq<ActionModel> {
    list.map(|i: int, action: CleanupAction| action@)
}

/// Takes up the first records, as far as there are readings of them, and tells
/// what there is to clean up. The records behind them are left as they are.
pub fn reconcile_records(state: &mut State, readings: &Vec<Reading>) -> (actions: Vec<
    CleanupAction,
>)
    requires
        old(state).wf(),
        readings@.len() <= old(state)@.records.len(),
    ensures
        final(state).wf(),
        final(state).records.keys() == old(state).records.keys(),
        final(state)@ == (StateModel { records: final(state)@.records, ..old(state)@ }),
        final(state)@.records.dom() == old(state)@.records.dom(),
        forall|i: int|
            0 <= i < old(state).records.keys().len() ==> final(state)@.records[#[trigger] old(
                state,
            ).records.keys()[i]] == if i < readings@.len() {
                recovered(old(state)@.records[old(state).records.keys()[i]], readings@[i])
            } else {
                old(state)@.records[old(state).records.keys()[i]]
            },
        actions_of(actions@) == recovery_actions(
            old(state).records.keys(),
            old(state)@.records,
            readings@,
            readings@.len(),
        ),
{
    let mut actions: Vec<CleanupAction> = Vec::new();
    let n: usize = readings.len();
    let ghost keys = state.records.keys();
    let ghost before = state@.records;
    let ghost rest = state@;
    proof {
        state.records.lemma_keys();
        assert(actions_of(actions@) =~= Seq::empty());
    }
    for i in 0..n
        invariant
            state.wf(),
            n == readings@.len(),
            n <= keys.len(),
            keys.no_duplicates(),
            state.records.keys() == keys,
            state@ == (StateModel { records: state@.records, ..rest }),
            state@.records.dom() == before.dom(),
            forall|j: int| 0 <= j < keys.len() ==> before.contains_key(#[trigger] keys[j]),
            forall|j: int|
                0 <= j < keys.len() ==> state@.records[#[trigger] keys[j]] == if j < i {
                    recovered(before[keys[j]], readings@[j])
                } else {
                    before[keys[j]]
                },
            actions_of(actions@) == recovery_actions(keys, before, readings@, i as nat),
    {
        let ghost current = state@.records;
        let ghost told = actions_of(actions@);
        let record = state.records.value_at_mut(i);
        let action = reconcile_record(record, readings[i]);
        assert(state@.records.dom() =~= before.dom());
        match action {
            Some(a) => {
                actions.push(a);
                assert(actions_of(actions@) =~= told.push(a@));
            },
            None => {},
        }
    }
    actions
}

/// The fences that have gone stale, in the order of their paths.
pub open spec fn stale_places(
    keys: Seq<Seq<char>>,
    fences: Map<Seq<char>, FenceModel>,
    this_process: Seq<char>,
    found: Seq<ProcessLiveness>,
    clock: ClockModel,
    count: nat,
) -> Seq<(Seq<char>, FenceModel)>
    decreases count,
{
    if count == 0 {
        Seq::empty()
    } else {
        let before = stale_places(keys, fences, this_process, found, clock, (count - 1) as nat);
        let path = keys[count - 1];
        if fence_stale(fences[path], this_process, found[count - 1], clock) {
            before.push((path, fences[path]))
        } else {
            before
        }
    }
}

/// What a list of fenced paths stands for.
pub open spec fn fenced_paths(list: Seq<(String, OperationCgroupFence)>) -> Seq<
    (Seq<char>, FenceModel),
> {
    list.map(|i: int, entry: (String, OperationCgroupFence)| (entry.0@, entry.1@))
}

fn copy_fence(fence: &OperationCgroupFence) -> (copy: OperationCgroupFence)
    ensures
        copy@ == fence@,
{
    OperationCgroupFence {
        owner: fence.owner.clone(),
        expires_at: fence.expires_at,
        expires_mono: fence.expires_mono,
        boot_id: copy_text(&fence.boot_id),
        identity: fence.identity,
    }
}

/// The fences that have gone stale: their time is up or their owner is dead.
pub fn stale_operation_cgroups(
    state: &State,
    this_process: &str,
    found: &Vec<ProcessLiveness>,
    clock: &Clock,
) -> (list: Vec<(String, OperationCgroupFence)>)
    requires
        state.wf(),
        found@.len() == state@.operation_cgroups.len(),
    ensures
        fenced_paths(list@) == stale_places(
            state.operation_cgroups.keys(),
            state@.operation_cgroups,
            this_process@,
            found@,
            clock@,
            found@.len(),
        ),
{
    let n: usize = state.operation_cgroups.len();
    let mut list: Vec<(String, OperationCgroupFence)> = Vec::new();
    assert(fenced_paths(list@) =~= Seq::empty());
    for i in 0..n
        invariant
            state.wf(),
            n == found@.len(),
            n == state.operation_cgroups.keys().len(),
            fenced_paths(list@) == stale_places(
                state.operation_cgroups.keys(),
                state@.operation_cgroups,
                this_process@,
                found@,
                clock@,
                i as nat,
            ),
    {
        let ghost told = fenced_paths(list@);
        let fence = state.operation_cgroups.value_at(i);
        if is_fence_stale(fence, this_process, found[i], clock) {
            let path = state.operation_cgroups.key_at(i);
            let entry = (path.clone(), copy_fence(fence));
            list.push(entry);
            assert(fenced_paths(list@) =~= told.push((path@, fence@)));
        }
    }
    list
}

/// The first error of several.
pub fn first_error(kept: Option<String>, error: String) -> (first: Option<String>)
    ensures
        first is Some,
        first->0@ == match kept {
            Some(k) => k@,
            None => error@,
        },
{
    match kept {
        Some(k) => Some(k),
        None => Some(error),
    }
}

/// Recovery never takes a record from a process that may still be at work on it,
/// never gives a handle back for use, and leaves what has ended alone.
pub proof fn law_recovery_is_cautious(record: RecordModel, reading: Reading)
    ensures
        in_flight(record.status) && reading.lease != LeaseLiveness::Expired ==> recovered(
            record,
            reading,
        ) == record,
        recovered(record, reading) == record || recovered(record, reading).status
            == LifecycleStatus::CleanupPending,
        terminal(record.status) ==> recovered(record, reading) == record,
        in_flight(record.status) && reading.lease == LeaseLiveness::Expired ==> recovered(
            record,
            reading,
        ).cleanup_target == Some(LifecycleStatus::Deleted),
{
}

/// The stale fences are listed with their paths, each as it stands.
pub proof fn law_stale_fences_are_listed(
    state: &State,
    this_process: &str,
    found: &Vec<ProcessLiveness>,
    clock: &Clock,
    list: Vec<(String, OperationCgroupFence)>,
)
    requires
        state.wf(),
        found@.len() == state@.operation_cgroups.len(),
        call_ensures(stale_operation_cgroups, (state, this_process, found, clock), list),
    ensures
        exists|places: Seq<int>| #[trigger]
            fences_at(
                fenced_paths(list@),
                state.operation_cgroups.keys(),
                state@.operation_cgroups,
                this_process@,
                found@,
                clock@,
                found@.len() as int,
                places,
            ),
{
    state.operation_cgroups.lemma_keys();
    law_abandoned_fences_are_found(
        state.operation_cgroups.keys(),
        state@.operation_cgroups,
        this_process@,
        found@,
        clock@,
        found@.len(),
    );
}

} // verus!
