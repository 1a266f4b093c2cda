//! The stored state: its records and fences, what older states become, and how
//! many records are kept.
use vstd::prelude::*;

use crate::clock::{next_generation, saturating_sum};
use crate::record::{
    terminal, FenceModel, LifecycleStatus, OperationCgroupFence, RecordModel, SecretRecord,
};
use crate::text::{
    lemma_text_order_is_strict, lemma_text_order_is_total, stands_before, text_before,
};
use crate::textmap::TextMap;

verus! {

/// The number of records that a state may hold.
pub const MAX_RECORDS: usize = 1024;

/// The number of fenced control groups that a state may hold.
pub const MAX_OPERATION_CGROUPS: usize = 1024;

/// The version in which states are written.
pub const CURRENT_STATE_SCHEMA_VERSION: u32 = 4;

/// The size of the state file, in bytes, beyond which it is not read.
pub const MAX_STATE_BYTES: u64 = 4 * 1024 * 1024;

/// All that is kept between two runs.
#[derive(Debug)]
pub struct State {
    pub schema_version: u32,
    pub records: TextMap<SecretRecord>,
    pub operation_cgroups: TextMap<OperationCgroupFence>,
    pub recovery_mode: bool,
}

/// What a state stands for.
#[verifier::ext_equal]
pub struct StateModel {
    pub schema_version: u32,
    pub records: Map<Seq<char>, RecordModel>,
    pub operation_cgroups: Map<Seq<char>, FenceModel>,
    pub recovery_mode: bool,
}

impl View for State {
    type V = StateModel;

    open spec fn view(&self) -> StateModel {
        StateModel {
            schema_version: self.schema_version,
            records: self.records@,
            operation_cgroups: self.operation_cgroups@,
            recovery_mode: self.recovery_mode,
        }
    }
}

impl State {
    /// Both maps are in order.
    pub open spec fn wf(&self) -> bool {
        self.records.wf() && self.operation_cgroups.wf()
    }
}

/// A state that holds nothing.
pub open spec fn empty_state() -> StateModel {
    StateModel {
        schema_version: CURRENT_STATE_SCHEMA_VERSION,
        records: Map::empty(),
        operation_cgroups: Map::empty(),
        recovery_mode: false,
    }
}

impl Default for State {
    fn default() -> (state: Self)
        ensures
            state.wf(),
            state@ == empty_state(),
    {
        State {
            schema_version: CURRENT_STATE_SCHEMA_VERSION,
            records: TextMap::new(),
            operation_cgroups: TextMap::new(),
            recovery_mode: false,
        }
    }
}

/// The version of a state that names none.
pub fn legacy_state_schema_version() -> (version: u32)
    ensures
        version == 1,
{
    1
}

/// A record that nothing is left to be done for.
pub open spec fn removable(record: RecordModel) -> bool {
    terminal(record.status) && record.cleanup_target is None && record.claim_id is None
        && record.lease_owner is None && record.helper_pid is None
}

/// When the life of a record ended, as far as that is known.
pub open spec fn stamp(record: RecordModel) -> u64 {
    match record.consumed_at {
        Some(at) => at,
        None => record.created_at,
    }
}

/// Whether one record is dropped before another: the older one first, and of
/// two of one age the one whose handle stands first.
pub open spec fn dropped_before(
    a: Seq<char>,
    first: RecordModel,
    b: Seq<char>,
    second: RecordModel,
) -> bool {
    stamp(first) < stamp(second) || (stamp(first) == stamp(second) && text_before(a, b))
}

/// The removable record that is dropped before all others.
pub open spec fn oldest(records: Map<Seq<char>, RecordModel>, key: Seq<char>) -> bool {
    &&& records.contains_key(key)
    &&& removable(records[key])
    &&& forall|other: Seq<char>| #[trigger]
        records.contains_key(other) && removable(records[other]) && other != key
            ==> dropped_before(key, records[key], other, records[other])
}

/// What is left when the oldest removable records are dropped one by one, as
/// many of them as are to go and as there are.
pub open spec fn without_oldest(records: Map<Seq<char>, RecordModel>, count: nat) -> Map<
    Seq<char>,
    RecordModel,
>
    decreases count,
{
    if count == 0 || !(exists|key: Seq<char>| oldest(records, key)) {
        records
    } else {
        without_oldest(
            records.remove(choose|key: Seq<char>| oldest(records, key)),
            (count - 1) as nat,
        )
    }
}

/// The records that are kept where there are too many: as many of the removable
/// ones are dropped as it takes to have room for one more.
pub open spec fn pruned(records: Map<Seq<char>, RecordModel>) -> Map<Seq<char>, RecordModel> {
    if records.len() < MAX_RECORDS {
        records
    } else {
        without_oldest(records, (records.len() - (MAX_RECORDS - 1)) as nat)
    }
}

/// A record whose control group cannot be told apart any more: what runs in it
/// is unknown, and the record is to be cleaned up.
pub open spec fn quarantined(record: RecordModel) -> RecordModel {
    if record.helper_cgroup is Some && record.helper_cgroup_identity is None {
        RecordModel {
            helper_descendants_unknown: true,
            status: LifecycleStatus::CleanupPending,
            cleanup_target: if record.cleanup_target is None {
                Some(LifecycleStatus::Deleted)
            } else {
                record.cleanup_target
            },
            claim_id: None,
            lease_owner: None,
            lease_expires_at: None,
            lease_expires_mono: None,
            lease_boot_id: None,
            helper_cgroup: None,
            helper_cgroup_identity: None,
            generation: next_generation(record.generation),
            ..record
        }
    } else {
        record
    }
}

/// A record of an older version: what had ended there has its keyring entry
/// cleaned up once more.
pub open spec fn upgraded(record: RecordModel) -> RecordModel {
    if terminal(record.status) {
        RecordModel {
            status: LifecycleStatus::CleanupPending,
            cleanup_target: Some(record.status),
            generation: next_generation(record.generation),
            ..record
        }
    } else if record.status == LifecycleStatus::CleanupPending && record.cleanup_target is None {
        RecordModel { cleanup_target: Some(LifecycleStatus::Consumed), ..record }
    } else {
        record
    }
}

/// What a stored record becomes when it is read.
pub open spec fn migrated_record(record: RecordModel, older: bool) -> RecordModel {
    if older {
        upgraded(quarantined(record))
    } else {
        quarantined(record)
    }
}

/// What the stored records become when they are read.
pub open spec fn migrated_records(records: Map<Seq<char>, RecordModel>, older: bool) -> Map<
    Seq<char>,
    RecordModel,
> {
    records.map_values(|record: RecordModel| migrated_record(record, older))
}

/// The fences that still name the control group they were taken on.
pub open spec fn identified(fences: Map<Seq<char>, FenceModel>) -> Map<Seq<char>, FenceModel> {
    fences.restrict(fences.dom().filter(|path: Seq<char>| fences[path].identity is Some))
}

/// What a stored state becomes when it is read.
pub open spec fn migrated(state: StateModel) -> StateModel {
    let older = state.schema_version != CURRENT_STATE_SCHEMA_VERSION;
    let records = migrated_records(state.records, older);
    if older {
        StateModel {
            schema_version: CURRENT_STATE_SCHEMA_VERSION,
            records: pruned(records),
            operation_cgroups: identified(state.operation_cgroups),
            recovery_mode: pruned(records).len() > MAX_RECORDS,
        }
    } else {
        StateModel { records, operation_cgroups: identified(state.operation_cgroups), ..state }
    }
}

fn is_removable(record: &SecretRecord) -> (r: bool)
    ensures
        r == removable(record@),
{
    record.status.is_terminal() && record.cleanup_target.is_none() && record.claim_id.is_none()
        && record.lease_owner.is_none() && record.helper_pid.is_none()
}

fn stamp_of(record: &SecretRecord) -> (at: u64)
    ensures
        at == stamp(record@),
{
    match record.consumed_at {
        Some(at) => at,
        None => record.created_at,
    }
}

fn is_dropped_before(a: &str, first: &SecretRecord, b: &str, second: &SecretRecord) -> (r: bool)
    ensures
        r == dropped_before(a@, first@, b@, second@),
{
    let one: u64 = stamp_of(first);
    let other: u64 = stamp_of(second);
    one < other || (one == other && stands_before(a, b))
}

/// No two records are each dropped before the other.
proof fn lemma_oldest_is_unique(records: Map<Seq<char>, RecordModel>, a: Seq<char>, b: Seq<char>)
    requires
        oldest(records, a),
        oldest(records, b),
    ensures
        a == b,
{
    if a != b {
        lemma_text_order_is_strict(a, b, a);
        lemma_text_order_is_strict(a, a, a);
    }
}

/// The place of the removable record that is dropped before all others.
fn oldest_place(records: &TextMap<SecretRecord>) -> (place: Option<usize>)
    requires
        records.wf(),
    ensures
        match place {
            Some(i) => i < records.keys().len() && oldest(records@, records.keys()[i as int]),
            None => forall|key: Seq<char>| #[trigger]
                records@.contains_key(key) ==> !removable(records@[key]),
        },
{
    let n: usize = records.len();
    let mut place: Option<usize> = None;
    for i in 0..n
        invariant
            records.wf(),
            n == records.keys().len(),
            place matches Some(p) ==> p < i && removable(records@[records.keys()[p as int]]),
            place matches Some(p) ==> forall|j: int|
                0 <= j < i && j != p && removable(records@[#[trigger] records.keys()[j]])
                    ==> dropped_before(
                    records.keys()[p as int],
                    records@[records.keys()[p as int]],
                    records.keys()[j],
                    records@[records.keys()[j]],
                ),
            place is None ==> forall|j: int|
                0 <= j < i ==> !removable(records@[#[trigger] records.keys()[j]]),
    {
        let ghost keys = records.keys();
        let record = records.value_at(i);
        if is_removable(record) {
            match place {
                None => {
                    place = Some(i);
                },
                Some(p) => {
                    let key = records.key_at(i);
                    let best_key = records.key_at(p);
                    let best = records.value_at(p);
                    proof {
                        records.lemma_keys();
                        lemma_text_order_is_total(key@, best_key@);
                        lemma_text_order_is_strict(key@, key@, key@);
                    }
                    if is_dropped_before(key.as_str(), record, best_key.as_str(), best) {
                        proof {
                            assert forall|j: int|
                                0 <= j < i + 1 && j != i && removable(
                                    records@[#[trigger] records.keys()[j]],
                                ) implies dropped_before(
                                keys[i as int],
                                records@[keys[i as int]],
                                keys[j],
                                records@[keys[j]],
                            ) by {
                                if j != p {
                                    lemma_text_order_is_strict(key@, best_key@, keys[j]);
                                }
                            }
                        }
                        place = Some(i);
                    }
                },
            }
        }
    }
    proof {
        records.lemma_keys();
        assert forall|key: Seq<char>| #[trigger] records@.contains_key(key) implies exists|j: int|
            0 <= j < n && #[trigger] records.keys()[j] == key by {
            assert(records.keys().contains(key));
        }
    }
    place
}

/// Drops the oldest removable records where there are too many records.
pub fn prune_terminal_records(state: &mut State)
    requires
        old(state).wf(),
    ensures
        final(state).wf(),
        final(state)@ == (StateModel { records: pruned(old(state)@.records), ..old(state)@ }),
{
    if state.records.len() < MAX_RECORDS {
        return ;
    }
    let mut count: usize = state.records.len() - (MAX_RECORDS - 1);
    let ghost all = state@.records;
    let ghost before = state@;
    while count > 0
        invariant
            state.wf(),
            without_oldest(state@.records, count as nat) == pruned(all),
            state@ == (StateModel { records: state@.records, ..before }),
        ensures
            state@.records == pruned(all),
        decreases count,
    {
        match oldest_place(&state.records) {
            None => {
                assert(!(exists|key: Seq<char>| oldest(state@.records, key)));
                break;
            },
            Some(i) => {
                proof {
                    let key = state.records.keys()[i as int];
                    assert(oldest(state@.records, key));
                    let chosen = choose|k: Seq<char>| oldest(state@.records, k);
                    lemma_oldest_is_unique(state@.records, key, chosen);
                }
                state.records.remove_at(i);
                count = count - 1;
            },
        }
    }
}

/// Makes room for one more record.
pub fn ensure_capture_capacity(state: &mut State) -> (result: Result<(), String>)
    requires
        old(state).wf(),
    ensures
        final(state).wf(),
        final(state)@ == (StateModel { records: pruned(old(state)@.records), ..old(state)@ }),
        match result {
            Ok(_) => pruned(old(state)@.records).len() < MAX_RECORDS,
            Err(e) => pruned(old(state)@.records).len() >= MAX_RECORDS && e@
                == "secret handle capacity has been reached"@,
        },
{
    prune_terminal_records(state);
    if state.records.len() >= MAX_RECORDS {
        return Err("secret handle capacity has been reached".to_owned());
    }
    Ok(())
}

fn quarantine(record: &mut SecretRecord)
    ensures
        final(record)@ == quarantined(old(record)@),
{
    if record.helper_cgroup.is_some() && record.helper_cgroup_identity.is_none() {
        record.helper_descendants_unknown = true;
        record.status = LifecycleStatus::CleanupPending;
        if record.cleanup_target.is_none() {
            record.cleanup_target = Some(LifecycleStatus::Deleted);
        }
        record.claim_id = None;
        record.lease_owner = None;
        record.lease_expires_at = None;
        record.lease_expires_mono = None;
        record.lease_boot_id = None;
        record.helper_cgroup = None;
        record.helper_cgroup_identity = None;
        record.generation = saturating_sum(record.generation, 1);
    }
}

fn upgrade(record: &mut SecretRecord)
    ensures
        final(record)@ == upgraded(old(record)@),
{
    if record.status.is_terminal() {
        let target = record.status;
        record.status = LifecycleStatus::CleanupPending;
        record.cleanup_target = Some(target);
        record.generation = saturating_sum(record.generation, 1);
    } else if matches!(record.status, LifecycleStatus::CleanupPending)
        && record.cleanup_target.is_none() {
        record.cleanup_target = Some(LifecycleStatus::Consumed);
    }
}

fn migrate_records(records: &mut TextMap<SecretRecord>, older: bool)
    requires
        old(records).wf(),
    ensures
        final(records).wf(),
        final(records)@ == migrated_records(old(records)@, older),
{
    let n: usize = records.len();
    let ghost before = records@;
    let ghost keys = records.keys();
    proof {
        records.lemma_keys();
    }
    for i in 0..n
        invariant
            records.wf(),
            records.keys() == keys,
            n == keys.len(),
            keys.no_duplicates(),
            records@.dom() == before.dom(),
            forall|j: int|
                0 <= j < n ==> before.contains_key(#[trigger] keys[j]) && records@[keys[j]]
                    == if j < i {
                    migrated_record(before[keys[j]], older)
                } else {
                    before[keys[j]]
                },
    {
        let ghost current = records@;
        let record = records.value_at_mut(i);
        quarantine(record);
        if older {
            upgrade(record);
        }
        assert(records@ == current.insert(
            keys[i as int],
            migrated_record(before[keys[i as int]], older),
        ));
        assert(records@.dom() =~= before.dom());
    }
    proof {
        records.lemma_keys();
        assert forall|key: Seq<char>| #[trigger] records@.contains_key(key) implies records@[key]
            == migrated_record(before[key], older) by {
            let j = keys.index_of(key);
            assert(keys[j] == key);
        }
        assert(records@ =~= migrated_records(before, older));
    }
}

fn keep_identified(fences: &mut TextMap<OperationCgroupFence>)
    requires
        old(fences).wf(),
    ensures
        final(fences).wf(),
        final(fences)@ == identified(old(fences)@),
{
    let ghost before = fences@;
    let ghost keys = fences.keys();
    proof {
        fences.lemma_keys();
    }
    let mut i: usize = fences.len();
    while i > 0
        invariant
            fences.wf(),
            i <= fences.keys().len(),
            i <= keys.len(),
            keys.no_duplicates(),
            forall|k: Seq<char>| #[trigger] before.contains_key(k) <==> keys.contains(k),
            fences.keys().take(i as int) == keys.take(i as int),
            forall|k: Seq<char>| #[trigger]
                fences@.contains_key(k) ==> before.contains_key(k) && fences@[k] == before[k],
            forall|j: int|
                0 <= j < keys.len() ==> (fences@.contains_key(#[trigger] keys[j]) <==> j < i
                    || before[keys[j]].identity is Some),
        decreases i,
    {
        i = i - 1;
        assert(fences.keys()[i as int] == keys[i as int]) by {
            assert(fences.keys().take(i + 1)[i as int] == keys.take(i + 1)[i as int]);
        }
        assert(fences@.contains_key(keys[i as int]));
        let ghost earlier = fences.keys();
        assert(earlier.take(i as int) =~= earlier.take(i + 1).take(i as int));
        assert(keys.take(i as int) =~= keys.take(i + 1).take(i as int));
        if fences.value_at(i).identity.is_none() {
            fences.remove_at(i);
            assert(fences.keys().take(i as int) =~= earlier.take(i as int));
        }
    }
    proof {
        assert forall|k: Seq<char>| #[trigger] identified(before).contains_key(k) implies fences@.contains_key(k) by {
            let j = keys.index_of(k);
            assert(keys[j] == k);
        }
        assert forall|k: Seq<char>| #[trigger] fences@.contains_key(k) implies identified(before).contains_key(k) by {
            let j = keys.index_of(k);
            assert(keys[j] == k);
        }
        assert(fences@ =~= identified(before));
    }
}

/// Brings a stored state up to the current version.
pub fn migrate_legacy_state(state: &mut State)
    requires
        old(state).wf(),
    ensures
        final(state).wf(),
        final(state)@ == migrated(old(state)@),
{
    let older = state.schema_version != CURRENT_STATE_SCHEMA_VERSION;
    migrate_records(&mut state.records, older);
    keep_identified(&mut state.operation_cgroups);
    if older {
        state.schema_version = CURRENT_STATE_SCHEMA_VERSION;
        prune_terminal_records(state);
        state.recovery_mode = state.records.len() > MAX_RECORDS;
    }
}

/// The records that may be dropped.
pub open spec fn removable_keys(records: Map<Seq<char>, RecordModel>) -> Set<Seq<char>> {
    records.dom().filter(|key: Seq<char>| removable(records[key]))
}

/// One of the candidates is dropped before all others of them.
pub open spec fn first_of(
    records: Map<Seq<char>, RecordModel>,
    candidates: Set<Seq<char>>,
    key: Seq<char>,
) -> bool {
    &&& candidates.contains(key)
    &&& forall|other: Seq<char>| #[trigger]
        candidates.contains(other) && other != key ==> dropped_before(
            key,
            records[key],
            other,
            records[other],
        )
}

proof fn lemma_first_exists(records: Map<Seq<char>, RecordModel>, candidates: Set<Seq<char>>)
    requires
        candidates.finite(),
        candidates.len() > 0,
    ensures
        exists|key: Seq<char>| first_of(records, candidates, key),
    decreases candidates.len(),
{
    let a = candidates.choose();
    let rest = candidates.remove(a);
    assert(candidates.contains(a));
    if rest.len() == 0 {
        assert forall|other: Seq<char>| #[trigger] candidates.contains(other) implies other == a by {
            if other != a {
                assert(rest.contains(other));
                vstd::set_lib::lemma_set_empty_equivalency_len(rest);
            }
        }
        assert(first_of(records, candidates, a));
    } else {
        lemma_first_exists(records, rest);
        let b = choose|key: Seq<char>| first_of(records, rest, key);
        lemma_text_order_is_total(a, b);
        if dropped_before(a, records[a], b, records[b]) {
            assert forall|other: Seq<char>| #[trigger] candidates.contains(other) && other
                != a implies dropped_before(a, records[a], other, records[other]) by {
                assert(rest.contains(other));
                if other != b {
                    lemma_text_order_is_strict(a, b, other);
                }
            }
            assert(first_of(records, candidates, a));
        } else {
            assert forall|other: Seq<char>| #[trigger] candidates.contains(other) && other
                != b implies dropped_before(b, records[b], other, records[other]) by {
                if other != a {
                    assert(rest.contains(other));
                }
            }
            assert(first_of(records, candidates, b));
        }
    }
}

/// Where a record may be dropped, one is dropped before all others.
proof fn lemma_oldest_exists(records: Map<Seq<char>, RecordModel>, some: Seq<char>)
    requires
        records.dom().finite(),
        records.contains_key(some),
        removable(records[some]),
    ensures
        exists|key: Seq<char>| oldest(records, key),
{
    let candidates = removable_keys(records);
    assert(candidates.contains(some));
    vstd::set_lib::lemma_set_empty_equivalency_len(candidates);
    lemma_first_exists(records, candidates);
    let key = choose|key: Seq<char>| first_of(records, candidates, key);
    assert forall|other: Seq<char>| #[trigger] records.contains_key(other) && removable(
        records[other],
    ) && other != key implies dropped_before(key, records[key], other, records[other]) by {
        assert(candidates.contains(other));
    }
    assert(oldest(records, key));
}

/// What dropping the oldest removable records keeps and drops.
proof fn lemma_without_oldest(records: Map<Seq<char>, RecordModel>, count: nat)
    requires
        records.dom().finite(),
    ensures
        ({
            let kept = without_oldest(records, count);
            &&& kept.dom().finite()
            &&& forall|key: Seq<char>| #[trigger]
                kept.contains_key(key) ==> records.contains_key(key) && kept[key] == records[key]
            &&& forall|key: Seq<char>| #[trigger]
                records.contains_key(key) && !kept.contains_key(key) ==> removable(records[key])
            &&& forall|gone: Seq<char>, left: Seq<char>| #[trigger]
                records.contains_key(gone) && !kept.contains_key(gone)
                    && #[trigger] kept.contains_key(left) && removable(records[left])
                    ==> dropped_before(gone, records[gone], left, records[left])
            &&& kept.len() + count >= records.len()
            &&& kept.len() + count == records.len() || forall|key: Seq<char>| #[trigger]
                kept.contains_key(key) ==> !removable(kept[key])
        }),
    decreases count,
{
    if count == 0 || !(exists|key: Seq<char>| oldest(records, key)) {
        if count > 0 {
            assert forall|key: Seq<char>| #[trigger] records.contains_key(key) implies !removable(
                records[key],
            ) by {
                if removable(records[key]) {
                    lemma_oldest_exists(records, key);
                }
            }
        }
    } else {
        let first = choose|key: Seq<char>| oldest(records, key);
        let rest = records.remove(first);
        lemma_without_oldest(rest, (count - 1) as nat);
        let kept = without_oldest(records, count);
        assert(kept == without_oldest(rest, (count - 1) as nat));
        assert forall|gone: Seq<char>, left: Seq<char>| #[trigger]
            records.contains_key(gone) && !kept.contains_key(gone) && #[trigger] kept.contains_key(
                left,
            ) && removable(records[left]) implies dropped_before(
            gone,
            records[gone],
            left,
            records[left],
        ) by {
            assert(rest.contains_key(left));
            assert(records.contains_key(left));
            if gone != first {
                assert(rest.contains_key(gone));
            }
        }
        assert forall|key: Seq<char>| #[trigger]
            records.contains_key(key) && !kept.contains_key(key) implies removable(records[key]) by {
            if key != first {
                assert(rest.contains_key(key));
            }
        }
        assert forall|key: Seq<char>| #[trigger] kept.contains_key(key) implies records.contains_key(
            key,
        ) && kept[key] == records[key] by {
            assert(rest.contains_key(key));
        }
    }
}

/// Pruning never touches a record that is still in use, never drops a record
/// while an older one stays, drops no more than it takes to have room for one
/// more record, and gives up only when nothing is left that may be dropped.
pub proof fn law_pruning_keeps_what_is_in_use(records: Map<Seq<char>, RecordModel>)
    requires
        records.dom().finite(),
    ensures
        ({
            let kept = pruned(records);
            &&& forall|key: Seq<char>| #[trigger]
                kept.contains_key(key) ==> records.contains_key(key) && kept[key] == records[key]
            &&& forall|key: Seq<char>| #[trigger]
                records.contains_key(key) && !kept.contains_key(key) ==> removable(records[key])
            &&& forall|gone: Seq<char>, left: Seq<char>| #[trigger]
                records.contains_key(gone) && !kept.contains_key(gone)
                    && #[trigger] kept.contains_key(left) && removable(records[left])
                    ==> dropped_before(gone, records[gone], left, records[left])
            &&& records.len() < MAX_RECORDS ==> kept == records
            &&& records.len() >= MAX_RECORDS ==> kept.len() >= MAX_RECORDS - 1
            &&& kept.len() >= MAX_RECORDS ==> forall|key: Seq<char>| #[trigger]
                kept.contains_key(key) ==> !removable(kept[key])
        }),
{
    if records.len() >= MAX_RECORDS {
        lemma_without_oldest(records, (records.len() - (MAX_RECORDS - 1)) as nat);
    }
}

/// Pruning keeps all records where there is room for one more; where there is none,
/// it keeps as many as leave room for one more, or all that are in use if they
/// are more than that.
pub proof fn law_pruning_keeps_as_many_as_it_can(records: Map<Seq<char>, RecordModel>)
    requires
        records.dom().finite(),
    ensures
        ({
            let kept = pruned(records).len();
            let in_use = records.len() - removable_keys(records).len();
            &&& records.len() < MAX_RECORDS ==> kept == records.len()
            &&& records.len() >= MAX_RECORDS ==> kept == if in_use > MAX_RECORDS - 1 {
                in_use
            } else {
                MAX_RECORDS - 1
            }
        }),
{
    let kept = pruned(records);
    let gone = removable_keys(records);
    let used = records.dom().difference(gone);
    vstd::set_lib::lemma_set_disjoint_lens(used, gone);
    assert(used + gone =~= records.dom());
    if records.len() >= MAX_RECORDS {
        lemma_without_oldest(records, (records.len() - (MAX_RECORDS - 1)) as nat);
        assert(used.subset_of(kept.dom())) by {
            assert forall|key: Seq<char>| used.contains(key) implies kept.dom().contains(key) by {
                assert(records.contains_key(key));
                if !kept.contains_key(key) {
                    assert(removable(records[key]));
                }
            }
        }
        vstd::set_lib::lemma_len_subset(used, kept.dom());
        if kept.len() > MAX_RECORDS - 1 {
            assert(kept.dom() =~= used);
        }
    }
}

/// Pruning what was pruned changes nothing.
pub proof fn law_pruning_is_idempotent(records: Map<Seq<char>, RecordModel>)
    requires
        records.dom().finite(),
    ensures
        pruned(pruned(records)) == pruned(records),
{
    if records.len() >= MAX_RECORDS {
        lemma_without_oldest(records, (records.len() - (MAX_RECORDS - 1)) as nat);
    }
}

/// A capture is refused for want of room only where as many records as may be
/// kept are all still in use.
pub proof fn law_capacity_is_lost_only_to_records_in_use(records: Map<Seq<char>, RecordModel>)
    requires
        records.dom().finite(),
    ensures
        pruned(records).len() >= MAX_RECORDS <==> records.dom().difference(
            removable_keys(records),
        ).len() >= MAX_RECORDS,
{
    law_pruning_keeps_what_is_in_use(records);
    let kept = pruned(records);
    let used = records.dom().difference(removable_keys(records));
    if records.len() >= MAX_RECORDS {
        lemma_without_oldest(records, (records.len() - (MAX_RECORDS - 1)) as nat);
    }
    assert(used.subset_of(kept.dom())) by {
        assert forall|key: Seq<char>| used.contains(key) implies kept.dom().contains(key) by {
            assert(records.contains_key(key));
            if !kept.contains_key(key) {
                assert(removable(records[key]));
            }
        }
    }
    vstd::set_lib::lemma_len_subset(used, kept.dom());
    if kept.len() >= MAX_RECORDS {
        assert(kept.dom() =~= used);
    }
}

/// Reading a state that was read before changes nothing.
pub proof fn law_migration_is_idempotent(state: StateModel)
    ensures
        migrated(migrated(state)) == migrated(state),
{
    let once = migrated(state);
    let twice = migrated(once);
    assert(once.schema_version == CURRENT_STATE_SCHEMA_VERSION);
    assert forall|key: Seq<char>| once.records.contains_key(key) implies quarantined(
        once.records[key],
    ) == once.records[key] by {
        lemma_records_are_quarantined(state, key);
    }
    assert(twice.records =~= once.records);
    assert(twice.operation_cgroups =~= once.operation_cgroups);
}

/// Reading a state loses none of its records, whatever its version and however many
/// they are.
pub proof fn law_migration_loses_no_record(state: StateModel)
    ensures
        migrated(state).records.dom() == state.records.dom(),
        forall|key: Seq<char>| #[trigger]
            state.records.contains_key(key) ==> migrated(state).records[key] == migrated_record(
                state.records[key],
                state.schema_version != CURRENT_STATE_SCHEMA_VERSION,
            ),
{
    let older = state.schema_version != CURRENT_STATE_SCHEMA_VERSION;
    let records = migrated_records(state.records, older);
    assert(records.dom() =~= state.records.dom());
    if older {
        assert forall|key: Seq<char>| #[trigger] records.contains_key(key) implies !removable(
            records[key],
        ) by {
            assert(records[key] == migrated_record(state.records[key], true));
        }
        assert(!exists|key: Seq<char>| oldest(records, key));
    }
}

proof fn lemma_records_are_quarantined(state: StateModel, key: Seq<char>)
    requires
        migrated(state).records.contains_key(key),
    ensures
        quarantined(migrated(state).records[key]) == migrated(state).records[key],
{
    let older = state.schema_version != CURRENT_STATE_SCHEMA_VERSION;
    let records = migrated_records(state.records, older);
    if older && records.len() >= MAX_RECORDS {
        lemma_without_oldest_is_part(records, (records.len() - (MAX_RECORDS - 1)) as nat, key);
    }
    assert(records.contains_key(key));
}

proof fn lemma_without_oldest_is_part(
    records: Map<Seq<char>, RecordModel>,
    count: nat,
    key: Seq<char>,
)
    ensures
        without_oldest(records, count).contains_key(key) ==> records.contains_key(key)
            && without_oldest(records, count)[key] == records[key],
    decreases count,
{
    if count > 0 && exists|k: Seq<char>| oldest(records, k) {
        let first = choose|k: Seq<char>| oldest(records, k);
        lemma_without_oldest_is_part(records.remove(first), (count - 1) as nat, key);
    }
}

/// What an older state holds as ended has its cleanup done again, and no record
/// of it is handed out as one whose processes are known when they are not.
pub proof fn law_legacy_records_are_cleaned_up_again(record: RecordModel)
    ensures
        terminal(record.status) ==> migrated_record(record, true).status
            == LifecycleStatus::CleanupPending,
        terminal(record.status) && quarantined(record) == record ==> migrated_record(
            record,
            true,
        ).cleanup_target == Some(record.status),
        migrated_record(record, true).status == LifecycleStatus::CleanupPending ==> migrated_record(
            record,
            true,
        ).cleanup_target is Some,
        record.helper_cgroup is Some && record.helper_cgroup_identity is None ==> migrated_record(
            record,
            false,
        ).helper_descendants_unknown && migrated_record(record, false).status
            == LifecycleStatus::CleanupPending,
{
}

/// A state without a file holds nothing, and a state that names no version has the first
/// one. What is read is of the current version: of a state of that version nothing
/// changes but what its records and fences become; of an older one as many records are
/// dropped as may be, and it is in recovery mode exactly if more than may be held are left.
pub proof fn law_states_are_brought_up_to_date(state: StateModel, empty: State, version: u32)
    requires
        call_ensures(<State as Default>::default, (), empty),
        call_ensures(legacy_state_schema_version, (), version),
    ensures
        empty@.schema_version == 4,
        empty@.records.len() == 0 && empty@.operation_cgroups.len() == 0 && !empty@.recovery_mode,
        version == 1,
        migrated(state).schema_version == 4,
        forall|path: Seq<char>| #[trigger]
            migrated(state).operation_cgroups.contains_key(path) <==> (
            state.operation_cgroups.contains_key(path)
                && state.operation_cgroups[path].identity is Some),
        forall|path: Seq<char>| #[trigger]
            migrated(state).operation_cgroups.contains_key(path) ==> migrated(
                state,
            ).operation_cgroups[path] == state.operation_cgroups[path],
        state.schema_version == 4 ==> migrated(state).recovery_mode == state.recovery_mode && (
        forall|key: Seq<char>| #[trigger]
            migrated(state).records.contains_key(key) <==> state.records.contains_key(key)) && (
        forall|key: Seq<char>| #[trigger]
            state.records.contains_key(key) ==> migrated(state).records[key] == migrated_record(
                state.records[key],
                false,
            )),
        state.schema_version != 4 ==> migrated(state).records == pruned(
            state.records.map_values(|record: RecordModel| migrated_record(record, true)),
        ) && migrated(state).recovery_mode == (migrated(state).records.len() > 1024),
{
}

/// A stored state is brought up to date as its law says.
pub proof fn law_stored_states_are_brought_up_to_date(state: State)
    ensures
        forall|stored: &mut State| #[trigger]
            call_ensures(migrate_legacy_state, (stored,), ()) ==> final(stored)@ == migrated(
                stored@,
            ),
{
}

} // verus!
