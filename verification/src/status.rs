//! What is told of records: their metadata and nothing else.
use vstd::prelude::*;
use vstd::string::*;

use crate::clock::{expired, record_expired, Clock, ClockModel};
use crate::lifecycle::{text_fault, validate_text};
use crate::record::{
    copy_text, optional_text, status_name, LifecycleStatus, RecordModel, SecretRecord,
};
use crate::state::State;

verus! {

/// What is told of a record.
#[derive(Debug)]
pub struct PublicRecord {
    pub handle: String,
    pub target: String,
    pub label: String,
    pub created_at: u64,
    pub expires_at: u64,
    pub single_use: bool,
    pub status: String,
    pub last_error: Option<String>,
}

/// What is told of a record, as a value.
#[verifier::ext_equal]
pub struct PublicModel {
    pub handle: Seq<char>,
    pub target: Seq<char>,
    pub label: Seq<char>,
    pub created_at: u64,
    pub expires_at: u64,
    pub single_use: bool,
    pub status: Seq<char>,
    pub last_error: Option<Seq<char>>,
}

impl View for PublicRecord {
    type V = PublicModel;

    open spec fn view(&self) -> PublicModel {
        PublicModel {
            handle: self.handle@,
            target: self.target@,
            label: self.label@,
            created_at: self.created_at,
            expires_at: self.expires_at,
            single_use: self.single_use,
            status: self.status@,
            last_error: optional_text(self.last_error),
        }
    }
}

/// The status that is told: one whose time is up is told as expired before it is
/// cleaned up.
pub open spec fn status_told(record: RecordModel, clock: ClockModel) -> Seq<char> {
    if record.status == LifecycleStatus::Active && expired(record, clock) {
        "expired"@
    } else {
        status_name(record.status)
    }
}

/// What is told of a record.
pub open spec fn record_told(record: RecordModel, clock: ClockModel) -> PublicModel {
    PublicModel {
        handle: record.handle,
        target: record.target,
        label: record.label,
        created_at: record.created_at,
        expires_at: record.expires_at,
        single_use: record.single_use,
        status: status_told(record, clock),
        last_error: record.last_error,
    }
}

/// What is told of a record.
pub fn public_record(record: &SecretRecord, clock: &Clock) -> (public: PublicRecord)
    ensures
        public@ == record_told(record@, clock@),
{
    let status = if matches!(record.status, LifecycleStatus::Active) && record_expired(
        record,
        clock,
    ) {
        "expired"
    } else {
        record.status.name()
    };
    PublicRecord {
        handle: record.handle.clone(),
        target: record.target.clone(),
        label: record.label.clone(),
        created_at: record.created_at,
        expires_at: record.expires_at,
        single_use: record.single_use,
        status: status.to_owned(),
        last_error: copy_text(&record.last_error),
    }
}

/// What is told of one handle.
pub fn handle_status(state: &State, handle: &str, clock: &Clock) -> (result: Result<
    PublicRecord,
    String,
>)
    requires
        state.wf(),
    ensures
        match result {
            Ok(public) => text_fault(handle@, "handle"@) is None && state@.records.contains_key(
                handle@,
            ) && public@ == record_told(state@.records[handle@], clock@),
            Err(e) => match text_fault(handle@, "handle"@) {
                Some(fault) => e@ == fault,
                None => !state@.records.contains_key(handle@) && e@ == "unknown handle"@,
            },
        },
{
    match validate_text(handle, "handle") {
        Err(e) => Err(e),
        Ok(_) => match state.records.get(handle) {
            Some(record) => Ok(public_record(record, clock)),
            None => Err("unknown handle".to_owned()),
        },
    }
}

/// What is told of all handles, in the order of the handles.
pub fn list_status(state: &State, clock: &Clock) -> (list: Vec<PublicRecord>)
    requires
        state.wf(),
    ensures
        list@.len() == state@.records.len(),
        list@.len() == state.records.keys().len(),
        forall|i: int|
            0 <= i < list@.len() ==> #[trigger] list@[i]@ == record_told(
                state@.records[state.records.keys()[i]],
                clock@,
            ),
{
    let n: usize = state.records.len();
    let mut list: Vec<PublicRecord> = Vec::new();
    for i in 0..n
        invariant
            state.wf(),
            n == state.records.keys().len(),
            list@.len() == i,
            forall|j: int|
                0 <= j < i ==> #[trigger] list@[j]@ == record_told(
                    state@.records[state.records.keys()[j]],
                    clock@,
                ),
    {
        list.push(public_record(state.records.value_at(i), clock));
    }
    list
}

/// What is told of a record depends on nothing but its metadata: two records that
/// differ in their keyring account, claim, lease or helper are told alike.
pub proof fn law_status_tells_only_metadata(a: RecordModel, b: RecordModel, clock: ClockModel)
    requires
        a.handle == b.handle,
        a.target == b.target,
        a.label == b.label,
        a.created_at == b.created_at,
        a.expires_at == b.expires_at,
        a.expires_mono == b.expires_mono,
        a.expires_boot_id == b.expires_boot_id,
        a.single_use == b.single_use,
        a.status == b.status,
        a.last_error == b.last_error,
    ensures
        record_told(a, clock) == record_told(b, clock),
{
}

} // verus!
