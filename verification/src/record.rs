//! Secret records, the fences and claims that are taken on them, and the
//! models that the contracts speak of.
use vstd::prelude::*;

use crate::text::same_text;

verus! {

/// Device and inode of a directory or file: what a path named when it was
/// recorded.
#[derive(Debug, Clone, Copy, PartialEq, Eq, Structural)]
pub struct CgroupIdentity {
    pub dev: u64,
    pub ino: u64,
}

/// Where a record stands in its life.
#[derive(Debug, Clone, Copy, PartialEq, Eq, Structural)]
pub enum LifecycleStatus {
    Provisioning,
    Active,
    Claimed,
    Running,
    CleanupPending,
    Consumed,
    Deleted,
    Expired,
    Revoked,
}

impl Default for LifecycleStatus {
    fn default() -> (status: Self)
        ensures
            status == LifecycleStatus::Active,
    {
        LifecycleStatus::Active
    }
}

/// The name under which a status is stored and reported.
pub open spec fn status_name(status: LifecycleStatus) -> Seq<char> {
    match status {
        LifecycleStatus::Provisioning => "provisioning"@,
        LifecycleStatus::Active => "active"@,
        LifecycleStatus::Claimed => "claimed"@,
        LifecycleStatus::Running => "running"@,
        LifecycleStatus::CleanupPending => "cleanup_pending"@,
        LifecycleStatus::Consumed => "consumed"@,
        LifecycleStatus::Deleted => "deleted"@,
        LifecycleStatus::Expired => "expired"@,
        LifecycleStatus::Revoked => "revoked"@,
    }
}

/// The status that a stored name stands for. `consuming` is what older states
/// call a pending cleanup.
pub open spec fn status_named(name: Seq<char>) -> Option<LifecycleStatus> {
    if name == "provisioning"@ {
        Some(LifecycleStatus::Provisioning)
    } else if name == "active"@ {
        Some(LifecycleStatus::Active)
    } else if name == "claimed"@ {
        Some(LifecycleStatus::Claimed)
    } else if name == "running"@ {
        Some(LifecycleStatus::Running)
    } else if name == "consuming"@ || name == "cleanup_pending"@ {
        Some(LifecycleStatus::CleanupPending)
    } else if name == "consumed"@ {
        Some(LifecycleStatus::Consumed)
    } else if name == "deleted"@ {
        Some(LifecycleStatus::Deleted)
    } else if name == "expired"@ {
        Some(LifecycleStatus::Expired)
    } else if name == "revoked"@ {
        Some(LifecycleStatus::Revoked)
    } else {
        None
    }
}

/// The life of a record has ended: nothing of it is left to clean up.
pub open spec fn terminal(status: LifecycleStatus) -> bool {
    status == LifecycleStatus::Consumed || status == LifecycleStatus::Deleted || status
        == LifecycleStatus::Expired
}

/// A process is at work on the record under a lease.
pub open spec fn in_flight(status: LifecycleStatus) -> bool {
    status == LifecycleStatus::Provisioning || status == LifecycleStatus::Claimed || status
        == LifecycleStatus::Running
}

impl LifecycleStatus {
    /// The name under which the status is stored and reported.
    pub fn name(self) -> (name: &'static str)
        ensures
            name@ == status_name(self),
    {
        match self {
            LifecycleStatus::Provisioning => "provisioning",
            LifecycleStatus::Active => "active",
            LifecycleStatus::Claimed => "claimed",
            LifecycleStatus::Running => "running",
            LifecycleStatus::CleanupPending => "cleanup_pending",
            LifecycleStatus::Consumed => "consumed",
            LifecycleStatus::Deleted => "deleted",
            LifecycleStatus::Expired => "expired",
            LifecycleStatus::Revoked => "revoked",
        }
    }

    /// The status that a stored name stands for.
    pub fn from_name(name: &str) -> (status: Result<LifecycleStatus, String>)
        ensures
            match status {
                Ok(s) => status_named(name@) == Some(s),
                Err(e) => status_named(name@) is None && e@ == "unknown lifecycle status"@,
            },
    {
        if same_text(name, "provisioning") {
            Ok(LifecycleStatus::Provisioning)
        } else if same_text(name, "active") {
            Ok(LifecycleStatus::Active)
        } else if same_text(name, "claimed") {
            Ok(LifecycleStatus::Claimed)
        } else if same_text(name, "running") {
            Ok(LifecycleStatus::Running)
        } else if same_text(name, "consuming") || same_text(name, "cleanup_pending") {
            Ok(LifecycleStatus::CleanupPending)
        } else if same_text(name, "consumed") {
            Ok(LifecycleStatus::Consumed)
        } else if same_text(name, "deleted") {
            Ok(LifecycleStatus::Deleted)
        } else if same_text(name, "expired") {
            Ok(LifecycleStatus::Expired)
        } else if same_text(name, "revoked") {
            Ok(LifecycleStatus::Revoked)
        } else {
            Err("unknown lifecycle status".to_owned())
        }
    }

    /// Whether the life of the record has ended.
    pub fn is_terminal(self) -> (r: bool)
        ensures
            r == terminal(self),
    {
        matches!(
            self,
            LifecycleStatus::Consumed | LifecycleStatus::Deleted | LifecycleStatus::Expired
        )
    }

    /// Whether a process is at work on the record under a lease.
    pub fn is_in_flight(self) -> (r: bool)
        ensures
            r == in_flight(self),
    {
        matches!(
            self,
            LifecycleStatus::Provisioning | LifecycleStatus::Claimed | LifecycleStatus::Running
        )
    }
}

/// A stored status name is read back as the status that was stored.
pub proof fn law_status_names_round_trip(status: LifecycleStatus)
    ensures
        status_named(status_name(status)) == Some(status),
{
    reveal_strlit("provisioning");
    reveal_strlit("active");
    reveal_strlit("claimed");
    reveal_strlit("running");
    reveal_strlit("consuming");
    reveal_strlit("cleanup_pending");
    reveal_strlit("consumed");
    reveal_strlit("deleted");
    reveal_strlit("expired");
    reveal_strlit("revoked");
    assert("provisioning"@.len() == 12 && "active"@.len() == 6 && "consuming"@.len() == 9);
    assert("cleanup_pending"@.len() == 15 && "consumed"@.len() == 8);
    assert("claimed"@.len() == 7 && "running"@.len() == 7 && "deleted"@.len() == 7);
    assert("expired"@.len() == 7 && "revoked"@.len() == 7);
    assert("claimed"@[0] == 'c' && "deleted"@[0] == 'd' && "expired"@[0] == 'e');
    assert("running"@[0] == 'r' && "revoked"@[0] == 'r');
    assert("running"@[1] == 'u' && "revoked"@[1] == 'e');
}

/// What an optional text stands for.
pub open spec fn optional_text(value: Option<String>) -> Option<Seq<char>> {
    match value {
        Some(text) => Some(text@),
        None => None,
    }
}

/// What is kept of one secret. The secret itself is not among it: it lies in the
/// keyring under `keyring_account`.
#[derive(Debug, Clone)]
pub struct SecretRecord {
    pub handle: String,
    pub target: String,
    pub label: String,
    pub created_at: u64,
    pub expires_at: u64,
    pub single_use: bool,
    pub status: LifecycleStatus,
    pub keyring_account: String,
    pub consumed_at: Option<u64>,
    pub claim_id: Option<String>,
    pub cleanup_target: Option<LifecycleStatus>,
    pub last_error: Option<String>,
    pub generation: u64,
    pub lease_owner: Option<String>,
    pub lease_expires_at: Option<u64>,
    pub lease_expires_mono: Option<u64>,
    pub lease_boot_id: Option<String>,
    pub expires_mono: Option<u64>,
    pub expires_boot_id: Option<String>,
    pub helper_pid: Option<u32>,
    pub helper_pgid: Option<i32>,
    pub helper_start_ticks: Option<u64>,
    pub helper_boot_id: Option<String>,
    pub helper_kind: Option<String>,
    pub helper_cgroup: Option<String>,
    pub helper_cgroup_identity: Option<CgroupIdentity>,
    pub cleanup_keyring_done: bool,
    pub helper_descendants_unknown: bool,
}

/// What a record stands for.
#[verifier::ext_equal]
pub struct RecordModel {
    pub handle: Seq<char>,
    pub target: Seq<char>,
    pub label: Seq<char>,
    pub created_at: u64,
    pub expires_at: u64,
    pub single_use: bool,
    pub status: LifecycleStatus,
    pub keyring_account: Seq<char>,
    pub consumed_at: Option<u64>,
    pub claim_id: Option<Seq<char>>,
    pub cleanup_target: Option<LifecycleStatus>,
    pub last_error: Option<Seq<char>>,
    pub generation: u64,
    pub lease_owner: Option<Seq<char>>,
    pub lease_expires_at: Option<u64>,
    pub lease_expires_mono: Option<u64>,
    pub lease_boot_id: Option<Seq<char>>,
    pub expires_mono: Option<u64>,
    pub expires_boot_id: Option<Seq<char>>,
    pub helper_pid: Option<u32>,
    pub helper_pgid: Option<i32>,
    pub helper_start_ticks: Option<u64>,
    pub helper_boot_id: Option<Seq<char>>,
    pub helper_kind: Option<Seq<char>>,
    pub helper_cgroup: Option<Seq<char>>,
    pub helper_cgroup_identity: Option<CgroupIdentity>,
    pub cleanup_keyring_done: bool,
    pub helper_descendants_unknown: bool,
}

impl View for SecretRecord {
    type V = RecordModel;

    open spec fn view(&self) -> RecordModel {
        RecordModel {
            handle: self.handle@,
            target: self.target@,
            label: self.label@,
            created_at: self.created_at,
            expires_at: self.expires_at,
            single_use: self.single_use,
            status: self.status,
            keyring_account: self.keyring_account@,
            consumed_at: self.consumed_at,
            claim_id: optional_text(self.claim_id),
            cleanup_target: self.cleanup_target,
            last_error: optional_text(self.last_error),
            generation: self.generation,
            lease_owner: optional_text(self.lease_owner),
            lease_expires_at: self.lease_expires_at,
            lease_expires_mono: self.lease_expires_mono,
            lease_boot_id: optional_text(self.lease_boot_id),
            expires_mono: self.expires_mono,
            expires_boot_id: optional_text(self.expires_boot_id),
            helper_pid: self.helper_pid,
            helper_pgid: self.helper_pgid,
            helper_start_ticks: self.helper_start_ticks,
            helper_boot_id: optional_text(self.helper_boot_id),
            helper_kind: optional_text(self.helper_kind),
            helper_cgroup: optional_text(self.helper_cgroup),
            helper_cgroup_identity: self.helper_cgroup_identity,
            cleanup_keyring_done: self.cleanup_keyring_done,
            helper_descendants_unknown: self.helper_descendants_unknown,
        }
    }
}

/// Who may work in a control group, and until when.
#[derive(Debug, Clone)]
pub struct OperationCgroupFence {
    pub owner: String,
    pub expires_at: u64,
    pub expires_mono: Option<u64>,
    pub boot_id: Option<String>,
    pub identity: Option<CgroupIdentity>,
}

/// What the fence of a control group stands for.
#[verifier::ext_equal]
pub struct FenceModel {
    pub owner: Seq<char>,
    pub expires_at: u64,
    pub expires_mono: Option<u64>,
    pub boot_id: Option<Seq<char>>,
    pub identity: Option<CgroupIdentity>,
}

impl View for OperationCgroupFence {
    type V = FenceModel;

    open spec fn view(&self) -> FenceModel {
        FenceModel {
            owner: self.owner@,
            expires_at: self.expires_at,
            expires_mono: self.expires_mono,
            boot_id: optional_text(self.boot_id),
            identity: self.identity,
        }
    }
}

/// The right to run one operation with a secret.
#[derive(Debug, Clone)]
pub struct RunClaim {
    pub handle: String,
    pub account: String,
    pub claim_id: String,
    pub single_use: bool,
    pub generation: u64,
}

/// What a claim stands for.
#[verifier::ext_equal]
pub struct ClaimModel {
    pub handle: Seq<char>,
    pub account: Seq<char>,
    pub claim_id: Seq<char>,
    pub single_use: bool,
    pub generation: u64,
}

impl View for RunClaim {
    type V = ClaimModel;

    open spec fn view(&self) -> ClaimModel {
        ClaimModel {
            handle: self.handle@,
            account: self.account@,
            claim_id: self.claim_id@,
            single_use: self.single_use,
            generation: self.generation,
        }
    }
}

/// What has to be cleaned up of a record, as the record stood at one generation.
#[derive(Debug, Clone)]
pub struct CleanupAction {
    pub handle: String,
    pub account: String,
    pub target: LifecycleStatus,
    pub generation: u64,
    pub helper_pid: Option<u32>,
    pub helper_pgid: Option<i32>,
    pub helper_start_ticks: Option<u64>,
    pub helper_boot_id: Option<String>,
    pub helper_cgroup: Option<String>,
    pub helper_cgroup_identity: Option<CgroupIdentity>,
    pub cleanup_keyring_done: bool,
    pub helper_descendants_unknown: bool,
}

/// What a cleanup stands for.
#[verifier::ext_equal]
pub struct ActionModel {
    pub handle: Seq<char>,
    pub account: Seq<char>,
    pub target: LifecycleStatus,
    pub generation: u64,
    pub helper_pid: Option<u32>,
    pub helper_pgid: Option<i32>,
    pub helper_start_ticks: Option<u64>,
    pub helper_boot_id: Option<Seq<char>>,
    pub helper_cgroup: Option<Seq<char>>,
    pub helper_cgroup_identity: Option<CgroupIdentity>,
    pub cleanup_keyring_done: bool,
    pub helper_descendants_unknown: bool,
}

impl View for CleanupAction {
    type V = ActionModel;

    open spec fn view(&self) -> ActionModel {
        ActionModel {
            handle: self.handle@,
            account: self.account@,
            target: self.target,
            generation: self.generation,
            helper_pid: self.helper_pid,
            helper_pgid: self.helper_pgid,
            helper_start_ticks: self.helper_start_ticks,
            helper_boot_id: optional_text(self.helper_boot_id),
            helper_cgroup: optional_text(self.helper_cgroup),
            helper_cgroup_identity: self.helper_cgroup_identity,
            cleanup_keyring_done: self.cleanup_keyring_done,
            helper_descendants_unknown: self.helper_descendants_unknown,
        }
    }
}

/// The identity of a helper process that works for a record.
#[derive(Debug, Clone)]
pub struct HelperFence {
    pub handle: String,
    pub pid: u32,
    pub pgid: i32,
    pub start_ticks: u64,
    pub boot_id: String,
    pub generation: u64,
    pub cgroup: Option<String>,
    pub cgroup_identity: Option<CgroupIdentity>,
}

/// What a helper fence stands for.
#[verifier::ext_equal]
pub struct HelperModel {
    pub handle: Seq<char>,
    pub pid: u32,
    pub pgid: i32,
    pub start_ticks: u64,
    pub boot_id: Seq<char>,
    pub generation: u64,
    pub cgroup: Option<Seq<char>>,
    pub cgroup_identity: Option<CgroupIdentity>,
}

impl View for HelperFence {
    type V = HelperModel;

    open spec fn view(&self) -> HelperModel {
        HelperModel {
            handle: self.handle@,
            pid: self.pid,
            pgid: self.pgid,
            start_ticks: self.start_ticks,
            boot_id: self.boot_id@,
            generation: self.generation,
            cgroup: optional_text(self.cgroup),
            cgroup_identity: self.cgroup_identity,
        }
    }
}

/// The record that a capture works on, as it stood at one generation.
#[derive(Debug, Clone)]
pub struct CaptureFence {
    pub handle: String,
    pub generation: u64,
}

/// What a capture fence stands for.
#[verifier::ext_equal]
pub struct CaptureFenceModel {
    pub handle: Seq<char>,
    pub generation: u64,
}

impl View for CaptureFence {
    type V = CaptureFenceModel;

    open spec fn view(&self) -> CaptureFenceModel {
        CaptureFenceModel {
            handle: self.handle@,
            generation: self.generation,
        }
    }
}

/// The cleanup of a record towards a final status.
pub open spec fn cleanup_of(record: RecordModel, target: LifecycleStatus) -> ActionModel {
    ActionModel {
        handle: record.handle,
        account: record.keyring_account,
        target,
        generation: record.generation,
        helper_pid: record.helper_pid,
        helper_pgid: record.helper_pgid,
        helper_start_ticks: record.helper_start_ticks,
        helper_boot_id: record.helper_boot_id,
        helper_cgroup: record.helper_cgroup,
        helper_cgroup_identity: record.helper_cgroup_identity,
        cleanup_keyring_done: record.cleanup_keyring_done,
        helper_descendants_unknown: record.helper_descendants_unknown,
    }
}

/// The cleanup of a helper alone: there is no keyring entry to remove.
pub open spec fn helper_cleanup_of(helper: HelperModel, target: LifecycleStatus) -> ActionModel {
    ActionModel {
        handle: helper.handle,
        account: Seq::empty(),
        target,
        generation: helper.generation,
        helper_pid: Some(helper.pid),
        helper_pgid: Some(helper.pgid),
        helper_start_ticks: Some(helper.start_ticks),
        helper_boot_id: Some(helper.boot_id),
        helper_cgroup: helper.cgroup,
        helper_cgroup_identity: helper.cgroup_identity,
        cleanup_keyring_done: true,
        helper_descendants_unknown: false,
    }
}

/// A copy of an optional text.
pub fn copy_text(value: &Option<String>) -> (copy: Option<String>)
    ensures
        optional_text(copy) == optional_text(*value),
{
    match value {
        Some(text) => Some(text.clone()),
        None => None,
    }
}

/// Whether an optional text is there and is the given one.
pub fn is_text(value: &Option<String>, expected: &str) -> (r: bool)
    ensures
        r == (optional_text(*value) == Some(expected@)),
{
    match value {
        Some(text) => same_text(text.as_str(), expected),
        None => false,
    }
}

/// Whether two optional texts are the same.
pub fn same_optional_text(a: &Option<String>, b: &Option<String>) -> (r: bool)
    ensures
        r == (optional_text(*a) == optional_text(*b)),
{
    match (a, b) {
        (Some(x), Some(y)) => same_text(x.as_str(), y.as_str()),
        (None, None) => true,
        _ => false,
    }
}

/// The cleanup of a record towards a final status.
pub fn cleanup_action_for(record: &SecretRecord, target: LifecycleStatus) -> (action: CleanupAction)
    ensures
        action@ == cleanup_of(record@, target),
{
    CleanupAction {
        handle: record.handle.clone(),
        account: record.keyring_account.clone(),
        target,
        generation: record.generation,
        helper_pid: record.helper_pid,
        helper_pgid: record.helper_pgid,
        helper_start_ticks: record.helper_start_ticks,
        helper_boot_id: copy_text(&record.helper_boot_id),
        helper_cgroup: copy_text(&record.helper_cgroup),
        helper_cgroup_identity: record.helper_cgroup_identity,
        cleanup_keyring_done: record.cleanup_keyring_done,
        helper_descendants_unknown: record.helper_descendants_unknown,
    }
}

/// The cleanup of a helper alone.
pub fn cleanup_action_for_helper(helper: &HelperFence, target: LifecycleStatus) -> (action:
    CleanupAction)
    ensures
        action@ == helper_cleanup_of(helper@, target),
{
    CleanupAction {
        handle: helper.handle.clone(),
        account: String::new(),
        target,
        generation: helper.generation,
        helper_pid: Some(helper.pid),
        helper_pgid: Some(helper.pgid),
        helper_start_ticks: Some(helper.start_ticks),
        helper_boot_id: Some(helper.boot_id.clone()),
        helper_cgroup: copy_text(&helper.cgroup),
        helper_cgroup_identity: helper.cgroup_identity,
        cleanup_keyring_done: true,
        helper_descendants_unknown: false,
    }
}

impl OperationCgroupFence {
    /// The fence that an older state keeps as the name of its owner alone: it
    /// has no deadline left and no identity.
    pub fn from_legacy_owner(owner: String) -> (fence: OperationCgroupFence)
        ensures
            fence@ == (FenceModel {
                owner: owner@,
                expires_at: 0,
                expires_mono: None,
                boot_id: None,
                identity: None,
            }),
    {
        OperationCgroupFence {
            owner,
            expires_at: 0,
            expires_mono: None,
            boot_id: None,
            identity: None,
        }
    }
}

/// A status is told and stored under its own name, is read from that name and from no
/// other, but for a pending cleanup, which older states call otherwise; it has ended, or a
/// process is at work under it, exactly as its name says.
pub proof fn law_statuses_go_by_their_names(
    status: LifecycleStatus,
    name: &'static str,
    text: &str,
    read: Result<LifecycleStatus, String>,
    ended: bool,
    at_work: bool,
)
    requires
        call_ensures(LifecycleStatus::name, (status,), name),
        call_ensures(LifecycleStatus::from_name, (text,), read),
        call_ensures(LifecycleStatus::is_terminal, (status,), ended),
        call_ensures(LifecycleStatus::is_in_flight, (status,), at_work),
    ensures
        name@ == match status {
            LifecycleStatus::Provisioning => "provisioning"@,
            LifecycleStatus::Active => "active"@,
            LifecycleStatus::Claimed => "claimed"@,
            LifecycleStatus::Running => "running"@,
            LifecycleStatus::CleanupPending => "cleanup_pending"@,
            LifecycleStatus::Consumed => "consumed"@,
            LifecycleStatus::Deleted => "deleted"@,
            LifecycleStatus::Expired => "expired"@,
            LifecycleStatus::Revoked => "revoked"@,
        },
        read == Ok::<LifecycleStatus, String>(status) <==> text@ == name@ || (
        status is CleanupPending && text@ == "consuming"@),
        read matches Err(e) ==> e@ == "unknown lifecycle status"@,
        ended <==> status is Consumed || status is Deleted || status is Expired,
        at_work <==> status is Provisioning || status is Claimed || status is Running,
{
    law_status_names_round_trip(LifecycleStatus::Provisioning);
    law_status_names_round_trip(LifecycleStatus::Active);
    law_status_names_round_trip(LifecycleStatus::Claimed);
    law_status_names_round_trip(LifecycleStatus::Running);
    law_status_names_round_trip(LifecycleStatus::CleanupPending);
    law_status_names_round_trip(LifecycleStatus::Consumed);
    law_status_names_round_trip(LifecycleStatus::Deleted);
    law_status_names_round_trip(LifecycleStatus::Expired);
    law_status_names_round_trip(LifecycleStatus::Revoked);
    reveal_strlit("provisioning");
    reveal_strlit("active");
    reveal_strlit("claimed");
    reveal_strlit("running");
    reveal_strlit("consuming");
    assert("consuming"@.len() == 9 && "provisioning"@.len() == 12 && "active"@.len() == 6);
    assert("claimed"@.len() == 7 && "running"@.len() == 7);
}

/// Optional texts are copied and told apart as they are, a cleanup is made of its record or
/// of its helper alone, and a fence of an older state has an owner and nothing else.
pub proof fn law_records_are_taken_over_as_they_are(
    a: &Option<String>,
    b: &Option<String>,
    expected: &str,
    copy: Option<String>,
    is: bool,
    same: bool,
    record: &SecretRecord,
    helper: &HelperFence,
    target: LifecycleStatus,
    action: CleanupAction,
    helper_action: CleanupAction,
    owner: String,
    fence: OperationCgroupFence,
)
    requires
        call_ensures(copy_text, (a,), copy),
        call_ensures(is_text, (a, expected), is),
        call_ensures(same_optional_text, (a, b), same),
        call_ensures(cleanup_action_for, (record, target), action),
        call_ensures(cleanup_action_for_helper, (helper, target), helper_action),
        call_ensures(OperationCgroupFence::from_legacy_owner, (owner,), fence),
    ensures
        copy is Some <==> a is Some,
        a is Some ==> copy->0@ == a->0@,
        is <==> a is Some && a->0@ == expected@,
        same <==> (a is None && b is None) || (a is Some && b is Some && a->0@ == b->0@),
        action@ == cleanup_of(record@, target),
        helper_action@ == helper_cleanup_of(helper@, target),
        fence@.owner == owner@ && fence@.expires_at == 0 && fence@.expires_mono is None
            && fence@.boot_id is None && fence@.identity is None,
{
}

} // verus!
