//! Deadlines. A deadline holds by the monotonic clock of one boot where both
//! are known, and by the wall clock only where they are not.
use vstd::prelude::*;

use crate::identity::ProcessLiveness;
use crate::record::{
    optional_text, CgroupIdentity, FenceModel, OperationCgroupFence, RecordModel, SecretRecord,
};
use crate::text::same_text;

verus! {

/// Seconds for which a process may hold a record that it works on.
pub const LEASE_SECONDS: u64 = 180;

/// Seconds that an allowlisted operation may take.
pub const OPERATION_SECONDS: u64 = 60;

/// Seconds that a lease outlasts the operation it is taken for.
pub const OPERATION_LEASE_GRACE_SECONDS: u64 = 30;

/// Seconds for which a control group is fenced for its owner.
pub const OPERATION_CGROUP_LEASE_SECONDS: u64 = 120;

/// One reading of the clocks: seconds since the epoch, and, where the system
/// tells them, seconds since boot and the boot they count from.
#[derive(Debug, Clone)]
pub struct Clock {
    pub wall: u64,
    pub mono: Option<u64>,
    pub boot: Option<String>,
}

/// What a reading stands for.
#[verifier::ext_equal]
pub struct ClockModel {
    pub wall: u64,
    pub mono: Option<u64>,
    pub boot: Option<Seq<char>>,
}

impl View for Clock {
    type V = ClockModel;

    open spec fn view(&self) -> ClockModel {
        ClockModel { wall: self.wall, mono: self.mono, boot: optional_text(self.boot) }
    }
}

/// The sum, or the largest number that can be held.
pub open spec fn saturating(a: u64, b: u64) -> u64 {
    if a + b > u64::MAX {
        u64::MAX
    } else {
        (a + b) as u64
    }
}

/// The next fencing generation.
pub open spec fn next_generation(generation: u64) -> u64 {
    saturating(generation, 1)
}

/// A monotonic reading that counts: seconds and boot together, or neither.
pub open spec fn paired(clock: ClockModel) -> (Option<u64>, Option<Seq<char>>) {
    match (clock.mono, clock.boot) {
        (Some(current), Some(boot)) => (Some(current), Some(boot)),
        _ => (None, None),
    }
}

/// A monotonic deadline so many seconds from a reading, where there is one.
pub open spec fn mono_after(current: Option<u64>, seconds: u64) -> Option<u64> {
    match current {
        Some(value) => Some(saturating(value, seconds)),
        None => None,
    }
}

/// Whether a deadline has passed.
pub open spec fn deadline_passed(
    mono: Option<u64>,
    boot: Option<Seq<char>>,
    wall: u64,
    clock: ClockModel,
) -> bool {
    match (mono, boot, clock.mono, clock.boot) {
        (Some(expires), Some(expected), Some(current), Some(current_boot)) => expected
            != current_boot || current >= expires,
        _ => clock.wall >= wall,
    }
}

/// Whether the time of a record is up.
pub open spec fn expired(record: RecordModel, clock: ClockModel) -> bool {
    deadline_passed(record.expires_mono, record.expires_boot_id, record.expires_at, clock)
}

/// Whether the time of a fence is up.
pub open spec fn fence_expired(fence: FenceModel, clock: ClockModel) -> bool {
    deadline_passed(fence.expires_mono, fence.boot_id, fence.expires_at, clock)
}

/// What is known of the lease on a record.
#[derive(Debug, Clone, Copy, PartialEq, Eq, Structural)]
pub enum LeaseLiveness {
    Live,
    Expired,
    Unknown,
}

/// What the deadline of a lease says. One that is kept by the monotonic clock
/// is judged by it alone; one with half a monotonic deadline cannot be judged.
pub open spec fn lease_deadline(
    record: RecordModel,
    mono: Option<u64>,
    boot: Option<Seq<char>>,
    wall: u64,
) -> LeaseLiveness {
    match (record.lease_expires_mono, record.lease_boot_id) {
        (Some(expires), Some(expected)) => match (mono, boot) {
            (Some(current), Some(observed)) => if expected == observed && current < expires {
                LeaseLiveness::Live
            } else {
                LeaseLiveness::Expired
            },
            _ => LeaseLiveness::Unknown,
        },
        (None, None) => match record.lease_expires_at {
            Some(expires) => if expires > wall {
                LeaseLiveness::Live
            } else {
                LeaseLiveness::Expired
            },
            None => LeaseLiveness::Unknown,
        },
        _ => LeaseLiveness::Unknown,
    }
}

/// What is known of an owner: the process itself is alive, of another it is
/// known what was found out.
pub open spec fn owner_liveness(
    owner: Seq<char>,
    this_process: Seq<char>,
    found: ProcessLiveness,
) -> ProcessLiveness {
    if owner == this_process {
        ProcessLiveness::Alive
    } else {
        found
    }
}

/// What is known of the lease on a record: without an owner, or with a dead
/// one, it is over; with a live owner its deadline decides.
pub open spec fn lease_of(
    record: RecordModel,
    this_process: Seq<char>,
    found: ProcessLiveness,
    clock: ClockModel,
) -> LeaseLiveness {
    match record.lease_owner {
        None => LeaseLiveness::Expired,
        Some(owner) => match owner_liveness(owner, this_process, found) {
            ProcessLiveness::Dead => LeaseLiveness::Expired,
            ProcessLiveness::Unknown => LeaseLiveness::Unknown,
            ProcessLiveness::Alive => lease_deadline(record, clock.mono, clock.boot, clock.wall),
        },
    }
}

/// The fence of a control group that this process works in.
pub open spec fn own_fence(
    owner: Seq<char>,
    identity: CgroupIdentity,
    clock: ClockModel,
) -> FenceModel {
    FenceModel {
        owner,
        expires_at: saturating(clock.wall, OPERATION_CGROUP_LEASE_SECONDS),
        expires_mono: mono_after(paired(clock).0, OPERATION_CGROUP_LEASE_SECONDS),
        boot_id: paired(clock).1,
        identity: Some(identity),
    }
}

/// The fence of a control group that is found without one: its time is up at
/// once.
pub open spec fn foreign_fence(
    owner: Seq<char>,
    identity: CgroupIdentity,
    clock: ClockModel,
) -> FenceModel {
    FenceModel {
        owner,
        expires_at: clock.wall,
        expires_mono: paired(clock).0,
        boot_id: paired(clock).1,
        identity: Some(identity),
    }
}

/// The wall clock in seconds: a clock that is set before the epoch counts as being
/// at the epoch.
pub fn now(since_epoch: Option<u64>) -> (seconds: u64)
    ensures
        seconds == match since_epoch {
            Some(s) => s,
            None => 0,
        },
{
    match since_epoch {
        Some(s) => s,
        None => 0,
    }
}

/// The sum, or the largest number that can be held.
pub fn saturating_sum(a: u64, b: u64) -> (r: u64)
    ensures
        r == saturating(a, b),
{
    if a > u64::MAX - b {
        u64::MAX
    } else {
        a + b
    }
}

/// A monotonic deadline so many seconds from a reading.
pub fn mono_deadline(current: Option<u64>, seconds: u64) -> (r: Option<u64>)
    ensures
        r == mono_after(current, seconds),
{
    match current {
        Some(value) => Some(saturating_sum(value, seconds)),
        None => None,
    }
}

/// A monotonic reading that counts: seconds and boot together, or neither.
pub fn monotonic_pair(clock: &Clock) -> (pair: (Option<u64>, Option<String>))
    ensures
        (pair.0, optional_text(pair.1)) == paired(clock@),
{
    match (clock.mono, &clock.boot) {
        (Some(current), Some(boot)) => (Some(current), Some(boot.clone())),
        _ => (None, None),
    }
}

fn is_past(mono: Option<u64>, boot: &Option<String>, wall: u64, clock: &Clock) -> (r: bool)
    ensures
        r == deadline_passed(mono, optional_text(*boot), wall, clock@),
{
    match (mono, boot, clock.mono, &clock.boot) {
        (Some(expires), Some(expected), Some(current), Some(current_boot)) => {
            !same_text(expected.as_str(), current_boot.as_str()) || current >= expires
        },
        _ => clock.wall >= wall,
    }
}

/// Whether the time of a record is up.
pub fn record_expired(record: &SecretRecord, clock: &Clock) -> (r: bool)
    ensures
        r == expired(record@, clock@),
{
    is_past(record.expires_mono, &record.expires_boot_id, record.expires_at, clock)
}

/// Whether the time of a control group's fence is up.
pub fn operation_cgroup_expired(fence: &OperationCgroupFence, clock: &Clock) -> (r: bool)
    ensures
        r == fence_expired(fence@, clock@),
{
    is_past(fence.expires_mono, &fence.boot_id, fence.expires_at, clock)
}

/// The fence of a control group that this process works in.
pub fn operation_cgroup_fence(identity: CgroupIdentity, this_process: &str, clock: &Clock) -> (fence:
    OperationCgroupFence)
    ensures
        fence@ == own_fence(this_process@, identity, clock@),
{
    let (mono, boot) = monotonic_pair(clock);
    OperationCgroupFence {
        owner: this_process.to_owned(),
        expires_at: saturating_sum(clock.wall, OPERATION_CGROUP_LEASE_SECONDS),
        expires_mono: mono_deadline(mono, OPERATION_CGROUP_LEASE_SECONDS),
        boot_id: boot,
        identity: Some(identity),
    }
}

/// The fence of a control group that is found without one.
pub fn operation_cgroup_fence_for_owner(
    owner: &str,
    identity: CgroupIdentity,
    clock: &Clock,
) -> (fence: OperationCgroupFence)
    ensures
        fence@ == foreign_fence(owner@, identity, clock@),
{
    let (mono, boot) = monotonic_pair(clock);
    OperationCgroupFence {
        owner: owner.to_owned(),
        expires_at: clock.wall,
        expires_mono: mono,
        boot_id: boot,
        identity: Some(identity),
    }
}

/// What is known of the owner of a control group. `found` is what was found out
/// of the process that the fence names.
pub fn operation_cgroup_owner_liveness(
    fence: &OperationCgroupFence,
    this_process: &str,
    found: ProcessLiveness,
) -> (r: ProcessLiveness)
    ensures
        r == owner_liveness(fence@.owner, this_process@, found),
{
    if same_text(fence.owner.as_str(), this_process) {
        ProcessLiveness::Alive
    } else {
        found
    }
}

/// Whether the owner of a control group is known to run.
pub fn operation_cgroup_owner_live(
    fence: &OperationCgroupFence,
    this_process: &str,
    found: ProcessLiveness,
) -> (r: bool)
    ensures
        r == (owner_liveness(fence@.owner, this_process@, found) == ProcessLiveness::Alive),
{
    match operation_cgroup_owner_liveness(fence, this_process, found) {
        ProcessLiveness::Alive => true,
        _ => false,
    }
}

/// What the deadline of the lease on a record says.
pub fn lease_deadline_liveness(
    record: &SecretRecord,
    current_mono: Option<u64>,
    current_boot: Option<&str>,
    current_wall: u64,
) -> (r: LeaseLiveness)
    ensures
        r == lease_deadline(
            record@,
            current_mono,
            (match current_boot {
                Some(b) => Some(b@),
                None => None,
            }),
            current_wall,
        ),
{
    match (record.lease_expires_mono, &record.lease_boot_id) {
        (Some(expires), Some(expected)) => match (current_mono, current_boot) {
            (Some(current), Some(observed)) => {
                if same_text(expected.as_str(), observed) && current < expires {
                    LeaseLiveness::Live
                } else {
                    LeaseLiveness::Expired
                }
            },
            _ => LeaseLiveness::Unknown,
        },
        (None, None) => match record.lease_expires_at {
            Some(expires) => {
                if expires > current_wall {
                    LeaseLiveness::Live
                } else {
                    LeaseLiveness::Expired
                }
            },
            None => LeaseLiveness::Unknown,
        },
        _ => LeaseLiveness::Unknown,
    }
}

/// What is known of the lease on a record. `found` is what was found out of the
/// process that owns it.
pub fn lease_liveness(
    record: &SecretRecord,
    this_process: &str,
    found: ProcessLiveness,
    clock: &Clock,
) -> (r: LeaseLiveness)
    ensures
        r == lease_of(record@, this_process@, found, clock@),
{
    let owner = match &record.lease_owner {
        Some(owner) => owner,
        None => {
            return LeaseLiveness::Expired;
        },
    };
    let liveness = if same_text(owner.as_str(), this_process) {
        ProcessLiveness::Alive
    } else {
        found
    };
    match liveness {
        ProcessLiveness::Dead => LeaseLiveness::Expired,
        ProcessLiveness::Unknown => LeaseLiveness::Unknown,
        ProcessLiveness::Alive => {
            let boot: Option<&str> = match &clock.boot {
                Some(b) => Some(b.as_str()),
                None => None,
            };
            lease_deadline_liveness(record, clock.mono, boot, clock.wall)
        },
    }
}

/// A lease that is kept by the monotonic clock does not come back to life when
/// the wall clock is set back: the wall clock has no say in it.
pub proof fn law_wall_clock_cannot_revive_lease(
    record: RecordModel,
    mono: Option<u64>,
    boot: Option<Seq<char>>,
    wall: u64,
    other_wall: u64,
)
    requires
        record.lease_expires_mono is Some || record.lease_boot_id is Some,
    ensures
        lease_deadline(record, mono, boot, wall) == lease_deadline(record, mono, boot, other_wall),
{
}

/// Once the time of a record is up it stays up, as long as the clocks go on: the
/// wall clock is not set back and the monotonic clock, if it is read at all,
/// counts on within one boot or starts anew in another.
pub proof fn law_expiry_is_permanent(record: RecordModel, earlier: ClockModel, later: ClockModel)
    requires
        expired(record, earlier),
        earlier.wall <= later.wall,
        earlier.mono is Some <==> later.mono is Some,
        earlier.boot is Some <==> later.boot is Some,
        earlier.boot == later.boot ==> earlier.mono == later.mono || earlier.mono->0
            <= later.mono->0,
        earlier.boot != later.boot ==> later.boot != record.expires_boot_id,
    ensures
        expired(record, later),
{
}

/// A record that is given so many seconds to live is not expired at the reading
/// that it was made at, if that is at least one second and the clocks are not at
/// their end.
pub proof fn law_new_deadline_is_ahead(clock: ClockModel, record: RecordModel, seconds: u64)
    requires
        seconds >= 1,
        clock.wall < u64::MAX,
        clock.mono != Some(u64::MAX),
        record.expires_at == saturating(clock.wall, seconds),
        record.expires_mono == mono_after(paired(clock).0, seconds),
        record.expires_boot_id == paired(clock).1,
    ensures
        !expired(record, clock),
{
}

/// The fence that a process takes on a control group holds for exactly the seconds
/// that it is taken for: by the monotonic clock while that can be read in the
/// same boot, in no other boot, and by the wall clock where the monotonic clock
/// cannot be read.
pub proof fn law_fences_expire_on_time(
    owner: Seq<char>,
    identity: CgroupIdentity,
    taken: ClockModel,
    later: ClockModel,
)
    requires
        taken.wall + OPERATION_CGROUP_LEASE_SECONDS <= u64::MAX,
        taken.mono matches Some(mono) ==> mono + OPERATION_CGROUP_LEASE_SECONDS <= u64::MAX,
    ensures
        fence_expired(own_fence(owner, identity, taken), later) <==> match (
            paired(taken),
            paired(later),
        ) {
            ((Some(from), Some(boot)), (Some(at), Some(current_boot))) => boot != current_boot
                || at >= from + OPERATION_CGROUP_LEASE_SECONDS,
            _ => later.wall >= taken.wall + OPERATION_CGROUP_LEASE_SECONDS,
        },
{
}

/// A lease outlasts the work that it is for: an operation may take a minute, its lease holds
/// half a minute longer, and the fence on its control group half a minute longer still;
/// whoever captures or claims has three minutes.
pub proof fn law_leases_outlast_their_work()
    ensures
        OPERATION_SECONDS == 60,
        OPERATION_SECONDS + OPERATION_LEASE_GRACE_SECONDS == 90,
        OPERATION_CGROUP_LEASE_SECONDS == 120,
        LEASE_SECONDS == 180,
{
}

/// What a lease's own moment says of it: it holds before that moment in its own boot, and is
/// over from it on and in any other boot; without a clock that counts from boot the wall
/// clock decides where the lease was counted by it, and else nothing is known.
pub proof fn law_leases_hold_until_their_moment(
    record: &SecretRecord,
    mono: Option<u64>,
    boot: Option<&str>,
    wall: u64,
    lease: LeaseLiveness,
)
    requires
        call_ensures(lease_deadline_liveness, (record, mono, boot, wall), lease),
    ensures
        ({
            let r = record@;
            let by_boot = r.lease_expires_mono is Some && r.lease_boot_id is Some;
            let by_wall = r.lease_expires_mono is None && r.lease_boot_id is None
                && r.lease_expires_at is Some;
            let readable = mono is Some && boot is Some;
            &&& lease is Live <==> (by_boot && readable && r.lease_boot_id->0 == boot->0@ && mono->0
                < r.lease_expires_mono->0) || (by_wall && wall < r.lease_expires_at->0)
            &&& lease is Expired <==> (by_boot && readable && (r.lease_boot_id->0 != boot->0@
                || mono->0 >= r.lease_expires_mono->0)) || (by_wall && wall
                >= r.lease_expires_at->0)
        }),
{
}

} // verus!
