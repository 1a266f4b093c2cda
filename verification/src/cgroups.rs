//! Control groups: the fences that are kept of them, where they lie, and what is
//! read of them.
use vstd::prelude::*;
use vstd::string::*;
use vstd::utf8::*;

use crate::clock::{
    fence_expired, foreign_fence, operation_cgroup_expired, operation_cgroup_fence,
    operation_cgroup_fence_for_owner, operation_cgroup_owner_liveness, own_fence, owner_liveness,
    Clock, ClockModel,
};
use crate::identity::ProcessLiveness;
use crate::number::{decimal, decimal_text};
use crate::paths::{absolute, has_step_back, is_absolute, names, path_names, steps_back};
use crate::promises::abandoned;
use crate::record::{optional_text, same_optional_text, CgroupIdentity, FenceModel, OperationCgroupFence};
use crate::state::{State, StateModel, MAX_OPERATION_CGROUPS};
use crate::text::{blank, chars_of, is_blank, joined, same_text, trim, trimmed, verdict};
use crate::trust::{
    check_recorded_cgroup, open_to_others, recorded_cgroup_fault, FileFacts, FileKind,
};

verus! {

/// Seconds for which a control group that nobody has fenced is left alone.
pub const OPERATION_CGROUP_ORPHAN_GRACE_SECONDS: u64 = 30;

// ---------------------------------------------------------------------------
// Fences
// ---------------------------------------------------------------------------

/// The fence that an owner takes on a control group: this process works in its
/// own ones, all others are to be cleaned up.
pub open spec fn fence_for(
    owner: Seq<char>,
    this_process: Seq<char>,
    identity: CgroupIdentity,
    clock: ClockModel,
) -> FenceModel {
    if owner == this_process {
        own_fence(this_process, identity, clock)
    } else {
        foreign_fence(owner, identity, clock)
    }
}

fn take_fence(owner: &str, this_process: &str, identity: CgroupIdentity, clock: &Clock) -> (fence:
    OperationCgroupFence)
    ensures
        fence@ == fence_for(owner@, this_process@, identity, clock@),
{
    if same_text(owner, this_process) {
        operation_cgroup_fence(identity, this_process, clock)
    } else {
        operation_cgroup_fence_for_owner(owner, identity, clock)
    }
}

/// The state with a fence on a control group.
pub open spec fn fenced(state: StateModel, path: Seq<char>, fence: FenceModel) -> StateModel {
    StateModel { operation_cgroups: state.operation_cgroups.insert(path, fence), ..state }
}

/// The state without a fence on a control group.
pub open spec fn unfenced(state: StateModel, path: Seq<char>) -> StateModel {
    StateModel { operation_cgroups: state.operation_cgroups.remove(path), ..state }
}

/// What fencing a control group makes of the state, and whether it was fenced
/// now: one that is fenced already keeps its fence.
pub open spec fn cgroup_registered(
    state: StateModel,
    path: Seq<char>,
    fence: FenceModel,
) -> Result<(StateModel, bool), Seq<char>> {
    if state.operation_cgroups.contains_key(path) {
        Ok((state, false))
    } else if state.operation_cgroups.len() >= MAX_OPERATION_CGROUPS {
        Err("operation cgroup capacity has been reached"@)
    } else {
        Ok((fenced(state, path, fence), true))
    }
}

/// Fences a control group for an owner.
pub fn register_operation_cgroup_with_owner(
    state: &mut State,
    raw: &str,
    identity: CgroupIdentity,
    owner: &str,
    this_process: &str,
    clock: &Clock,
) -> (result: Result<bool, String>)
    requires
        old(state).wf(),
    ensures
        final(state).wf(),
        ({
            let expected = cgroup_registered(
                old(state)@,
                raw@,
                fence_for(owner@, this_process@, identity, clock@),
            );
            match result {
                Ok(added) => expected == Ok::<(StateModel, bool), Seq<char>>((final(state)@, added)),
                Err(e) => final(state)@ == old(state)@ && expected == Err::<
                    (StateModel, bool),
                    Seq<char>,
                >(e@),
            }
        }),
{
    if state.operation_cgroups.contains_key(raw) {
        return Ok(false);
    }
    if state.operation_cgroups.len() >= MAX_OPERATION_CGROUPS {
        return Err("operation cgroup capacity has been reached".to_owned());
    }
    let fence = take_fence(owner, this_process, identity, clock);
    state.operation_cgroups.insert(raw.to_owned(), fence);
    Ok(true)
}

/// Fences a control group that this process is about to use.
pub fn register_operation_cgroup(
    state: &mut State,
    raw: &str,
    identity: CgroupIdentity,
    this_process: &str,
    clock: &Clock,
) -> (result: Result<(), String>)
    requires
        old(state).wf(),
    ensures
        final(state).wf(),
        ({
            let expected = cgroup_registered(
                old(state)@,
                raw@,
                own_fence(this_process@, identity, clock@),
            );
            match result {
                Ok(_) => expected == Ok::<(StateModel, bool), Seq<char>>((final(state)@, true)),
                Err(e) => final(state)@ == old(state)@ && match expected {
                    Ok((_, added)) => !added && e@ == "operation cgroup is already registered"@,
                    Err(told) => e@ == told,
                },
            }
        }),
{
    match register_operation_cgroup_with_owner(
        state,
        raw,
        identity,
        this_process,
        this_process,
        clock,
    ) {
        Ok(true) => Ok(()),
        Ok(false) => Err("operation cgroup is already registered".to_owned()),
        Err(e) => Err(e),
    }
}

/// What fencing a control group that was found without a fence of its own makes
/// of the state: a fence on what lay there before is replaced, any other stays.
pub open spec fn cgroup_replaced(
    state: StateModel,
    path: Seq<char>,
    expected: Option<CgroupIdentity>,
    identity: CgroupIdentity,
    fence: FenceModel,
) -> Result<(StateModel, bool), Seq<char>> {
    let fences = state.operation_cgroups;
    if fences.contains_key(path) {
        if fences[path].identity != Some(identity) && expected is Some && fences[path].identity
            == expected {
            if fences.remove(path).len() >= MAX_OPERATION_CGROUPS {
                Err("operation cgroup capacity has been reached"@)
            } else {
                Ok((fenced(state, path, fence), true))
            }
        } else {
            Ok((state, false))
        }
    } else if fences.len() >= MAX_OPERATION_CGROUPS {
        Err("operation cgroup capacity has been reached"@)
    } else {
        Ok((fenced(state, path, fence), true))
    }
}

/// Fences a control group that was found without a fence of its own.
pub fn register_operation_cgroup_replacing_identity(
    state: &mut State,
    raw: &str,
    expected_existing: Option<CgroupIdentity>,
    identity: CgroupIdentity,
    owner: &str,
    this_process: &str,
    clock: &Clock,
) -> (result: Result<bool, String>)
    requires
        old(state).wf(),
    ensures
        final(state).wf(),
        ({
            let expected = cgroup_replaced(
                old(state)@,
                raw@,
                expected_existing,
                identity,
                fence_for(owner@, this_process@, identity, clock@),
            );
            match result {
                Ok(added) => expected == Ok::<(StateModel, bool), Seq<char>>((final(state)@, added)),
                Err(e) => final(state)@ == old(state)@ && expected == Err::<
                    (StateModel, bool),
                    Seq<char>,
                >(e@),
            }
        }),
{
    let mut others: usize = state.operation_cgroups.len();
    match state.operation_cgroups.get(raw) {
        Some(existing) => {
            if existing.identity == Some(identity) || expected_existing.is_none()
                || existing.identity != expected_existing {
                return Ok(false);
            }
            proof {
                state.operation_cgroups.lemma_keys();
                assert(state@.operation_cgroups.dom().contains(raw@));
            }
            others = others - 1;
        },
        None => {},
    }
    if others >= MAX_OPERATION_CGROUPS {
        return Err("operation cgroup capacity has been reached".to_owned());
    }
    let fence = take_fence(owner, this_process, identity, clock);
    state.operation_cgroups.insert(raw.to_owned(), fence);
    Ok(true)
}

/// What forgetting a control group makes of the state: only the fence on that
/// very group is dropped.
pub open spec fn cgroup_forgotten(
    state: StateModel,
    path: Seq<char>,
    identity: CgroupIdentity,
) -> StateModel {
    if state.operation_cgroups.contains_key(path) && state.operation_cgroups[path].identity == Some(
        identity,
    ) {
        unfenced(state, path)
    } else {
        state
    }
}

/// Drops the fence on a control group, if it is still on that very group.
pub fn unregister_operation_cgroup_if_identity(
    state: &mut State,
    raw: &str,
    identity: CgroupIdentity,
)
    requires
        old(state).wf(),
    ensures
        final(state).wf(),
        final(state)@ == cgroup_forgotten(old(state)@, raw@, identity),
{
    let matching = match state.operation_cgroups.get(raw) {
        Some(existing) => existing.identity == Some(identity),
        None => false,
    };
    if matching {
        state.operation_cgroups.remove(raw);
    }
}

/// Drops the fence on a control group that is gone.
pub fn forget_operation_cgroup_if_absent(
    state: &mut State,
    raw: &str,
    identity: CgroupIdentity,
    absent: bool,
)
    requires
        old(state).wf(),
    ensures
        final(state).wf(),
        final(state)@ == if absent {
            cgroup_forgotten(old(state)@, raw@, identity)
        } else {
            old(state)@
        },
{
    if absent {
        unregister_operation_cgroup_if_identity(state, raw, identity);
    }
}

/// Which control group may be killed for a record or a fence, if any is left: none
/// whose identity is not known, none that is not the recorded one any more, and
/// none that belongs to another user. One that is gone needs no killing.
pub open spec fn cgroup_to_kill(
    expected: Option<CgroupIdentity>,
    found: Option<FileFacts>,
    uid: u32,
) -> Result<Option<CgroupIdentity>, Seq<char>> {
    match (expected, found) {
        (None, _) => Err("recorded operation cgroup identity is unavailable"@),
        (Some(identity), None) => Ok(None),
        (Some(identity), Some(facts)) => match recorded_cgroup_fault(facts, uid, expected) {
            Some(fault) => Err(fault),
            None => Ok(Some(identity)),
        },
    }
}

/// Which control group is killed, given what is recorded of it and what was found at
/// its path.
pub fn kill_cgroup_path(
    expected: Option<CgroupIdentity>,
    found: Option<FileFacts>,
    uid: u32,
) -> (result: Result<Option<CgroupIdentity>, String>)
    ensures
        match result {
            Ok(kill) => cgroup_to_kill(expected, found, uid) == Ok::<
                Option<CgroupIdentity>,
                Seq<char>,
            >(kill),
            Err(e) => cgroup_to_kill(expected, found, uid) == Err::<
                Option<CgroupIdentity>,
                Seq<char>,
            >(e@),
        },
{
    match (expected, found) {
        (None, _) => Err("recorded operation cgroup identity is unavailable".to_owned()),
        (Some(_), None) => Ok(None),
        (Some(identity), Some(facts)) => match check_recorded_cgroup(&facts, uid, expected) {
            Err(e) => Err(e),
            Ok(_) => Ok(Some(identity)),
        },
    }
}

/// Only the recorded control group is killed: without a recorded identity, and where
/// something else is found at its path, the killing fails and nothing is touched;
/// where nothing is found, it succeeds with nothing to do.
pub proof fn law_only_recorded_cgroups_are_killed(
    expected: Option<CgroupIdentity>,
    found: Option<FileFacts>,
    uid: u32,
)
    ensures
        expected is None ==> cgroup_to_kill(expected, found, uid) is Err,
        expected is Some && found is None ==> cgroup_to_kill(expected, found, uid) == Ok::<
            Option<CgroupIdentity>,
            Seq<char>,
        >(None),
        expected is Some && found is Some && found->0.identity != expected->0 ==> cgroup_to_kill(
            expected,
            found,
            uid,
        ) is Err,
        cgroup_to_kill(expected, found, uid) matches Ok(Some(identity)) ==> expected == Some(
            identity,
        ) && found is Some && found->0.identity == identity && found->0.uid == uid
            && found->0.kind == FileKind::Directory,
{
}

/// A fence whose time is up or whose owner is dead.
pub open spec fn fence_stale(
    fence: FenceModel,
    this_process: Seq<char>,
    found: ProcessLiveness,
    clock: ClockModel,
) -> bool {
    fence_expired(fence, clock) || owner_liveness(fence.owner, this_process, found)
        == ProcessLiveness::Dead
}

/// Whether a fence has gone stale.
pub fn is_fence_stale(
    fence: &OperationCgroupFence,
    this_process: &str,
    found: ProcessLiveness,
    clock: &Clock,
) -> (r: bool)
    ensures
        r == fence_stale(fence@, this_process@, found, clock@),
{
    operation_cgroup_expired(fence, clock) || matches!(
        operation_cgroup_owner_liveness(fence, this_process, found),
        ProcessLiveness::Dead
    )
}

fn same_fence(a: &OperationCgroupFence, b: &OperationCgroupFence) -> (r: bool)
    ensures
        r == (a@ == b@),
{
    same_text(a.owner.as_str(), b.owner.as_str()) && a.expires_at == b.expires_at && a.expires_mono
        == b.expires_mono && same_optional_text(&a.boot_id, &b.boot_id) && a.identity == b.identity
}

/// What releasing a stale fence makes of the state: a fence that was taken anew
/// stays.
pub open spec fn fence_released(
    state: StateModel,
    path: Seq<char>,
    fence: FenceModel,
) -> StateModel {
    if state.operation_cgroups.contains_key(path) && state.operation_cgroups[path] == fence {
        unfenced(state, path)
    } else {
        state
    }
}

/// Releases a stale fence whose control group was killed.
pub fn release_fence(state: &mut State, raw: &str, fence: &OperationCgroupFence)
    requires
        old(state).wf(),
    ensures
        final(state).wf(),
        final(state)@ == fence_released(old(state)@, raw@, fence@),
{
    let matching = match state.operation_cgroups.get(raw) {
        Some(existing) => same_fence(existing, fence),
        None => false,
    };
    if matching {
        state.operation_cgroups.remove(raw);
    }
}

/// How old a control group is, as far as that can be told.
pub fn cgroup_age_seconds(changed: i64, now: u64) -> (age: Option<u64>)
    ensures
        match age {
            Some(seconds) => changed >= 0 && seconds == if now >= changed {
                now - changed
            } else {
                0
            },
            None => changed < 0,
        },
{
    if changed < 0 {
        return None;
    }
    let at: u64 = changed as u64;
    Some(
        if now >= at {
            now - at
        } else {
            0
        },
    )
}

/// A control group that nobody accounts for: the user's own, old enough, and
/// not the one that a fence is kept of.
pub open spec fn orphaned(
    known: Option<CgroupIdentity>,
    facts: FileFacts,
    uid: u32,
    age: Option<u64>,
) -> bool {
    &&& known != Some(facts.identity)
    &&& facts.uid == uid
    &&& age matches Some(seconds) && seconds >= OPERATION_CGROUP_ORPHAN_GRACE_SECONDS
}

/// Whether nobody accounts for a control group.
pub fn is_orphaned(
    known: Option<CgroupIdentity>,
    facts: &FileFacts,
    uid: u32,
    age: Option<u64>,
) -> (r: bool)
    ensures
        r == orphaned(known, *facts, uid, age),
{
    known != Some(facts.identity) && facts.uid == uid && match age {
        Some(seconds) => seconds >= OPERATION_CGROUP_ORPHAN_GRACE_SECONDS,
        None => false,
    }
}

/// What has to be done about a control group that nobody accounts for.
#[derive(Debug, Clone, Copy, PartialEq, Eq, Structural)]
pub enum OrphanStep {
    /// It has to be found out whether it holds processes.
    LookInside,
    /// It is empty and has to be removed.
    Remove,
    /// It has to be fenced.
    Fence,
    /// It has to be killed.
    Kill,
    /// Its fence has to be dropped.
    Release,
    /// Nothing is left to be done.
    Leave,
}

/// What follows a step: processes are killed only behind a fence, and the fence is
/// dropped only when they are gone.
pub open spec fn orphan_next(step: OrphanStep, answer: bool) -> OrphanStep {
    match step {
        OrphanStep::LookInside => if answer {
            OrphanStep::Fence
        } else {
            OrphanStep::Remove
        },
        OrphanStep::Fence => if answer {
            OrphanStep::Kill
        } else {
            OrphanStep::Leave
        },
        OrphanStep::Kill => if answer {
            OrphanStep::Release
        } else {
            OrphanStep::Leave
        },
        _ => OrphanStep::Leave,
    }
}

/// What follows a step. `answer` says whether processes were found, whether the
/// fence was taken now, and whether all was killed.
pub fn after_orphan_step(step: OrphanStep, answer: bool) -> (next: OrphanStep)
    ensures
        next == orphan_next(step, answer),
{
    match step {
        OrphanStep::LookInside => {
            if answer {
                OrphanStep::Fence
            } else {
                OrphanStep::Remove
            }
        },
        OrphanStep::Fence => {
            if answer {
                OrphanStep::Kill
            } else {
                OrphanStep::Leave
            }
        },
        OrphanStep::Kill => {
            if answer {
                OrphanStep::Release
            } else {
                OrphanStep::Leave
            }
        },
        _ => OrphanStep::Leave,
    }
}

/// A control group that nobody accounts for is killed only after it was fenced, a
/// fence is dropped only after its group was killed, and only an empty group is
/// removed without one. A group that could not be killed keeps its fence.
pub proof fn law_orphans_are_fenced_before_they_are_killed(step: OrphanStep, answer: bool)
    ensures
        orphan_next(step, answer) == OrphanStep::Kill <==> step == OrphanStep::Fence && answer,
        orphan_next(step, answer) == OrphanStep::Release <==> step == OrphanStep::Kill && answer,
        orphan_next(step, answer) == OrphanStep::Remove <==> step == OrphanStep::LookInside
            && !answer,
        orphan_next(OrphanStep::Kill, false) == OrphanStep::Leave,
{
}

/// A name that only control groups of this program have.
pub open spec fn operation_cgroup_name(name: Seq<char>) -> bool {
    has_head(name, "codex-secret-handoff-"@)
}

/// Whether a name is one that only control groups of this program have.
pub fn is_operation_cgroup_name(name: &str) -> (r: bool)
    ensures
        r == operation_cgroup_name(name@),
{
    tail_behind(name, "codex-secret-handoff-").is_some()
}

// ---------------------------------------------------------------------------
// What the system tells
// ---------------------------------------------------------------------------

/// Whether a text starts with another.
pub open spec fn has_head(s: Seq<char>, head: Seq<char>) -> bool {
    s.len() >= head.len() && s.take(head.len() as int) == head
}

/// What stands behind a head, if a text starts with it.
pub fn tail_behind(s: &str, head: &str) -> (tail: Option<String>)
    ensures
        match tail {
            Some(t) => has_head(s@, head@) && t@ == s@.skip(head@.len() as int),
            None => !has_head(s@, head@),
        },
{
    let n: usize = s.unicode_len();
    let h: usize = head.unicode_len();
    if n < h {
        return None;
    }
    let first = s.substring_char(0, h);
    assert(s@.subrange(0, h as int) =~= s@.take(h as int));
    if !same_text(first, head) {
        return None;
    }
    let rest = s.substring_char(h, n);
    assert(s@.subrange(h as int, n as int) =~= s@.skip(h as int));
    Some(rest.to_owned())
}

/// The place of the first line break.
pub open spec fn first_break(s: Seq<char>, i: int) -> bool {
    0 <= i < s.len() && s[i] == '\n' && forall|j: int| 0 <= j < i ==> #[trigger] s[j] != '\n'
}

/// A line without the carriage return that ends it.
pub open spec fn line_text(s: Seq<char>) -> Seq<char> {
    if s.len() > 0 && s.last() == '\r' {
        s.drop_last()
    } else {
        s
    }
}

/// The lines of a text. What stands behind the last line break is a line only
/// if it is not empty.
pub open spec fn lines(s: Seq<char>) -> Seq<Seq<char>>
    decreases s.len(),
{
    if s.len() == 0 {
        Seq::empty()
    } else if exists|i: int| first_break(s, i) {
        let i = choose|i: int| first_break(s, i);
        if 0 <= i < s.len() {
            seq![line_text(s.take(i))] + lines(s.skip(i + 1))
        } else {
            Seq::empty()
        }
    } else {
        seq![s]
    }
}

proof fn lemma_break_is_unique(s: Seq<char>, i: int, j: int)
    requires
        first_break(s, i),
        first_break(s, j),
    ensures
        i == j,
{
    if i < j {
        assert(s[i] != '\n');
    }
    if j < i {
        assert(s[j] != '\n');
    }
}

/// The lines of a text.
pub fn lines_of(text: &str) -> (list: Vec<String>)
    ensures
        list@.len() == lines(text@).len(),
        forall|i: int| 0 <= i < list@.len() ==> #[trigger] list@[i]@ == lines(text@)[i],
{
    let n: usize = text.unicode_len();
    let chars = chars_of(text);
    let mut list: Vec<String> = Vec::new();
    let mut start: usize = 0;
    let mut i: usize = 0;
    let ghost mut told: Seq<Seq<char>> = Seq::empty();
    assert(text@.skip(0) =~= text@);
    while i < n
        invariant
            n == text@.len(),
            chars@ == text@,
            start <= i <= n,
            forall|j: int| start <= j < i ==> #[trigger] text@[j] != '\n',
            lines(text@) == told + lines(text@.skip(start as int)),
            list@.len() == told.len(),
            forall|j: int| 0 <= j < list@.len() ==> #[trigger] list@[j]@ == told[j],
        decreases n - i,
    {
        if chars[i] == '\n' {
            let ghost rest = text@.skip(start as int);
            let ghost at = i - start;
            let mut end: usize = i;
            if end > start && chars[end - 1] == '\r' {
                end = end - 1;
            }
            let line = text.substring_char(start, end);
            proof {
                assert(first_break(rest, at)) by {
                    assert(rest[at] == '\n');
                    assert forall|j: int| 0 <= j < at implies #[trigger] rest[j] != '\n' by {
                        assert(rest[j] == text@[start + j]);
                    }
                }
                let chosen = choose|k: int| first_break(rest, k);
                lemma_break_is_unique(rest, at, chosen);
                assert(rest.take(at) =~= text@.subrange(start as int, i as int));
                assert(line@ =~= line_text(rest.take(at)));
                assert(rest.skip(at + 1) =~= text@.skip(i + 1));
                assert(lines(rest) == seq![line@] + lines(text@.skip(i + 1)));
                assert(told + (seq![line@] + lines(text@.skip(i + 1))) =~= told.push(line@) + lines(
                    text@.skip(i + 1),
                ));
                told = told.push(line@);
            }
            list.push(line.to_owned());
            start = i + 1;
        }
        i = i + 1;
    }
    let ghost rest = text@.skip(start as int);
    if start < n {
        let line = text.substring_char(start, n);
        proof {
            if exists|k: int| first_break(rest, k) {
                let k = choose|k: int| first_break(rest, k);
                assert(rest[k] == text@[start + k]);
            }
            assert(line@ =~= rest);
            assert(told + seq![rest] =~= told.push(rest));
            told = told.push(rest);
        }
        list.push(line.to_owned());
    } else {
        assert(told + Seq::<Seq<char>>::empty() =~= told);
    }
    list
}

/// The first line that starts with a head, without that head.
pub open spec fn first_entry(list: Seq<Seq<char>>, head: Seq<char>) -> Option<Seq<char>>
    decreases list.len(),
{
    if list.len() == 0 {
        None
    } else if has_head(list[0], head) {
        Some(list[0].skip(head.len() as int))
    } else {
        first_entry(list.skip(1), head)
    }
}

/// The first line that starts with a head, without that head.
pub fn entry_in(text: &str, head: &str) -> (entry: Option<String>)
    ensures
        match entry {
            Some(t) => first_entry(lines(text@), head@) == Some(t@),
            None => first_entry(lines(text@), head@) is None,
        },
{
    let list = lines_of(text);
    let n: usize = list.len();
    let ghost all = lines(text@);
    assert(all.skip(0) =~= all);
    for i in 0..n
        invariant
            n == list@.len(),
            n == all.len(),
            forall|j: int| 0 <= j < n ==> #[trigger] list@[j]@ == all[j],
            first_entry(all, head@) == first_entry(all.skip(i as int), head@),
            all == lines(text@),
    {
        assert(all.skip(i as int)[0] == all[i as int]);
        assert(all.skip(i as int).skip(1) =~= all.skip(i + 1));
        match tail_behind(list[i].as_str(), head) {
            Some(t) => {
                return Some(t);
            },
            None => {},
        }
    }
    None
}

/// Whether a control group holds processes, from what `cgroup.events` tells.
pub open spec fn populated_in(events: Seq<u8>) -> Option<bool> {
    if valid_utf8(events) {
        match first_entry(lines(decode_utf8(events)), "populated "@) {
            Some(value) => Some(trimmed(value) == "1"@),
            None => None,
        }
    } else {
        None
    }
}

/// Whether a control group holds processes, from what `cgroup.events` tells.
pub fn cgroup_populated(events: &[u8]) -> (result: Result<bool, String>)
    ensures
        match result {
            Ok(populated) => populated_in(events@) == Some(populated),
            Err(e) => populated_in(events@) is None && e@ == "operation cgroup state is invalid"@,
        },
{
    match core::str::from_utf8(events) {
        Err(_) => Err("operation cgroup state is invalid".to_owned()),
        Ok(text) => {
            proof {
                encode_utf8_decode_utf8(text@);
            }
            match entry_in(text, "populated ") {
                Some(value) => {
                    let told = trim(value.as_str());
                    Ok(same_text(told.as_str(), "1"))
                },
                None => Err("operation cgroup state is invalid".to_owned()),
            }
        },
    }
}

/// Where a delegated control group is looked for: where the user says, where the
/// process lives, or where the session of a user is by default.
pub open spec fn cgroup_root_choice(
    configured: Option<Seq<char>>,
    own: Option<Seq<char>>,
    uid: u32,
) -> Seq<char> {
    match configured {
        Some(path) => path,
        None => match own {
            Some(path) => "/sys/fs/cgroup/"@ + path,
            None => "/sys/fs/cgroup/user.slice/user-"@ + decimal(uid as nat) + ".slice/user@"@
                + decimal(uid as nat) + ".service"@,
        },
    }
}

/// The place that the user has set, if any.
pub open spec fn configured_root(value: Option<Seq<char>>) -> Option<Seq<char>> {
    match value {
        Some(path) => if blank(path) {
            None
        } else {
            Some(path)
        },
        None => None,
    }
}

/// The place of the process in the unified hierarchy, without the slash that it
/// starts with, from what `/proc/self/cgroup` tells.
pub open spec fn own_cgroup(report: Option<Seq<char>>) -> Option<Seq<char>> {
    match report {
        Some(text) => first_entry(lines(text), "0::/"@),
        None => None,
    }
}

/// What is wrong with the place of a delegated control group.
pub open spec fn cgroup_root_fault(path: Seq<char>) -> Option<Seq<char>> {
    if !absolute(path) {
        Some("cgroup root must be absolute"@)
    } else if steps_back(path) {
        Some("cgroup root cannot contain dot components"@)
    } else {
        None
    }
}

/// What an optional text stands for.
pub open spec fn optional_str(value: Option<&str>) -> Option<Seq<char>> {
    match value {
        Some(text) => Some(text@),
        None => None,
    }
}

fn set_root(configured: Option<&str>) -> (set: Option<String>)
    ensures
        optional_text(set) == configured_root(optional_str(configured)),
{
    match configured {
        Some(path) => {
            if is_blank(path) {
                None
            } else {
                Some(path.to_owned())
            }
        },
        None => None,
    }
}

/// Whether the delegated control group has to be looked for above the place that
/// was chosen: not where the user has set it.
pub fn searches_upwards(configured: Option<&str>) -> (r: bool)
    ensures
        r == (configured_root(optional_str(configured)) is None),
{
    set_root(configured).is_none()
}

/// Where a delegated control group is looked for.
pub fn cgroup_root(configured: Option<&str>, report: Option<&str>, uid: u32) -> (result: Result<
    String,
    String,
>)
    ensures
        ({
            let choice = cgroup_root_choice(
                configured_root(optional_str(configured)),
                own_cgroup(optional_str(report)),
                uid,
            );
            match result {
                Ok(path) => path@ == choice && cgroup_root_fault(choice) is None,
                Err(e) => cgroup_root_fault(choice) == Some(e@),
            }
        }),
{
    let set = set_root(configured);
    let path = match set {
        Some(path) => path,
        None => {
            let own = match report {
                Some(text) => entry_in(text, "0::/"),
                None => None,
            };
            match own {
                Some(rest) => joined("/sys/fs/cgroup/", rest.as_str()),
                None => {
                    let number = decimal_text(uid as u64);
                    let mut path = "/sys/fs/cgroup/user.slice/user-".to_owned();
                    path.append(number.as_str());
                    path.append(".slice/user@");
                    path.append(number.as_str());
                    path.append(".service");
                    path
                },
            }
        },
    };
    if !is_absolute(path.as_str()) {
        return Err("cgroup root must be absolute".to_owned());
    }
    if has_step_back(path.as_str()) {
        return Err("cgroup root cannot contain dot components".to_owned());
    }
    Ok(path)
}

/// Whether a directory may lie on the way to the delegated control group, before
/// that group is looked for.
pub fn check_cgroup_root_component(facts: &FileFacts) -> (result: Result<(), String>)
    ensures
        verdict(
            result,
            if facts.kind == FileKind::Symlink {
                Some("delegated cgroup root cannot contain symlink components"@)
            } else if facts.kind == FileKind::Directory && open_to_others(*facts) {
                Some("delegated cgroup root contains a writable directory"@)
            } else {
                None
            },
        ),
{
    if matches!(facts.kind, FileKind::Symlink) {
        return Err("delegated cgroup root cannot contain symlink components".to_owned());
    }
    if matches!(facts.kind, FileKind::Directory) && facts.mode & 0o022 != 0 {
        return Err("delegated cgroup root contains a writable directory".to_owned());
    }
    Ok(())
}

/// A control file that the user may write to.
pub open spec fn control_file(facts: Option<FileFacts>, uid: u32) -> bool {
    facts matches Some(f) && f.uid == uid && f.mode & 0o200 != 0 && f.kind != FileKind::Symlink
}

/// A control group that is delegated to the user.
pub open spec fn delegated(
    directory: FileFacts,
    kill: Option<FileFacts>,
    procs: Option<FileFacts>,
    uid: u32,
) -> bool {
    directory.kind == FileKind::Directory && directory.uid == uid && control_file(kill, uid)
        && control_file(procs, uid)
}

fn is_control_file(facts: &Option<FileFacts>, uid: u32) -> (r: bool)
    ensures
        r == control_file(*facts, uid),
{
    match facts {
        Some(f) => f.uid == uid && f.mode & 0o200 != 0 && !matches!(f.kind, FileKind::Symlink),
        None => false,
    }
}

/// Whether a control group is delegated to the user.
pub fn is_delegated(
    directory: &FileFacts,
    kill: &Option<FileFacts>,
    procs: &Option<FileFacts>,
    uid: u32,
) -> (r: bool)
    ensures
        r == delegated(*directory, *kill, *procs, uid),
{
    matches!(directory.kind, FileKind::Directory) && directory.uid == uid && is_control_file(
        kill,
        uid,
    ) && is_control_file(procs, uid)
}

/// The path that some names make.
pub open spec fn path_text(list: Seq<Seq<char>>) -> Seq<char>
    decreases list.len(),
{
    if list.len() == 0 {
        "/"@
    } else if list.len() == 1 {
        "/"@ + list[0]
    } else {
        path_text(list.drop_last()) + "/"@ + list.last()
    }
}

/// The place where all control groups are mounted.
pub open spec fn mount_point() -> Seq<Seq<char>> {
    seq!["sys"@, "fs"@, "cgroup"@]
}

/// How many of the directories above a path are looked at: up to the place where
/// control groups are mounted, and up to the root where that is not passed.
pub open spec fn ancestors_end(list: Seq<Seq<char>>) -> int {
    if list.len() >= 3 && list.take(3) == mount_point() {
        3
    } else {
        0
    }
}

/// The directories in which a delegated control group is looked for, from the
/// path itself upwards.
pub fn root_candidates(path: &str) -> (list: Vec<String>)
    ensures
        list@.len() == names(path@).len() - ancestors_end(names(path@)) + 1,
        forall|i: int|
            0 <= i < list@.len() ==> #[trigger] list@[i]@ == path_text(
                names(path@).take(names(path@).len() - i),
            ),
{
    let parts = path_names(path);
    let n: usize = parts.len();
    let ghost all = names(path@);
    let mounted = n >= 3 && same_text(parts[0].as_str(), "sys") && same_text(
        parts[1].as_str(),
        "fs",
    ) && same_text(parts[2].as_str(), "cgroup");
    proof {
        if n >= 3 {
            assert(parts@[0]@ == all[0] && parts@[1]@ == all[1] && parts@[2]@ == all[2]);
            assert(all.take(3)[0] == all[0] && all.take(3)[1] == all[1] && all.take(3)[2] == all[2]);
            if mounted {
                assert(all.take(3) =~= mount_point());
            }
        }
    }
    let end: usize = if mounted {
        3
    } else {
        0
    };
    assert(end == ancestors_end(all));
    let mut paths: Vec<String> = Vec::new();
    paths.push("/".to_owned());
    assert(all.take(0).len() == 0);
    for i in 0..n
        invariant
            n == parts@.len(),
            all == names(path@),
            n == all.len(),
            forall|j: int| 0 <= j < n ==> #[trigger] parts@[j]@ == all[j],
            paths@.len() == i + 1,
            forall|j: int| 0 <= j <= i ==> #[trigger] paths@[j]@ == path_text(all.take(j)),
    {
        let head = if i == 0 {
            String::new()
        } else {
            paths[i].clone()
        };
        let part = joined(head.as_str(), "/");
        let next = joined(part.as_str(), parts[i].as_str());
        proof {
            let longer = all.take(i + 1);
            assert(longer.drop_last() =~= all.take(i as int));
            assert(longer.last() == all[i as int]);
            assert(next@ =~= path_text(longer));
        }
        paths.push(next);
    }
    let mut list: Vec<String> = Vec::new();
    let mut k: usize = paths.len();
    while k > end
        invariant
            end <= k <= n + 1,
            n == all.len(),
            paths@.len() == n + 1,
            forall|j: int| 0 <= j <= n ==> #[trigger] paths@[j]@ == path_text(all.take(j)),
            list@.len() == n + 1 - k,
            forall|i: int|
                0 <= i < list@.len() ==> #[trigger] list@[i]@ == path_text(all.take(n - i)),
        decreases k,
    {
        k = k - 1;
        list.push(paths[k].clone());
    }
    list
}

/// The topmost of the candidates that is delegated.
pub open spec fn topmost(flags: Seq<bool>, i: int) -> bool {
    0 <= i < flags.len() && flags[i] && forall|j: int| i < j < flags.len() ==> !#[trigger] flags[j]
}

/// The topmost of the candidates that is delegated: it outlives the transient
/// groups below it.
pub fn stable_root(flags: &Vec<bool>) -> (result: Result<usize, String>)
    ensures
        match result {
            Ok(i) => topmost(flags@, i as int),
            Err(e) => !flags@.contains(true) && e@
                == "no stable delegated cgroup root is available"@,
        },
{
    let mut i: usize = flags.len();
    while i > 0
        invariant
            i <= flags@.len(),
            forall|j: int| i <= j < flags@.len() ==> !#[trigger] flags@[j],
        decreases i,
    {
        i = i - 1;
        if flags[i] {
            return Ok(i);
        }
    }
    Err("no stable delegated cgroup root is available".to_owned())
}

/// Whether the delegated control group may be used.
pub fn check_cgroup_root(facts: &FileFacts, uid: u32) -> (result: Result<(), String>)
    ensures
        verdict(
            result,
            if facts.kind == FileKind::Directory && facts.uid == uid {
                None
            } else {
                Some("delegated cgroup root is not owned by the current user"@)
            },
        ),
{
    if !matches!(facts.kind, FileKind::Directory) || facts.uid != uid {
        return Err("delegated cgroup root is not owned by the current user".to_owned());
    }
    Ok(())
}

/// Whether a control group that was just made may be used.
pub fn check_new_cgroup(facts: &FileFacts, uid: u32) -> (result: Result<(), String>)
    ensures
        verdict(
            result,
            if facts.kind == FileKind::Directory && facts.uid == uid {
                None
            } else {
                Some("dedicated operation cgroup has an unexpected owner"@)
            },
        ),
{
    if !matches!(facts.kind, FileKind::Directory) || facts.uid != uid {
        return Err("dedicated operation cgroup has an unexpected owner".to_owned());
    }
    Ok(())
}

/// What is told of a control group that was just made and cannot be used.
pub fn unusable_cgroup_message(error: String, removed: bool) -> (text: String)
    ensures
        text@ == if removed {
            error@
        } else {
            error@ + "; operation cgroup cleanup pending"@
        },
{
    if removed {
        error
    } else {
        joined(error.as_str(), "; operation cgroup cleanup pending")
    }
}

/// Whether a control group that is about to be removed is still the same one.
pub fn check_unchanged_cgroup(recorded: CgroupIdentity, found: CgroupIdentity) -> (result: Result<
    (),
    String,
>)
    ensures
        verdict(
            result,
            if recorded == found {
                None
            } else {
                Some("operation cgroup changed before removal"@)
            },
        ),
{
    if recorded != found {
        return Err("operation cgroup changed before removal".to_owned());
    }
    Ok(())
}

/// The fence of another owner is past from the moment that it is taken; that of this
/// process is its own.
pub proof fn law_foreign_fences_are_past(
    owner: Seq<char>,
    this_process: Seq<char>,
    identity: CgroupIdentity,
    clock: ClockModel,
)
    ensures
        owner == this_process ==> fence_for(owner, this_process, identity, clock) == own_fence(
            owner,
            identity,
            clock,
        ),
        owner != this_process ==> ({
            let fence = fence_for(owner, this_process, identity, clock);
            &&& fence.owner == owner
            &&& fence.identity == Some(identity)
            &&& fence.expires_at == clock.wall
            &&& fence_expired(fence, clock)
            &&& clock.mono is Some && clock.boot is Some ==> fence.expires_mono == clock.mono
                && fence.boot_id == clock.boot
            &&& clock.mono is None || clock.boot is None ==> fence.expires_mono is None
                && fence.boot_id is None
        }),
{
}

/// Whether only a fence was put on a path.
pub open spec fn only_fenced(
    before: StateModel,
    after: StateModel,
    path: Seq<char>,
    fence: FenceModel,
) -> bool {
    &&& after.operation_cgroups == before.operation_cgroups.insert(path, fence)
    &&& after.records == before.records
    &&& after.schema_version == before.schema_version
    &&& after.recovery_mode == before.recovery_mode
}

/// Whether only the fence on a path was dropped.
pub open spec fn only_unfenced(before: StateModel, after: StateModel, path: Seq<char>) -> bool {
    &&& after.operation_cgroups == before.operation_cgroups.remove(path)
    &&& after.records == before.records
    &&& after.schema_version == before.schema_version
    &&& after.recovery_mode == before.recovery_mode
}

/// A control group is fenced once: as long as fewer than a thousand and twenty-four are,
/// and unless it is already. A fence gives way only to one on another group at the same
/// path, and only if it is the one that is known to have been there before.
pub proof fn law_control_groups_are_fenced_once(
    state: StateModel,
    path: Seq<char>,
    expected: Option<CgroupIdentity>,
    identity: CgroupIdentity,
    fence: FenceModel,
)
    requires
        state.operation_cgroups.dom().finite(),
    ensures
        ({
            let held = state.operation_cgroups.contains_key(path);
            let full = state.operation_cgroups.len() >= 1024;
            let full_without = state.operation_cgroups.len() > 1024;
            let outdated = held && expected is Some && state.operation_cgroups[path].identity
                == expected && expected != Some(identity);
            let put = cgroup_registered(state, path, fence);
            let replaced = cgroup_replaced(state, path, expected, identity, fence);
            let refusal = Err::<(StateModel, bool), Seq<char>>(
                "operation cgroup capacity has been reached"@,
            );
            &&& held ==> put == Ok::<(StateModel, bool), Seq<char>>((state, false))
            &&& !held && full ==> put == refusal && replaced == refusal
            &&& !held && !full ==> put is Ok && put->Ok_0.1 && only_fenced(
                state,
                put->Ok_0.0,
                path,
                fence,
            ) && replaced == put
            &&& held && !outdated ==> replaced == Ok::<(StateModel, bool), Seq<char>>(
                (state, false),
            )
            &&& outdated && full_without ==> replaced == refusal
            &&& outdated && !full_without ==> replaced is Ok && replaced->Ok_0.1 && only_fenced(
                state,
                replaced->Ok_0.0,
                path,
                fence,
            )
        }),
{
}

/// A fence is dropped exactly if it is still on that very group, and a stale one exactly
/// if it is still the same fence.
pub proof fn law_fences_are_dropped_by_identity(
    state: StateModel,
    path: Seq<char>,
    identity: CgroupIdentity,
    fence: FenceModel,
)
    ensures
        ({
            let held = state.operation_cgroups.contains_key(path);
            let on_it = held && state.operation_cgroups[path].identity == Some(identity);
            let same = held && state.operation_cgroups[path] == fence;
            &&& on_it ==> only_unfenced(state, cgroup_forgotten(state, path, identity), path)
            &&& !on_it ==> cgroup_forgotten(state, path, identity) == state
            &&& same ==> only_unfenced(state, fence_released(state, path, fence), path)
            &&& !same ==> fence_released(state, path, fence) == state
        }),
{
}

/// The functions that fence a control group and drop its fence do to the state what is
/// said of it; one that is fenced already cannot be taken for a new one.
pub proof fn law_fences_are_kept_in_the_state(
    raw: &str,
    expected: Option<CgroupIdentity>,
    identity: CgroupIdentity,
    owner: &str,
    this_process: &str,
    clock: &Clock,
    fence: &OperationCgroupFence,
    absent: bool,
    added: Result<bool, String>,
    taken: Result<(), String>,
)
    ensures
        forall|state: &mut State| #[trigger]
            call_ensures(
                register_operation_cgroup_with_owner,
                (state, raw, identity, owner, this_process, clock),
                added,
            ) ==> match cgroup_registered(
                state@,
                raw@,
                fence_for(owner@, this_process@, identity, clock@),
            ) {
                Ok((after, put)) => added == Ok::<bool, String>(put) && final(state)@ == after,
                Err(e) => added is Err && added->Err_0@ == e && final(state)@ == state@,
            },
        forall|state: &mut State| #[trigger]
            call_ensures(
                register_operation_cgroup_replacing_identity,
                (state, raw, expected, identity, owner, this_process, clock),
                added,
            ) ==> match cgroup_replaced(
                state@,
                raw@,
                expected,
                identity,
                fence_for(owner@, this_process@, identity, clock@),
            ) {
                Ok((after, put)) => added == Ok::<bool, String>(put) && final(state)@ == after,
                Err(e) => added is Err && added->Err_0@ == e && final(state)@ == state@,
            },
        forall|state: &mut State| #[trigger]
            call_ensures(
                register_operation_cgroup,
                (state, raw, identity, this_process, clock),
                taken,
            ) ==> {
                let held = state@.operation_cgroups.contains_key(raw@);
                let full = state@.operation_cgroups.len() >= 1024;
                &&& taken is Ok <==> !held && !full
                &&& taken is Ok ==> only_fenced(
                    state@,
                    final(state)@,
                    raw@,
                    own_fence(this_process@, identity, clock@),
                )
                &&& taken is Err ==> final(state)@ == state@ && taken->Err_0@ == if held {
                    "operation cgroup is already registered"@
                } else {
                    "operation cgroup capacity has been reached"@
                }
            },
        forall|state: &mut State| #[trigger]
            call_ensures(unregister_operation_cgroup_if_identity, (state, raw, identity), ())
                ==> final(state)@ == cgroup_forgotten(state@, raw@, identity),
        forall|state: &mut State| #[trigger]
            call_ensures(forget_operation_cgroup_if_absent, (state, raw, identity, absent), ())
                ==> final(state)@ == if absent {
                cgroup_forgotten(state@, raw@, identity)
            } else {
                state@
            },
        forall|state: &mut State| #[trigger]
            call_ensures(release_fence, (state, raw, fence), ()) ==> final(state)@
                == fence_released(state@, raw@, fence@),
{
}

/// A control group is killed exactly if it is the recorded one and belongs to the user;
/// one that is gone needs no killing; and anything else is left alone and told.
pub proof fn law_recorded_control_groups_are_killed(
    expected: Option<CgroupIdentity>,
    found: Option<FileFacts>,
    uid: u32,
    result: Result<Option<CgroupIdentity>, String>,
)
    requires
        call_ensures(kill_cgroup_path, (expected, found, uid), result),
    ensures
        ({
            let theirs = found is Some && found->0.kind is Directory && found->0.uid == uid
                && expected == Some(found->0.identity);
            &&& expected is None ==> result is Err && result->Err_0@
                == "recorded operation cgroup identity is unavailable"@
            &&& expected is Some && found is None ==> result == Ok::<
                Option<CgroupIdentity>,
                String,
            >(None)
            &&& expected is Some && theirs ==> result == Ok::<Option<CgroupIdentity>, String>(
                expected,
            )
            &&& expected is Some && found is Some && !theirs ==> result is Err && result->Err_0@
                == if !(found->0.kind is Directory) {
                "recorded cgroup path is not a regular directory"@
            } else if found->0.uid != uid {
                "recorded cgroup has an unexpected owner"@
            } else {
                "recorded cgroup identity no longer matches"@
            }
        }),
{
}

/// A fence has gone stale exactly if its moment has passed or its owner is another process
/// that is known to be dead.
pub proof fn law_abandoned_fences_are_stale(
    fence: &OperationCgroupFence,
    this_process: &str,
    found: ProcessLiveness,
    clock: &Clock,
    stale: bool,
)
    requires
        call_ensures(is_fence_stale, (fence, this_process, found, clock), stale),
    ensures
        stale <==> abandoned(fence@, this_process@, found, clock@),
{
}

/// Nobody accounts for a control group exactly if no fence is kept of that very group, it
/// belongs to the user, and it was not changed for half a minute.
pub proof fn law_old_unfenced_groups_are_orphans(
    known: Option<CgroupIdentity>,
    facts: &FileFacts,
    uid: u32,
    changed: i64,
    now: u64,
    age: Option<u64>,
    orphan: bool,
)
    requires
        call_ensures(cgroup_age_seconds, (changed, now), age),
        call_ensures(is_orphaned, (known, facts, uid, age), orphan),
    ensures
        orphan <==> known != Some(facts.identity) && facts.uid == uid && changed >= 0 && now
            - changed >= 30,
        age is Some <==> changed >= 0,
        age matches Some(seconds) ==> seconds == if now >= changed {
            now - changed
        } else {
            0
        },
{
}

/// An orphan with processes in it is fenced, killed and released, in this order and only
/// as long as each goes well; an empty one is removed.
pub proof fn law_orphans_are_seen_to_step_by_step(
    answer: bool,
    looked: OrphanStep,
    fenced_next: OrphanStep,
    killed: OrphanStep,
    removed: OrphanStep,
    released: OrphanStep,
)
    requires
        call_ensures(after_orphan_step, (OrphanStep::LookInside, answer), looked),
        call_ensures(after_orphan_step, (OrphanStep::Fence, answer), fenced_next),
        call_ensures(after_orphan_step, (OrphanStep::Kill, answer), killed),
        call_ensures(after_orphan_step, (OrphanStep::Remove, answer), removed),
        call_ensures(after_orphan_step, (OrphanStep::Release, answer), released),
    ensures
        answer ==> looked is Fence && fenced_next is Kill && killed is Release,
        !answer ==> looked is Remove && fenced_next is Leave && killed is Leave,
        removed is Leave && released is Leave,
{
}

/// A control group is one of this program exactly if its name starts with that of this
/// program and a hyphen.
pub proof fn law_own_groups_are_known_by_name(name: &str, own: bool)
    requires
        call_ensures(is_operation_cgroup_name, (name,), own),
    ensures
        own <==> exists|rest: Seq<char>| name@ == #[trigger] ("codex-secret-handoff-"@ + rest),
{
    let head = "codex-secret-handoff-"@;
    if own {
        let rest = name@.skip(head.len() as int);
        assert(name@ =~= head + rest);
    }
    if exists|rest: Seq<char>| name@ == #[trigger] (head + rest) {
        let rest = choose|rest: Seq<char>| name@ == #[trigger] (head + rest);
        assert(name@.take(head.len() as int) =~= head);
    }
}

/// A line ends at the first line break, with or without a carriage return before it; what
/// follows the last line break is a line unless it is empty.
pub proof fn law_lines_end_at_line_breaks(line: Seq<char>, rest: Seq<char>)
    requires
        forall|i: int| 0 <= i < line.len() ==> #[trigger] line[i] != '\n',
    ensures
        lines(Seq::<char>::empty()).len() == 0,
        line.len() > 0 ==> lines(line) == seq![line],
        line.len() == 0 || line.last() != '\r' ==> lines(line + seq!['\n'] + rest) == seq![line]
            + lines(rest),
        lines(line + seq!['\r', '\n'] + rest) == seq![line] + lines(rest),
{
    let plain = line + seq!['\n'] + rest;
    assert(plain[line.len() as int] == '\n');
    assert(first_break(plain, line.len() as int)) by {
        assert forall|j: int| 0 <= j < line.len() implies #[trigger] plain[j] != '\n' by {
            assert(plain[j] == line[j]);
        }
    }
    let i = choose|i: int| first_break(plain, i);
    lemma_break_is_unique(plain, i, line.len() as int);
    assert(plain.take(i) =~= line);
    assert(plain.skip(i + 1) =~= rest);
    let returned = line + seq!['\r', '\n'] + rest;
    let longer = line + seq!['\r'];
    assert(returned[line.len() as int + 1] == '\n');
    assert(first_break(returned, line.len() as int + 1)) by {
        assert forall|j: int| 0 <= j < line.len() + 1 implies #[trigger] returned[j] != '\n' by {
            if j < line.len() {
                assert(returned[j] == line[j]);
            }
        }
    }
    let k = choose|i: int| first_break(returned, i);
    lemma_break_is_unique(returned, k, line.len() as int + 1);
    assert(returned.take(k) =~= longer);
    assert(returned.skip(k + 1) =~= rest);
    assert(longer.drop_last() =~= line);
}

/// Whether a line is the first that starts with a head.
pub open spec fn first_with_head(list: Seq<Seq<char>>, head: Seq<char>, i: int) -> bool {
    0 <= i < list.len() && has_head(list[i], head) && forall|j: int|
        0 <= j < i ==> !has_head(#[trigger] list[j], head)
}

/// What is read of a report stands behind the head of the first line that has it.
pub proof fn law_entries_are_read_from_their_line(list: Seq<Seq<char>>, head: Seq<char>)
    ensures
        first_entry(list, head) is None <==> forall|j: int|
            0 <= j < list.len() ==> !has_head(#[trigger] list[j], head),
        forall|i: int| #[trigger]
            first_with_head(list, head, i) ==> first_entry(list, head) is Some && list[i] == head
                + first_entry(list, head)->0,
    decreases list.len(),
{
    if list.len() > 0 {
        let rest = list.skip(1);
        law_entries_are_read_from_their_line(rest, head);
        if !has_head(list[0], head) {
            if forall|j: int| 0 <= j < rest.len() ==> !has_head(#[trigger] rest[j], head) {
                assert forall|j: int| 0 <= j < list.len() implies !has_head(
                    #[trigger] list[j],
                    head,
                ) by {
                    if j > 0 {
                        assert(rest[j - 1] == list[j]);
                    }
                }
            } else {
                let j = choose|j: int| 0 <= j < rest.len() && has_head(#[trigger] rest[j], head);
                assert(list[j + 1] == rest[j]);
            }
        }
        assert forall|i: int| #[trigger] first_with_head(list, head, i) implies first_entry(
            list,
            head,
        ) is Some && list[i] == head + first_entry(list, head)->0 by {
            if i > 0 {
                assert(!has_head(list[0], head));
                assert forall|j: int| 0 <= j < i - 1 implies !has_head(
                    #[trigger] rest[j],
                    head,
                ) by {
                    assert(rest[j] == list[j + 1]);
                }
                assert(rest[i - 1] == list[i]);
                assert(first_with_head(rest, head, i - 1));
            } else {
                assert(list[0] =~= head + list[0].skip(head.len() as int));
            }
        }
    }
}

/// A control group holds processes exactly if its report says so with a one behind the
/// word `populated`; a report that is no text or has no such line is told.
pub proof fn law_populated_groups_say_so(events: &[u8], result: Result<bool, String>)
    requires
        call_ensures(cgroup_populated, (events,), result),
    ensures
        ({
            let entry = first_entry(lines(decode_utf8(events@)), "populated "@);
            &&& result is Ok <==> valid_utf8(events@) && entry is Some
            &&& result matches Ok(populated) ==> populated == (trimmed(entry->0) == "1"@)
            &&& result matches Err(e) ==> e@ == "operation cgroup state is invalid"@
        }),
{
}

/// The delegated control group is looked for where the user has set it, else from where the
/// process lives, else where the session of the user lives; upwards only where the user
/// has not set it. Such a place starts at the root and never steps up.
pub proof fn law_delegated_groups_are_looked_for(
    configured: Option<&str>,
    report: Option<&str>,
    uid: u32,
    upwards: bool,
    result: Result<String, String>,
)
    requires
        call_ensures(searches_upwards, (configured,), upwards),
        call_ensures(cgroup_root, (configured, report, uid), result),
    ensures
        ({
            let own = first_entry(lines(report->0@), "0::/"@);
            let place = if !upwards {
                configured->0@
            } else if report is Some && own is Some {
                "/sys/fs/cgroup/"@ + own->0
            } else {
                "/sys/fs/cgroup/user.slice/user-"@ + decimal(uid as nat) + ".slice/user@"@
                    + decimal(uid as nat) + ".service"@
            };
            let rooted = place.len() > 0 && place[0] == '/';
            &&& upwards <==> configured is None || blank(configured->0@)
            &&& result is Ok <==> rooted && !steps_back(place)
            &&& result matches Ok(path) ==> path@ == place
            &&& result matches Err(e) ==> e@ == if !rooted {
                "cgroup root must be absolute"@
            } else {
                "cgroup root cannot contain dot components"@
            }
        }),
{
}

/// A control group is delegated exactly if it and the two files that control it belong to
/// the user, who may write to them, and neither is a link.
pub proof fn law_delegated_groups_are_the_users(
    directory: &FileFacts,
    kill: &Option<FileFacts>,
    procs: &Option<FileFacts>,
    uid: u32,
    delegated_here: bool,
    component: Result<(), String>,
    root: Result<(), String>,
    made: Result<(), String>,
)
    requires
        call_ensures(is_delegated, (directory, kill, procs, uid), delegated_here),
        call_ensures(check_cgroup_root_component, (directory,), component),
        call_ensures(check_cgroup_root, (directory, uid), root),
        call_ensures(check_new_cgroup, (directory, uid), made),
    ensures
        delegated_here <==> directory.kind is Directory && directory.uid == uid && kill is Some
            && kill->0.uid == uid && kill->0.mode & 0o200 != 0 && !(kill->0.kind is Symlink)
            && procs is Some && procs->0.uid == uid && procs->0.mode & 0o200 != 0 && !(
        procs->0.kind is Symlink),
        component is Ok <==> !(directory.kind is Symlink) && !(directory.kind is Directory
            && directory.mode & 0o022 != 0),
        component matches Err(e) ==> e@ == if directory.kind is Symlink {
            "delegated cgroup root cannot contain symlink components"@
        } else {
            "delegated cgroup root contains a writable directory"@
        },
        root is Ok <==> directory.kind is Directory && directory.uid == uid,
        root matches Err(e) ==> e@ == "delegated cgroup root is not owned by the current user"@,
        made is Ok <==> directory.kind is Directory && directory.uid == uid,
        made matches Err(e) ==> e@ == "dedicated operation cgroup has an unexpected owner"@,
{
}

/// The places above a path in which a delegated control group is looked for go up one name
/// at a time, to the place where control groups are mounted where the path lies below
/// that, and to the root otherwise.
pub proof fn law_candidates_go_up_one_by_one(path: &str, list: Vec<String>, i: int)
    requires
        call_ensures(root_candidates, (path,), list),
        0 <= i < list@.len(),
    ensures
        ({
            let all = names(path@);
            let mounted = all.len() >= 3 && all[0] == "sys"@ && all[1] == "fs"@ && all[2]
                == "cgroup"@;
            &&& list@.len() == if mounted {
                all.len() - 2
            } else {
                all.len() as int + 1
            }
            &&& list@[i]@ == path_text(all.take(all.len() - i))
        }),
{
    let all = names(path@);
    if all.len() >= 3 {
        assert(all.take(3)[0] == all[0] && all.take(3)[1] == all[1] && all.take(3)[2] == all[2]);
        if all[0] == "sys"@ && all[1] == "fs"@ && all[2] == "cgroup"@ {
            assert(all.take(3) =~= mount_point());
        }
    }
}

/// Names make a path with a slash before each of them, and no names make the root.
pub proof fn law_names_make_a_path(list: Seq<Seq<char>>, name: Seq<char>)
    ensures
        path_text(Seq::<Seq<char>>::empty()) == "/"@,
        list.len() == 0 ==> path_text(list.push(name)) == "/"@ + name,
        list.len() > 0 ==> path_text(list.push(name)) == path_text(list) + "/"@ + name,
{
    assert(list.push(name).drop_last() =~= list);
}

/// Of the places that are delegated the topmost is taken, and there has to be one.
pub proof fn law_the_topmost_delegated_group_is_taken(
    flags: &Vec<bool>,
    result: Result<usize, String>,
)
    requires
        call_ensures(stable_root, (flags,), result),
    ensures
        result is Ok <==> exists|i: int| 0 <= i < flags@.len() && #[trigger] flags@[i],
        result matches Ok(i) ==> i < flags@.len() && flags@[i as int] && forall|j: int|
            i < j < flags@.len() ==> !#[trigger] flags@[j],
        result matches Err(e) ==> e@ == "no stable delegated cgroup root is available"@,
{
    if exists|i: int| 0 <= i < flags@.len() && #[trigger] flags@[i] {
        let i = choose|i: int| 0 <= i < flags@.len() && #[trigger] flags@[i];
        assert(flags@.contains(true));
    }
}

/// A control group that was just made and cannot be used is told of with what is left of
/// it, and one that is about to be removed has to be the same one still.
pub proof fn law_unusable_groups_are_told_of(
    error: String,
    removed: bool,
    text: String,
    recorded: CgroupIdentity,
    found: CgroupIdentity,
    result: Result<(), String>,
)
    requires
        call_ensures(unusable_cgroup_message, (error, removed), text),
        call_ensures(check_unchanged_cgroup, (recorded, found), result),
    ensures
        removed ==> text@ == error@,
        !removed ==> text@ == error@ + "; operation cgroup cleanup pending"@,
        result is Ok <==> recorded == found,
        result matches Err(e) ==> e@ == "operation cgroup changed before removal"@,
{
}

/// Reports are cut into lines and read as their laws say.
pub proof fn law_reports_are_read_line_by_line(
    text: &str,
    head: &str,
    tail: Option<String>,
    list: Vec<String>,
    entry: Option<String>,
)
    requires
        call_ensures(tail_behind, (text, head), tail),
        call_ensures(lines_of, (text,), list),
        call_ensures(entry_in, (text, head), entry),
    ensures
        tail is Some <==> head@.len() <= text@.len() && text@.take(head@.len() as int) == head@,
        tail matches Some(t) ==> text@ == head@ + t@,
        list@.len() == lines(text@).len(),
        forall|i: int| 0 <= i < list@.len() ==> (#[trigger] list@[i])@ == lines(text@)[i],
        entry is Some <==> first_entry(lines(text@), head@) is Some,
        entry matches Some(e) ==> first_entry(lines(text@), head@) == Some(e@),
{
    if let Some(t) = tail {
        assert(text@ =~= head@ + t@);
    }
}

} // verus!
