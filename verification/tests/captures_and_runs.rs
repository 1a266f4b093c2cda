use secret_handoff::clock::{Clock, LeaseLiveness};
use secret_handoff::flow::{
    after_activate, after_claim, after_clean, after_close, after_end, after_expiry_check,
    after_finish, after_give_up, after_hand_back, after_launch, after_load, after_lookup,
    after_lost_entry, after_prompt, after_provision, after_room, after_store, after_unwanted,
    after_wait, capture_expired, capture_report, check_delete, delete_report, finish_outcome,
    is_outcome_uncertain, plan_capture, provision_capture, provision_under, run_report,
    CaptureStep, FinishStep, RunStep,
};
use secret_handoff::lifecycle::{
    activate_capture, cleanup_outcome, clear_helper, delete_handle, finalize_cleanup_parts,
    has_keyring_entry, heeds_cancellation, mark_cleanup_pending, observe_helper, plan_cleanup,
    register_helper, validate_text, validate_ttl, CleanupPurpose, HelperProcess,
};
use secret_handoff::reconcile::{reconcile_record, reconcile_records, Reading};
use secret_handoff::record::{
    cleanup_action_for_helper, CaptureFence, CgroupIdentity, CleanupAction, HelperFence,
    LifecycleStatus, RunClaim, SecretRecord,
};
use secret_handoff::requests::CaptureRequest;
use secret_handoff::run::{
    append_cleanup_error, check_launch, claim_for_run, claim_with_id, finish_record, launch_begin,
    launch_failed, launch_next, note_running, note_start_failure, note_unverified, reserve_launch,
    restore_claim, start_failure_error, stopped_error, undone_error, unverified_error,
    verify_operation, ClaimDecision, LaunchError, LaunchPhase, LaunchStep, Unverified,
};
use secret_handoff::secret::SecretBytes;
use secret_handoff::state::{ensure_capture_capacity, State, MAX_OPERATION_CGROUPS, MAX_RECORDS};
use secret_handoff::status::{handle_status, list_status};
use secret_handoff::validate::{check_state, commit_change, read_state};

const ID: CgroupIdentity = CgroupIdentity { dev: 5, ino: 6 };
const CGROUP: &str = "/sys/fs/cgroup/codex-secret-handoff-1";

fn clock() -> Clock {
    Clock { wall: 1000, mono: Some(50), boot: Some("boot".into()) }
}

fn after_seconds(seconds: u64) -> Clock {
    Clock { wall: 1000 + seconds, mono: Some(50 + seconds), boot: Some("boot".into()) }
}

fn error<T>(result: Result<T, String>) -> String {
    result.err().expect("error")
}

fn failed(text: &str) -> Result<(), String> {
    Err(text.to_owned())
}

fn request(single_use: bool) -> CaptureRequest {
    CaptureRequest {
        target: " github ".into(),
        label: "publish".into(),
        ttl_seconds: 60,
        single_use,
    }
}

/// A state with one active handle.
fn active(single_use: bool) -> State {
    let mut state = State::default();
    let plan = plan_capture(&request(single_use)).expect("plan");
    provision_under(&mut state, "sh_1", &plan, "me", &clock()).expect("provisioned");
    activate_capture(&mut state, "sh_1", &clock()).expect("active");
    state
}

fn record<'a>(state: &'a State, handle: &str) -> &'a SecretRecord {
    state.records.get(handle).expect("record")
}

fn claim(state: &mut State) -> RunClaim {
    match claim_with_id(state, "sh_1", "claim".into(), "me", &clock()) {
        Ok(ClaimDecision::Granted(claim)) => claim,
        other => panic!("unexpected decision: {other:?}"),
    }
}

fn helper_process() -> HelperProcess {
    HelperProcess { pid: 42, start_ticks: 7, boot_id: "boot".into() }
}

/// A state whose handle runs an operation.
fn running(single_use: bool) -> (State, RunClaim, HelperFence) {
    let mut state = active(single_use);
    let claim = claim(&mut state);
    check_launch(&state, &claim, &clock()).expect("launchable");
    reserve_launch(&mut state, &claim, CGROUP, ID, "me", &clock()).expect("reserved");
    let helper = note_running(&mut state, &claim, &helper_process(), CGROUP, ID, Some(50), 1000)
        .expect("running");
    (state, claim, helper)
}

/// The state as it is read after it was written.
fn stored(mut state: State) -> State {
    commit_change(&mut state, Ok(())).expect("written");
    read_state(Some(state)).expect("read back")
}

#[test]
fn texts_and_times_are_validated() {
    assert!(validate_text("ok", "target").is_ok());
    for text in ["", "  ", "a\nb", "\u{85}x"] {
        assert_eq!(error(validate_text(text, "label")), "invalid label");
    }
    assert!(validate_text(&"ä".repeat(80), "target").is_ok());
    assert_eq!(error(validate_text(&"ä".repeat(81), "target")), "invalid target");
    assert_eq!(validate_ttl(1), Ok(1));
    assert_eq!(validate_ttl(86_400), Ok(86_400));
    for ttl in [0, 86_401] {
        assert_eq!(error(validate_ttl(ttl)), "ttl_seconds must be between 1 and 86400");
    }
    let plan = plan_capture(&request(true)).expect("plan");
    assert_eq!((plan.target.as_str(), plan.label.as_str()), ("github", "publish"));
    let blank = CaptureRequest { label: " ".into(), ..request(true) };
    assert_eq!(error(plan_capture(&blank)), "invalid label");
    let long = CaptureRequest { ttl_seconds: 90_000, ..request(true) };
    assert_eq!(error(plan_capture(&long)), "ttl_seconds must be between 1 and 86400");
}

#[test]
fn captures_make_sound_records() {
    let mut state = State::default();
    let plan = plan_capture(&request(true)).expect("plan");
    let fence = provision_capture(&mut state, &plan, "me", &clock()).expect("provisioned");
    assert!(fence.handle.starts_with("sh_"));
    assert_eq!(fence.handle.len(), 35);
    assert_eq!(fence.generation, 1);
    let made = record(&state, &fence.handle);
    assert_eq!(made.status, LifecycleStatus::Provisioning);
    assert_eq!(made.keyring_account, format!("handoff:{}", fence.handle));
    assert_eq!((made.created_at, made.expires_at), (1000, 1060));
    let mut state = stored(state);
    assert_eq!(capture_expired(&state, &fence.handle, &clock()), Ok(false));
    assert_eq!(capture_expired(&state, &fence.handle, &after_seconds(60)), Ok(true));
    assert_eq!(error(capture_expired(&state, "sh_x", &clock())), "capture state disappeared");
    assert_eq!(
        error(activate_capture(&mut state, &fence.handle, &after_seconds(60))),
        "capture expired before activation"
    );
    activate_capture(&mut state, &fence.handle, &clock()).expect("active");
    assert_eq!(
        error(activate_capture(&mut state, &fence.handle, &clock())),
        "capture was revoked during provisioning"
    );
    assert_eq!(
        error(activate_capture(&mut state, "sh_x", &clock())),
        "capture state disappeared"
    );
    let state = stored(state);
    assert_eq!(record(&state, &fence.handle).generation, 2);
    assert_eq!(record(&state, &fence.handle).lease_owner, None);
}

#[test]
fn captures_are_refused_only_for_records_in_use() {
    let mut state = State::default();
    let plan = plan_capture(&request(true)).expect("plan");
    for index in 0..MAX_RECORDS {
        provision_under(&mut state, &format!("sh_{index:04}"), &plan, "me", &clock())
            .expect("room");
    }
    assert_eq!(
        error(provision_under(&mut state, "sh_last", &plan, "me", &clock())),
        "secret handle capacity has been reached"
    );
    assert_eq!(
        error(ensure_capture_capacity(&mut state)),
        "secret handle capacity has been reached"
    );
    let action = delete_handle(&mut state, "sh_0007").expect("deleted").expect("cleanup");
    finalize_cleanup_parts(&mut state, &action, &Ok(()), &Ok(()), 1001).expect("finalized");
    provision_under(&mut state, "sh_last", &plan, "me", &clock()).expect("room again");
    assert_eq!(state.records.len(), MAX_RECORDS);
    assert!(!state.records.contains_key("sh_0007"));
}

#[test]
fn helpers_are_noted_and_forgotten_by_their_fence() {
    let helper = observe_helper(42, Ok(Some(7)), 42, Some("boot".into())).expect("observed");
    assert_eq!((helper.pid, helper.start_ticks, helper.boot_id.as_str()), (42, 7, "boot"));
    let observe = |ticks, group, boot: Option<&str>| {
        error(observe_helper(42, ticks, group, boot.map(str::to_owned)))
    };
    assert_eq!(observe(Err("stat".into()), 42, None), "stat");
    assert_eq!(observe(Ok(None), 42, None), "helper identity could not be verified");
    assert_eq!(observe(Ok(Some(7)), 41, None), "helper process group could not be verified");
    assert_eq!(observe(Ok(Some(7)), 42, None), "helper boot identity is unavailable");

    let mut state = State::default();
    let plan = plan_capture(&request(true)).expect("plan");
    let fence = provision_under(&mut state, "sh_1", &plan, "me", &clock()).expect("provisioned");
    let mut note = |fence: &CaptureFence, owner: &str| {
        register_helper(&mut state, fence, &helper, "secret-tool-store", CGROUP, ID, owner)
    };
    let unknown = CaptureFence { handle: "sh_x".into(), generation: 1 };
    assert_eq!(error(note(&unknown, "me")), "helper owner record is missing");
    assert_eq!(error(note(&fence, "you")), "helper lifecycle fence was lost");
    let noted = note(&fence, "me").expect("noted");
    assert_eq!(noted.generation, 2);
    assert_eq!(error(note(&fence, "me")), "helper lifecycle fence was lost");
    let mut state = stored(state);
    assert_eq!(record(&state, "sh_1").helper_pid, Some(42));
    let other = HelperFence { start_ticks: 8, ..noted.clone() };
    assert_eq!(error(clear_helper(&mut state, &other)), "helper lifecycle fence was lost");
    clear_helper(&mut state, &noted).expect("forgotten");
    assert_eq!(record(&state, "sh_1").helper_pid, None);
    assert_eq!(record(&state, "sh_1").generation, 3);
    assert_eq!(error(clear_helper(&mut state, &noted)), "helper lifecycle fence was lost");
    delete_handle(&mut state, "sh_1").expect("deleted");
    assert!(clear_helper(&mut state, &noted).is_ok());
    let lost = HelperFence { handle: "sh_x".into(), ..noted };
    assert_eq!(error(clear_helper(&mut state, &lost)), "helper owner record is missing");
}

#[test]
fn captures_leave_nothing_behind() {
    assert!(matches!(after_room(Ok(())), CaptureStep::Prompt));
    assert!(matches!(
        after_room(failed("full")),
        CaptureStep::Refused { error } if error == "full"
    ));
    let secret = || Ok(SecretBytes::new(b"token".to_vec()));
    assert!(matches!(after_prompt(&secret(), false), CaptureStep::Provision));
    assert!(matches!(
        after_prompt(&secret(), true),
        CaptureStep::Refused { error } if error == "secret capture was cancelled"
    ));
    assert!(matches!(
        after_prompt(&Err("closed".into()), false),
        CaptureStep::Refused { error } if error == "closed"
    ));
    assert!(matches!(
        after_prompt(&Ok(SecretBytes::new(b"a\0".to_vec())), false),
        CaptureStep::Refused { error } if error == "secret must not contain NUL bytes"
    ));
    assert!(matches!(after_provision(Ok(())), CaptureStep::Store));
    assert!(matches!(after_provision(failed("x")), CaptureStep::Refused { .. }));
    assert!(matches!(after_store(Ok(()), false), CaptureStep::CheckExpiry));
    match after_store(failed("rejected"), true) {
        CaptureStep::GiveUp { target, note, reply, keep_on_mark, keep_on_cleanup } => {
            assert_eq!(target, LifecycleStatus::Deleted);
            assert_eq!((note.as_str(), reply.as_str()), ("rejected", "rejected"));
            assert!(keep_on_mark && keep_on_cleanup);
        }
        other => panic!("unexpected step: {other:?}"),
    }
    assert!(matches!(
        after_store(Ok(()), true),
        CaptureStep::GiveUp { note, reply, keep_on_mark: false, keep_on_cleanup: true, .. }
            if note == "capture was cancelled after keyring store"
                && reply == "secret capture was cancelled"
    ));
    assert!(matches!(after_expiry_check(Ok(false)), CaptureStep::Activate));
    assert!(matches!(
        after_expiry_check(Ok(true)),
        CaptureStep::GiveUp {
            target: LifecycleStatus::Expired,
            keep_on_mark: false,
            keep_on_cleanup: false,
            ..
        }
    ));
    assert!(matches!(after_expiry_check(Err("gone".into())), CaptureStep::Refused { .. }));
    assert!(matches!(after_activate(Ok(()), false), CaptureStep::Granted));
    assert!(matches!(
        after_activate(Ok(()), true),
        CaptureStep::GiveUp { note, .. } if note == "capture was cancelled before response"
    ));
    assert!(matches!(
        after_activate(failed("capture expired before activation"), false),
        CaptureStep::GiveUp { target: LifecycleStatus::Expired, .. }
    ));
    assert!(matches!(
        after_activate(failed("revoked"), false),
        CaptureStep::GiveUp { target: LifecycleStatus::Deleted, .. }
    ));
    assert!(matches!(
        after_give_up("r".into(), true, true, Ok(())),
        CaptureStep::Clean { answer, keep: true } if answer == "r"
    ));
    assert!(matches!(
        after_give_up("r".into(), true, true, failed("e")),
        CaptureStep::Refused { error } if error == "r; cleanup pending: state fence unavailable"
    ));
    assert!(matches!(
        after_give_up("r".into(), false, true, failed("e")),
        CaptureStep::Refused { error } if error == "e"
    ));
    assert_eq!(after_clean("r".into(), true, Ok(())), "r");
    assert_eq!(after_clean("r".into(), true, failed("e")), "r; cleanup pending: e");
    assert_eq!(after_clean("r".into(), false, failed("e")), "e");
}

#[test]
fn claims_are_exclusive_and_leave_no_trace_unused() {
    let mut state = active(true);
    let before = record(&state, "sh_1").clone();
    let claim = claim(&mut state);
    assert_eq!((claim.account.as_str(), claim.single_use), ("handoff:sh_1", true));
    assert_eq!(claim.generation, 3);
    assert!(matches!(
        claim_for_run(&mut state, "sh_1", "you", &clock()),
        Ok(ClaimDecision::Refused)
    ));
    let mut state = stored(state);
    restore_claim(&mut state, &RunClaim { claim_id: "other".into(), ..claim.clone() });
    assert_eq!(record(&state, "sh_1").status, LifecycleStatus::Claimed);
    restore_claim(&mut state, &claim);
    let after = record(&state, "sh_1");
    assert_eq!(after.status, before.status);
    assert_eq!(after.claim_id, before.claim_id);
    assert_eq!(after.lease_owner, before.lease_owner);
    assert_eq!(after.generation, 4);
    assert!(matches!(
        claim_for_run(&mut state, "sh_1", "me", &clock()),
        Ok(ClaimDecision::Granted(claim)) if claim.claim_id.len() == 32
    ));
    assert_eq!(error(claim_for_run(&mut state, "sh_x", "me", &clock())), "unknown handle");
}

#[test]
fn expiry_is_closed_at_the_claim() {
    let mut state = active(false);
    match claim_for_run(&mut state, "sh_1", "me", &after_seconds(60)) {
        Ok(ClaimDecision::Expired(action)) => {
            assert_eq!(action.target, LifecycleStatus::Expired);
            assert_eq!(action.generation, 3);
        }
        other => panic!("unexpected decision: {other:?}"),
    }
    let state = stored(state);
    assert_eq!(record(&state, "sh_1").status, LifecycleStatus::CleanupPending);
    assert_eq!(record(&state, "sh_1").cleanup_target, Some(LifecycleStatus::Expired));
    assert_eq!(
        record(&state, "sh_1").last_error.as_deref(),
        Some("handle expired before operation claim")
    );
}

#[test]
fn launches_are_checked_and_reserved() {
    let mut state = active(true);
    let claim = claim(&mut state);
    let no_boot = Clock { boot: None, ..clock() };
    let refused = |state: &State, claim: &RunClaim, clock: &Clock| {
        let error = check_launch(state, claim, clock).err().expect("refused");
        assert!(!error.uncertain);
        error.message
    };
    assert_eq!(
        refused(&state, &claim, &no_boot),
        "operation helper boot identity is unavailable"
    );
    let unknown = RunClaim { handle: "sh_x".into(), ..claim.clone() };
    assert_eq!(refused(&state, &unknown, &clock()), "unknown handle");
    let stale = RunClaim { generation: 2, ..claim.clone() };
    assert_eq!(refused(&state, &stale, &clock()), "handle was revoked before operation start");
    assert!(check_launch(&state, &claim, &clock()).is_ok());
    reserve_launch(&mut state, &claim, CGROUP, ID, "me", &clock()).expect("reserved");
    let state = stored(state);
    assert_eq!(record(&state, "sh_1").helper_cgroup.as_deref(), Some(CGROUP));
    assert_eq!(record(&state, "sh_1").generation, 4);
    assert_eq!(state.operation_cgroups.get(CGROUP).expect("fence").owner, "me");

    let mut full = active(true);
    let claim = match claim_with_id(&mut full, "sh_1", "claim".into(), "me", &clock()) {
        Ok(ClaimDecision::Granted(claim)) => claim,
        other => panic!("unexpected decision: {other:?}"),
    };
    for index in 0..MAX_OPERATION_CGROUPS {
        let path = format!("/sys/fs/cgroup/{index}");
        reserve_launch(&mut full, &claim, &path, ID, "me", &clock()).expect("room");
    }
    assert_eq!(
        error(reserve_launch(&mut full, &claim, CGROUP, ID, "me", &clock())),
        "operation cgroup capacity has been reached"
    );
}

#[test]
fn launches_that_fail_are_given_up() {
    let reserved = || {
        let mut state = active(false);
        let claim = claim(&mut state);
        reserve_launch(&mut state, &claim, CGROUP, ID, "me", &clock()).expect("reserved");
        (state, claim)
    };
    let (mut state, claim) = reserved();
    note_start_failure(&mut state, &claim, CGROUP, &Ok(()));
    let state = stored(state);
    let given_up = record(&state, "sh_1");
    assert_eq!(given_up.status, LifecycleStatus::CleanupPending);
    assert_eq!(given_up.helper_cgroup, None);
    assert_eq!(state.operation_cgroups.len(), 0);
    assert_eq!(
        given_up.last_error.as_deref(),
        Some("allowlisted operation could not be started")
    );

    let (mut state, claim) = reserved();
    note_start_failure(&mut state, &claim, CGROUP, &failed("busy"));
    let state = stored(state);
    assert_eq!(record(&state, "sh_1").helper_cgroup.as_deref(), Some(CGROUP));
    assert_eq!(state.operation_cgroups.len(), 1);
    assert_eq!(
        start_failure_error(&failed("busy"), &Ok(())).message,
        "allowlisted operation could not be started; cgroup cleanup pending: busy"
    );
    assert_eq!(
        start_failure_error(&failed("busy"), &failed("disk")).message,
        "allowlisted operation could not be started; cleanup state could not be persisted: disk"
    );

    let (mut state, claim) = reserved();
    note_unverified(&mut state, &claim, Unverified::ProcessGroup, &Some("left".into()));
    let state = stored(state);
    assert_eq!(record(&state, "sh_1").claim_id, None);
    assert_eq!(
        record(&state, "sh_1").last_error.as_deref(),
        Some("operation helper process group could not be verified; left")
    );
    let told = unverified_error(Unverified::Identity, &None, &Ok(()));
    assert!(told.uncertain);
    assert_eq!(told.message, "operation helper identity could not be verified");
    assert_eq!(verify_operation(42, &Ok(Some(7)), 42), Ok(7));
    assert_eq!(verify_operation(42, &Ok(Some(7)), 1), Err(Unverified::ProcessGroup));
    assert_eq!(verify_operation(42, &Ok(None), 42), Err(Unverified::Identity));
    assert_eq!(verify_operation(42, &Err("x".into()), 42), Err(Unverified::Identity));
}

#[test]
fn control_groups_are_noted_before_anything_starts() {
    let mut phases = vec![LaunchPhase::Check];
    loop {
        match launch_next(*phases.last().expect("phase")) {
            LaunchStep::Do(phase) => phases.push(phase),
            LaunchStep::Launched => break,
            other => panic!("unexpected step: {other:?}"),
        }
    }
    assert_eq!(
        phases,
        [
            LaunchPhase::Check,
            LaunchPhase::Create,
            LaunchPhase::Reserve,
            LaunchPhase::Persist,
            LaunchPhase::Prepare,
            LaunchPhase::Spawn,
            LaunchPhase::Verify,
            LaunchPhase::Note,
            LaunchPhase::Commit
        ]
    );
    let fails = |phase| launch_failed(phase, "e".into(), Unverified::Identity);
    assert!(matches!(fails(LaunchPhase::Check), LaunchStep::Refuse(error) if error == "e"));
    assert!(matches!(fails(LaunchPhase::Create), LaunchStep::Refuse(_)));
    assert!(matches!(fails(LaunchPhase::Reserve), LaunchStep::Undo(_)));
    assert!(matches!(fails(LaunchPhase::Persist), LaunchStep::Undo(_)));
    assert!(matches!(fails(LaunchPhase::Prepare), LaunchStep::Undo(_)));
    assert!(matches!(fails(LaunchPhase::Spawn), LaunchStep::Unstarted));
    assert!(matches!(fails(LaunchPhase::Verify), LaunchStep::Unverified(Unverified::Identity)));
    assert!(matches!(fails(LaunchPhase::Commit), LaunchStep::Stop(_)));
    assert_eq!(undone_error("e".into(), &failed("c")).message, "e; cgroup cleanup pending: c");
    assert_eq!(stopped_error("e", &Some("c".into())).message, "e; c");
    assert_eq!(append_cleanup_error("e".into(), &Ok(())), "e");
    assert!(LaunchError::uncertain("e".into()).uncertain);
    assert!(!LaunchError::certain("e".into()).uncertain);
}

#[test]
fn single_use_handles_are_consumed_by_their_run() {
    let (mut state, claim, helper) = running(true);
    let noted = record(&state, "sh_1");
    assert_eq!(noted.status, LifecycleStatus::Running);
    assert_eq!((noted.lease_expires_at, noted.lease_expires_mono), (Some(1090), Some(140)));
    assert_eq!(noted.helper_kind.as_deref(), Some("allowlisted-operation"));
    let action = finish_record(&mut state, &claim, &helper, false, "me")
        .expect("finished")
        .expect("cleanup");
    assert_eq!(action.target, LifecycleStatus::Consumed);
    let mut state = stored(state);
    assert!(matches!(
        claim_for_run(&mut state, "sh_1", "me", &clock()),
        Ok(ClaimDecision::Refused)
    ));
    assert!(has_keyring_entry(&action));
    finalize_cleanup_parts(&mut state, &action, &Ok(()), &Ok(()), 1005).expect("finalized");
    let state = stored(state);
    assert_eq!(record(&state, "sh_1").status, LifecycleStatus::Consumed);
    assert_eq!(record(&state, "sh_1").consumed_at, Some(1005));
}

#[test]
fn reusable_handles_survive_only_certain_runs() {
    let (mut state, claim, helper) = running(false);
    assert!(finish_record(&mut state, &claim, &helper, false, "me").expect("finished").is_none());
    let mut state = stored(state);
    assert_eq!(record(&state, "sh_1").status, LifecycleStatus::Active);
    assert_eq!(record(&state, "sh_1").helper_pid, None);
    assert!(matches!(
        claim_for_run(&mut state, "sh_1", "me", &clock()),
        Ok(ClaimDecision::Granted(_))
    ));

    let (mut state, claim, helper) = running(false);
    let action = finish_record(&mut state, &claim, &helper, true, "me")
        .expect("finished")
        .expect("cleanup");
    assert_eq!(action.target, LifecycleStatus::Deleted);

    let (mut state, claim, helper) = running(false);
    let other = HelperFence { generation: 1, ..helper.clone() };
    assert_eq!(
        error(finish_record(&mut state, &claim, &other, false, "me")),
        "operation lifecycle fence was lost"
    );
    assert_eq!(
        error(finish_record(&mut state, &claim, &helper, false, "you")),
        "operation lifecycle fence was lost"
    );
    let unknown = RunClaim { handle: "sh_x".into(), ..claim.clone() };
    assert_eq!(
        error(finish_record(&mut state, &unknown, &helper, false, "me")),
        "unknown handle"
    );
    for (uncertain, cancelled, helper_error, forget_error) in [
        (true, false, None, None),
        (false, true, None, None),
        (false, false, Some("h"), None),
        (false, false, None, Some("f")),
    ] {
        assert!(is_outcome_uncertain(
            uncertain,
            cancelled,
            &helper_error.map(str::to_owned),
            &forget_error.map(str::to_owned)
        ));
    }
    assert!(!is_outcome_uncertain(false, false, &None, &None));
}

#[test]
fn deletion_revokes_at_once_and_survives_a_run() {
    let (mut state, claim, helper) = running(false);
    let action = delete_handle(&mut state, "sh_1").expect("deleted").expect("cleanup");
    assert_eq!(action.target, LifecycleStatus::Deleted);
    assert_eq!(record(&state, "sh_1").status, LifecycleStatus::Revoked);
    let mut state = stored(state);
    assert!(matches!(
        claim_for_run(&mut state, "sh_1", "me", &clock()),
        Ok(ClaimDecision::Refused)
    ));
    assert_eq!(
        check_launch(&state, &claim, &clock()).err().expect("refused").message,
        "handle was revoked before operation start"
    );
    let cleanup = finish_record(&mut state, &claim, &helper, false, "me")
        .expect("finished")
        .expect("cleanup");
    assert_eq!(cleanup.target, LifecycleStatus::Deleted);
    assert_eq!(record(&state, "sh_1").status, LifecycleStatus::CleanupPending);
    finalize_cleanup_parts(&mut state, &cleanup, &Ok(()), &Ok(()), 1).expect("finalized");
    assert_eq!(record(&state, "sh_1").status, LifecycleStatus::Deleted);
    let mut state = stored(state);
    assert!(delete_handle(&mut state, "sh_1").expect("again").is_none());
    assert_eq!(error(delete_handle(&mut state, "sh_x")), "unknown handle");
    assert_eq!(
        error(mark_cleanup_pending(&mut state, "sh_1", LifecycleStatus::Deleted, "x")),
        "cleanup was already finalized"
    );
    assert_eq!(
        error(mark_cleanup_pending(&mut state, "sh_x", LifecycleStatus::Deleted, "x")),
        "unknown handle"
    );
    assert!(check_delete("sh_1", false).is_ok());
    assert_eq!(error(check_delete("sh_1", true)), "operation was cancelled");
    assert_eq!(error(check_delete(" ", true)), "invalid handle");
}

#[test]
fn cleanup_needs_both_parts() {
    let (mut state, _, _) = running(true);
    let action = delete_handle(&mut state, "sh_1").expect("deleted").expect("cleanup");
    finalize_cleanup_parts(&mut state, &action, &failed("busy"), &Ok(()), 1).expect("noted");
    let mut state = stored(state);
    let left = record(&state, "sh_1");
    assert_eq!(left.status, LifecycleStatus::Revoked);
    assert!(left.cleanup_keyring_done);
    assert_eq!(left.helper_pid, Some(42));
    assert_eq!(left.last_error.as_deref(), Some("helper cleanup failed: busy"));
    finalize_cleanup_parts(&mut state, &action, &Ok(()), &Ok(()), 1).expect("outdated");
    assert_eq!(record(&state, "sh_1").status, LifecycleStatus::Revoked);
    let again = delete_handle(&mut state, "sh_1").expect("deleted").expect("cleanup");
    assert!(!has_keyring_entry(&again));
    finalize_cleanup_parts(&mut state, &again, &Ok(()), &Ok(()), 1).expect("finalized");
    assert_eq!(record(&state, "sh_1").status, LifecycleStatus::Deleted);
    assert_eq!(record(&state, "sh_1").last_error, None);
    let lost = CleanupAction { handle: "sh_x".into(), ..again };
    assert_eq!(
        error(finalize_cleanup_parts(&mut state, &lost, &Ok(()), &Ok(()), 1)),
        "unknown handle"
    );
    assert!(cleanup_outcome(&Ok(()), &Ok(())).is_ok());
    assert_eq!(
        error(cleanup_outcome(&failed("a"), &failed("b"))),
        "helper cleanup failed: a; keyring cleanup failed: b"
    );
    assert_eq!(error(cleanup_outcome(&Ok(()), &failed("b"))), "keyring cleanup failed: b");
    let (_, _, helper) = running(true);
    let alone = cleanup_action_for_helper(&helper, LifecycleStatus::Active);
    assert!(!has_keyring_entry(&alone));
    assert_eq!(alone.helper_pid, Some(42));
}

#[test]
fn runs_are_accounted_for() {
    assert!(matches!(after_load(Ok(()), "sh_1"), RunStep::Claim));
    assert!(matches!(after_load(failed("x"), " "), RunStep::Refused { error } if error == "x"));
    assert!(matches!(
        after_load(Ok(()), " "),
        RunStep::Refused { error } if error == "invalid handle"
    ));
    assert!(matches!(
        after_claim(&Ok(ClaimDecision::Refused)),
        RunStep::Refused { error } if error == "handle is not active"
    ));
    assert!(matches!(after_claim(&Err("x".into())), RunStep::Refused { .. }));
    let mut state = active(true);
    let granted = claim_for_run(&mut state, "sh_1", "me", &clock());
    assert!(matches!(after_claim(&granted), RunStep::Lookup));
    let mut state = active(true);
    let expired = claim_for_run(&mut state, "sh_1", "me", &after_seconds(60));
    assert!(matches!(after_claim(&expired), RunStep::Close));
    assert!(matches!(
        after_close(Ok(())),
        RunStep::Refused { error } if error == "handle has expired"
    ));
    assert!(matches!(after_close(failed("x")), RunStep::Refused { error } if error == "x"));
    assert!(matches!(after_lookup(Ok(())), RunStep::Launch));
    assert!(matches!(after_lookup(failed("x")), RunStep::HandBack { reason } if reason == "x"));
    assert!(matches!(after_launch(Ok(())), RunStep::Wait));
    assert!(matches!(
        after_launch(Err(LaunchError::certain("x".into()))),
        RunStep::HandBack { reason } if reason == "x"
    ));
    assert!(matches!(
        after_launch(Err(LaunchError::uncertain("x".into()))),
        RunStep::Refused { error } if error == "x"
    ));
    assert!(matches!(
        after_hand_back("x".into(), &failed("y")),
        RunStep::Refused { error } if error == "x; claim restoration failed: y"
    ));
    assert!(matches!(after_wait(None), RunStep::Finish { doubt: None }));
    assert!(matches!(after_wait(Some("x".into())), RunStep::Finish { doubt: Some(_) }));
    assert!(matches!(after_finish(None, Ok(())), RunStep::Report));
    assert!(matches!(after_finish(None, failed("x")), RunStep::Refused { error } if error == "x"));
    assert!(matches!(
        after_finish(Some("x".into()), Ok(())),
        RunStep::Refused { error } if error == "x"
    ));
    assert!(matches!(
        after_finish(Some("x".into()), failed("y")),
        RunStep::Refused { error } if error == "x; cleanup pending: y"
    ));
    let report = run_report("sh_1", "publish", false, Some(3));
    assert_eq!((report.status.as_str(), report.exit_code), ("failed", Some(3)));
    assert_eq!((report.handle.as_str(), report.operation.as_str()), ("sh_1", "publish"));
    assert_eq!(run_report("sh_1", "publish", true, Some(0)).status, "succeeded");
}

#[test]
fn ended_runs_keep_no_doubtful_secret() {
    let (mut state, claim, helper) = running(false);
    let lost = || Err("operation lifecycle fence was lost".to_owned());
    let end = |claim: &RunClaim, uncertain, cancelled| {
        after_end(claim, uncertain, cancelled, &lost())
    };
    assert!(matches!(end(&claim, false, false), FinishStep::Failed { .. }));
    assert!(matches!(end(&claim, true, false), FinishStep::ClearKeyring { .. }));
    assert!(matches!(end(&claim, false, true), FinishStep::ClearKeyring { .. }));
    let once = RunClaim { single_use: true, ..claim.clone() };
    assert!(matches!(
        end(&once, false, false),
        FinishStep::ClearKeyring { lost } if lost == "operation lifecycle fence was lost"
    ));
    let nowhere = RunClaim { account: String::new(), ..once };
    assert!(matches!(end(&nowhere, true, true), FinishStep::Failed { .. }));
    let finished = finish_record(&mut state, &claim, &helper, false, "me");
    assert!(matches!(after_end(&claim, false, false, &finished), FinishStep::Finished));
    assert!(matches!(after_end(&claim, false, true, &finished), FinishStep::GiveUp));
    let (mut state, claim, helper) = running(true);
    let finished = finish_record(&mut state, &claim, &helper, false, "me");
    assert!(matches!(after_end(&claim, false, true, &finished), FinishStep::Clean));
    assert_eq!(after_lost_entry("lost".into(), &Ok(())), "lost");
    assert_eq!(after_lost_entry("lost".into(), &failed("x")), "lost; cleanup pending: x");
    assert_eq!(after_unwanted(Ok(())), "operation was cancelled");
    assert_eq!(after_unwanted(failed("x")), "x");
    assert!(finish_outcome(None, None, None).is_ok());
    assert_eq!(
        error(finish_outcome(Some("c".into()), Some("h".into()), Some("f".into()))),
        "cleanup pending: f; h; c"
    );
}

#[test]
fn recovery_is_cautious() {
    let reading = |lease, expired| Reading { lease, expired };
    let (state, _, _) = running(true);
    let mut busy = record(&state, "sh_1").clone();
    assert!(reconcile_record(&mut busy, reading(LeaseLiveness::Live, true)).is_none());
    assert!(reconcile_record(&mut busy, reading(LeaseLiveness::Unknown, true)).is_none());
    assert_eq!(busy.status, LifecycleStatus::Running);
    let action =
        reconcile_record(&mut busy, reading(LeaseLiveness::Expired, false)).expect("recovered");
    assert_eq!(action.target, LifecycleStatus::Deleted);
    assert_eq!(action.generation, busy.generation);
    assert_eq!(busy.status, LifecycleStatus::CleanupPending);
    assert_eq!(busy.last_error.as_deref(), Some("cleanup scheduled during recovery"));

    let plan = plan_capture(&request(false)).expect("plan");
    let mut state = State::default();
    for handle in ["sh_c", "sh_a", "sh_b"] {
        provision_under(&mut state, handle, &plan, "me", &clock()).expect("provisioned");
        activate_capture(&mut state, handle, &clock()).expect("active");
    }
    let expired = reading(LeaseLiveness::Expired, true);
    let readings = vec![expired, reading(LeaseLiveness::Expired, false)];
    let actions = reconcile_records(&mut state, &readings);
    assert_eq!(actions.len(), 1);
    assert_eq!(actions[0].handle, "sh_a");
    assert_eq!(actions[0].target, LifecycleStatus::Expired);
    assert_eq!(record(&state, "sh_b").status, LifecycleStatus::Active);
    assert_eq!(record(&state, "sh_c").status, LifecycleStatus::Active);
    let state = stored(state);
    assert!(check_state(&state).is_ok());
}

#[test]
fn status_tells_only_metadata() {
    let state = active(true);
    let told = handle_status(&state, "sh_1", &clock()).expect("status");
    assert_eq!((told.target.as_str(), told.label.as_str()), ("github", "publish"));
    assert_eq!((told.created_at, told.expires_at), (1000, 1060));
    assert_eq!(told.status, "active");
    assert!(!format!("{told:?}").contains("handoff:"));
    assert_eq!(
        handle_status(&state, "sh_1", &after_seconds(60)).expect("status").status,
        "expired"
    );
    assert_eq!(error(handle_status(&state, "", &clock())), "invalid handle");
    assert_eq!(error(handle_status(&state, "sh_x", &clock())), "unknown handle");
    assert_eq!(list_status(&state, &clock()).len(), 1);
    assert!(list_status(&State::default(), &clock()).is_empty());
}

#[test]
fn reserved_launches_can_be_deleted_and_read_again() {
    let mut state = active(true);
    let claim = claim(&mut state);
    check_launch(&state, &claim, &clock()).expect("launchable");
    reserve_launch(&mut state, &claim, CGROUP, ID, "me", &clock()).expect("reserved");
    let mut state = stored(state);
    let action = delete_handle(&mut state, "sh_1").expect("deleted").expect("cleanup");
    assert_eq!(action.target, LifecycleStatus::Deleted);
    let mut state = stored(state);
    let left = record(&state, "sh_1");
    assert_eq!(left.status, LifecycleStatus::CleanupPending);
    assert_eq!(left.cleanup_target, Some(LifecycleStatus::Deleted));
    assert_eq!(left.helper_cgroup.as_deref(), Some(CGROUP));
    let again = delete_handle(&mut state, "sh_1").expect("deleted").expect("cleanup");
    finalize_cleanup_parts(&mut state, &again, &Ok(()), &Ok(()), 1).expect("finalized");
    assert_eq!(record(&stored(state), "sh_1").status, LifecycleStatus::Deleted);
}

#[test]
fn captures_are_told_without_their_secret() {
    let plan = plan_capture(&request(true)).expect("plan");
    let mut told = Vec::new();
    for secret in ["one secret", "another"] {
        let answer = Ok(SecretBytes::new(secret.as_bytes().to_vec()));
        assert!(matches!(after_prompt(&answer, false), CaptureStep::Provision));
        let mut state = State::default();
        let fence = provision_under(&mut state, "sh_1", &plan, "me", &clock()).expect("made");
        activate_capture(&mut state, "sh_1", &clock()).expect("active");
        let report = capture_report(&fence, &plan, record(&state, "sh_1").expires_at);
        assert_eq!(
            (report.handle.as_str(), report.target.as_str(), report.label.as_str()),
            ("sh_1", "github", "publish")
        );
        assert_eq!((report.expires_at, report.single_use), (1060, true));
        assert_eq!(report.status, "active");
        told.push(format!("{report:?} {state:?}"));
    }
    assert_eq!(told[0], told[1]);
    let deleted = delete_report("sh_1");
    assert_eq!((deleted.handle.as_str(), deleted.status.as_str()), ("sh_1", "deleted"));
}

#[test]
fn launches_without_a_record_are_told_apart() {
    let mut state = active(true);
    let mut claim = claim(&mut state);
    claim.handle = "sh_x".into();
    let before = format!("{state:?}");
    assert_eq!(
        error(reserve_launch(&mut state, &claim, CGROUP, ID, "me", &clock())),
        "unknown handle"
    );
    note_unverified(&mut state, &claim, Unverified::Identity, &None);
    note_start_failure(&mut state, &claim, CGROUP, &failed("busy"));
    assert_eq!(format!("{state:?}"), before);
    assert!(matches!(launch_begin(false), LaunchStep::Do(LaunchPhase::Check)));
    match launch_begin(true) {
        LaunchStep::Refuse(error) => assert_eq!(error, "operation was cancelled"),
        other => panic!("unexpected step: {other:?}"),
    }
}

#[test]
fn requests_are_cleaned_up_though_cancelled() {
    let mut state = active(true);
    let action = delete_handle(&mut state, "sh_1").expect("deleted").expect("cleanup");
    let plan = plan_cleanup(&action, CleanupPurpose::Request);
    assert!(plan.clear_keyring && !plan.heed_cancellation);
    let plan = plan_cleanup(&action, CleanupPurpose::Recovery);
    assert!(plan.clear_keyring && plan.heed_cancellation);
    let done = CleanupAction { cleanup_keyring_done: true, ..action };
    assert!(!plan_cleanup(&done, CleanupPurpose::Request).clear_keyring);
    assert!(!heeds_cancellation(CleanupPurpose::Request));
}
