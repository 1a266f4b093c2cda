use secret_handoff::cgroups::{
    is_orphaned, kill_cgroup_path, register_operation_cgroup,
    register_operation_cgroup_replacing_identity,
};
use secret_handoff::clock::{
    lease_deadline_liveness, operation_cgroup_expired, operation_cgroup_fence,
    operation_cgroup_owner_live, Clock, LeaseLiveness,
};
use secret_handoff::identity::{process_identity_is_alive, process_owner, ProcessLiveness};
use secret_handoff::keyring::{classify_keyring_search_result, KeyringEntryState};
use secret_handoff::process::{
    after_collect, after_drain, after_limits, after_terminate, TerminationReason, Wait, WaitStep,
};
use secret_handoff::record::{
    cleanup_action_for, CgroupIdentity, LifecycleStatus, OperationCgroupFence, SecretRecord,
};
use secret_handoff::secret::{
    normalize_keyring_output, normalize_provider_output, validate_secret_for_environment,
    SecretBytes, MAX_SECRET_BYTES,
};
use secret_handoff::state::{
    migrate_legacy_state, prune_terminal_records, State, CURRENT_STATE_SCHEMA_VERSION, MAX_RECORDS,
};
use secret_handoff::textmap::TextMap;
use secret_handoff::token::{is_stale_state_tmp, is_temporary_state_name};
use secret_handoff::trust::{check_recorded_cgroup, FileFacts, FileKind, SecureWalk};
use secret_handoff::validate::{commit_change, read_state};

fn this_process() -> String {
    process_owner(4711, &Ok(Some(900)), Some("boot"))
}

fn lease_test_record() -> SecretRecord {
    SecretRecord {
        handle: "sh_lease_test".into(),
        target: "test".into(),
        label: "lease".into(),
        created_at: 1,
        expires_at: u64::MAX,
        single_use: true,
        status: LifecycleStatus::Claimed,
        keyring_account: "handoff:sh_lease_test".into(),
        consumed_at: None,
        claim_id: Some("claim".into()),
        cleanup_target: None,
        last_error: None,
        generation: 1,
        lease_owner: Some(this_process()),
        lease_expires_at: Some(u64::MAX),
        lease_expires_mono: None,
        lease_boot_id: None,
        expires_mono: None,
        expires_boot_id: None,
        helper_pid: None,
        helper_pgid: None,
        helper_start_ticks: None,
        helper_boot_id: None,
        helper_kind: None,
        helper_cgroup: None,
        helper_cgroup_identity: None,
        cleanup_keyring_done: false,
        helper_descendants_unknown: false,
    }
}

fn record(handle: &str, label: &str, status: LifecycleStatus) -> SecretRecord {
    SecretRecord {
        handle: handle.to_owned(),
        target: "test".into(),
        label: label.to_owned(),
        status,
        keyring_account: format!("handoff:{handle}"),
        claim_id: None,
        lease_owner: None,
        lease_expires_at: None,
        ..lease_test_record()
    }
}

fn state_of(schema_version: u32, records: Vec<SecretRecord>) -> State {
    let mut state = State {
        schema_version,
        records: TextMap::new(),
        operation_cgroups: TextMap::new(),
        recovery_mode: false,
    };
    for record in records {
        state.records.insert(record.handle.clone(), record);
    }
    state
}

#[test]
fn lifecycle_status_migrates_old_consuming_state() {
    let parsed = LifecycleStatus::from_name("consuming").expect("status");
    assert_eq!(parsed, LifecycleStatus::CleanupPending);
}

#[test]
fn process_owner_is_restart_detectable() {
    let owner = this_process();
    assert!(process_identity_is_alive(&owner, Some("boot"), &Ok(Some(900))));
    assert!(!process_identity_is_alive("owner_legacy", Some("boot"), &Ok(Some(900))));
}

#[test]
fn monotonic_lease_expiry_wins_over_wall_clock_rollback() {
    let mut record = lease_test_record();
    record.lease_expires_mono = Some(99);
    record.lease_boot_id = Some("boot".into());
    assert_eq!(
        lease_deadline_liveness(&record, Some(100), Some("boot"), 0),
        LeaseLiveness::Expired
    );
}

#[test]
fn partial_or_unavailable_monotonic_lease_is_unknown() {
    let mut record = lease_test_record();
    record.lease_expires_mono = Some(200);
    assert_eq!(
        lease_deadline_liveness(&record, Some(100), Some("boot"), 0),
        LeaseLiveness::Unknown
    );

    record.lease_expires_mono = None;
    record.lease_boot_id = Some("boot".into());
    assert_eq!(
        lease_deadline_liveness(&record, Some(100), Some("boot"), 0),
        LeaseLiveness::Unknown
    );

    record.lease_expires_mono = Some(200);
    assert_eq!(lease_deadline_liveness(&record, None, Some("boot"), 0), LeaseLiveness::Unknown);
    assert_eq!(lease_deadline_liveness(&record, Some(100), None, 0), LeaseLiveness::Unknown);
}

#[test]
fn legacy_lease_uses_wall_clock_only_without_monotonic_state() {
    let mut record = lease_test_record();
    record.lease_expires_at = Some(200);
    assert_eq!(lease_deadline_liveness(&record, None, None, 100), LeaseLiveness::Live);
    assert_eq!(lease_deadline_liveness(&record, None, None, 200), LeaseLiveness::Expired);
}

#[test]
fn provider_delimiter_is_removed_exactly_once() {
    let value = normalize_provider_output(SecretBytes::new(b"secret\n".to_vec())).ok();
    assert_eq!(value.expect("secret").as_slice(), b"secret");
    assert!(normalize_provider_output(SecretBytes::new(b"secret\n\n".to_vec())).is_err());
    assert!(normalize_provider_output(SecretBytes::new(b"secret\r\n".to_vec())).is_err());
    assert!(normalize_provider_output(SecretBytes::new(b"secret".to_vec())).is_err());
}

#[test]
fn keyring_output_does_not_require_tty_framing() {
    let value = normalize_keyring_output(SecretBytes::new(b"secret\n".to_vec())).ok();
    assert_eq!(value.expect("secret").as_slice(), b"secret");
    let value = normalize_keyring_output(SecretBytes::new(b"secret".to_vec())).ok();
    assert_eq!(value.expect("raw secret").as_slice(), b"secret");
    assert!(normalize_keyring_output(SecretBytes::new(Vec::new())).is_err());
    assert!(normalize_keyring_output(SecretBytes::new(b"secret\n\n".to_vec())).is_err());
    assert!(normalize_keyring_output(SecretBytes::new(b"secret\r".to_vec())).is_err());
}

#[test]
fn legacy_terminal_records_become_cleanup_pending() {
    let handle = "sh_legacy".to_string();
    let mut state = state_of(
        1,
        vec![SecretRecord {
            consumed_at: Some(2),
            generation: 4,
            ..record(&handle, "legacy", LifecycleStatus::Consumed)
        }],
    );

    migrate_legacy_state(&mut state);

    let record = state.records.get(&handle).expect("legacy record");
    assert_eq!(state.schema_version, CURRENT_STATE_SCHEMA_VERSION);
    assert_eq!(record.status, LifecycleStatus::CleanupPending);
    assert_eq!(record.cleanup_target, Some(LifecycleStatus::Consumed));
    assert_eq!(record.generation, 5);
}

#[test]
fn oversized_legacy_state_enters_recovery_mode_before_capacity_rejection() {
    let mut records = Vec::new();
    for index in 0..=MAX_RECORDS {
        let handle = format!("sh_legacy_{index}");
        records.push(SecretRecord {
            created_at: index as u64,
            consumed_at: Some(index as u64),
            ..record(&handle, "legacy", LifecycleStatus::Consumed)
        });
    }
    let legacy = state_of(1, records);

    let state = read_state(Some(legacy)).expect("oversized legacy state is recoverable");
    assert!(state.recovery_mode);
    assert_eq!(state.records.len(), MAX_RECORDS + 1);
    assert!((0..state.records.len())
        .all(|index| state.records.value_at(index).status == LifecycleStatus::CleanupPending));
}

#[test]
fn legacy_operation_cgroup_fences_are_released_for_descriptor_rediscovery() {
    let mut legacy = state_of(2, Vec::new());
    legacy.operation_cgroups.insert(
        "/sys/fs/cgroup/user.slice/legacy".into(),
        OperationCgroupFence::from_legacy_owner("legacy-owner".into()),
    );

    let state = read_state(Some(legacy)).expect("legacy cgroup state");
    assert_eq!(state.schema_version, CURRENT_STATE_SCHEMA_VERSION);
    assert_eq!(state.operation_cgroups.len(), 0);
}

#[test]
fn legacy_record_without_cgroup_identity_uses_pidfd_recovery() {
    let handle = "sh_legacy_running".to_owned();
    let mut state = state_of(
        2,
        vec![SecretRecord {
            claim_id: Some("claim".into()),
            generation: 4,
            lease_owner: Some("legacy-owner".into()),
            lease_expires_at: Some(2),
            helper_pid: Some(42),
            helper_pgid: Some(42),
            helper_start_ticks: Some(7),
            helper_boot_id: Some("boot".into()),
            helper_kind: Some("legacy-helper".into()),
            helper_cgroup: Some("/sys/fs/cgroup/user.slice/codex-secret-handoff-legacy".into()),
            helper_cgroup_identity: None,
            helper_descendants_unknown: true,
            ..record(&handle, "legacy", LifecycleStatus::Running)
        }],
    );

    migrate_legacy_state(&mut state);

    let record = state.records.get(&handle).expect("legacy record");
    assert_eq!(record.status, LifecycleStatus::CleanupPending);
    assert_eq!(record.cleanup_target, Some(LifecycleStatus::Deleted));
    assert_eq!(record.helper_pid, Some(42));
    assert!(record.helper_cgroup.is_none());
    assert!(record.helper_cgroup_identity.is_none());
    assert_eq!(record.generation, 5);
}

#[test]
fn current_schema_without_cgroup_identity_is_quarantined() {
    let handle = "sh_current_missing_identity".to_owned();
    let mut state = state_of(
        CURRENT_STATE_SCHEMA_VERSION,
        vec![SecretRecord {
            claim_id: Some("claim".into()),
            generation: 8,
            lease_owner: Some("owner".into()),
            lease_expires_at: Some(2),
            helper_pid: Some(42),
            helper_pgid: Some(42),
            helper_start_ticks: Some(7),
            helper_boot_id: Some("boot".into()),
            helper_kind: Some("helper".into()),
            helper_cgroup: Some("/sys/fs/cgroup/user.slice/codex-secret-handoff-current".into()),
            helper_cgroup_identity: None,
            ..record(&handle, "current", LifecycleStatus::Running)
        }],
    );

    migrate_legacy_state(&mut state);

    let record = state.records.get(&handle).expect("current record");
    assert_eq!(state.schema_version, CURRENT_STATE_SCHEMA_VERSION);
    assert_eq!(record.status, LifecycleStatus::CleanupPending);
    assert_eq!(record.cleanup_target, Some(LifecycleStatus::Deleted));
    assert_eq!(record.helper_pid, Some(42));
    assert!(record.helper_cgroup.is_none());
    assert!(record.helper_cgroup_identity.is_none());
    assert_eq!(record.generation, 9);
}

#[test]
fn terminal_records_are_pruned_before_capacity_failure() {
    let mut state = State::default();
    for index in 0..MAX_RECORDS {
        let handle = format!("sh_{index}");
        let status = if index == MAX_RECORDS - 1 {
            LifecycleStatus::Active
        } else {
            LifecycleStatus::Consumed
        };
        state.records.insert(
            handle.clone(),
            SecretRecord {
                created_at: index as u64,
                consumed_at: Some(index as u64),
                ..record(&handle, "test", status)
            },
        );
    }
    prune_terminal_records(&mut state);
    assert_eq!(state.records.len(), MAX_RECORDS - 1);
    assert!(state.records.contains_key(&format!("sh_{}", MAX_RECORDS - 1)));
    assert!(!state.records.contains_key("sh_0"));
    assert!(state.records.contains_key("sh_1"));
}

#[test]
fn environment_validation_rejects_unsupported_payloads_before_store() {
    assert!(validate_secret_for_environment(b"secret\0value").is_err());
    assert!(validate_secret_for_environment(&[b'a'; MAX_SECRET_BYTES + 1]).is_err());
    assert!(validate_secret_for_environment("token".as_bytes()).is_ok());
}

#[test]
fn cleanup_action_carries_helper_fence() {
    let record = SecretRecord {
        helper_pid: Some(42),
        helper_pgid: Some(42),
        helper_start_ticks: Some(7),
        helper_boot_id: Some("boot".into()),
        helper_kind: Some("secret-tool-store".into()),
        ..record("sh_test", "unit", LifecycleStatus::Provisioning)
    };
    let action = cleanup_action_for(&record, LifecycleStatus::Deleted);
    assert_eq!(action.helper_pid, Some(42));
    assert_eq!(action.helper_start_ticks, Some(7));
}

#[test]
fn cancellation_reason_wins_over_fast_child_exit() {
    let mut wait = Wait::new();
    match after_drain(&wait, None, true) {
        WaitStep::Terminate(reason) => {
            assert_eq!(reason, TerminationReason::Cancelled);
            assert!(matches!(after_terminate(&mut wait, reason, None), WaitStep::Limits));
        }
        other => panic!("unexpected step: {other:?}"),
    }
    match after_limits(&wait, true, true, true) {
        WaitStep::Failed(error) => assert_eq!(error, "operation was cancelled"),
        other => panic!("unexpected step: {other:?}"),
    }
    match after_collect(&wait, true, None, true, false) {
        WaitStep::Failed(error) => assert_eq!(error, "operation was cancelled"),
        other => panic!("unexpected step: {other:?}"),
    }
}

#[test]
fn future_state_schema_is_rejected_before_recovery() {
    let future = state_of(999, Vec::new());
    let error = read_state(Some(future)).err().expect("future schema must fail closed");
    assert!(error.contains("newer unsupported schema"));
}

#[test]
fn invalid_helper_identity_is_rejected_before_kill() {
    let handle = "sh_invalid".to_string();
    let state = state_of(
        CURRENT_STATE_SCHEMA_VERSION,
        vec![SecretRecord {
            cleanup_target: Some(LifecycleStatus::Deleted),
            helper_pid: Some(0),
            helper_pgid: Some(0),
            helper_start_ticks: Some(0),
            helper_boot_id: Some("boot".into()),
            helper_kind: Some("test".into()),
            ..record(&handle, "invalid", LifecycleStatus::CleanupPending)
        }],
    );
    let error = read_state(Some(state)).err().expect("invalid helper identity must fail closed");
    assert!(error.contains("helper identity is invalid"));
}

#[test]
fn current_process_is_a_live_operation_cgroup_owner() {
    let identity = CgroupIdentity { dev: 1, ino: 1 };
    let clock = Clock { wall: 10, mono: Some(20), boot: Some("boot".into()) };
    let fence = operation_cgroup_fence(identity, &this_process(), &clock);
    assert_eq!(fence.owner, this_process());
    assert!(operation_cgroup_owner_live(&fence, &this_process(), ProcessLiveness::Dead));
}

#[test]
fn keyring_search_failures_are_unavailable_not_missing() {
    assert_eq!(classify_keyring_search_result(false, false), KeyringEntryState::Unavailable);
    assert_eq!(classify_keyring_search_result(true, false), KeyringEntryState::Missing);
    assert_eq!(classify_keyring_search_result(true, true), KeyringEntryState::Present);
}

#[test]
fn sweep_removes_only_stale_temporary_state_files() {
    let stale = "state.json.11111111-1111-1111-1111-111111111111.tmp";
    let fresh = "state.json.22222222-2222-2222-2222-222222222222.tmp";
    let now = 1_700_000_000;
    assert!(is_temporary_state_name(stale.as_bytes()));
    assert!(is_temporary_state_name(fresh.as_bytes()));
    assert!(!is_temporary_state_name(b"state.json"));
    assert!(!is_temporary_state_name(b"state.lock"));
    assert!(is_stale_state_tmp(true, now, now - 3600));
    assert!(!is_stale_state_tmp(true, now, now));
    assert!(!is_stale_state_tmp(false, now, now - 3600));
    assert!(!is_stale_state_tmp(true, now, now - 600));
    assert!(is_stale_state_tmp(true, now, now - 601));
    assert!(is_stale_state_tmp(true, i64::MAX, i64::MIN));
}

fn cgroup_facts(identity: CgroupIdentity) -> FileFacts {
    FileFacts { kind: FileKind::Directory, uid: 1000, mode: 0o040700, identity }
}

#[test]
fn recorded_cgroup_identity_mismatch_fails_closed() {
    let identity = CgroupIdentity { dev: 30, ino: 99 };
    let wrong = CgroupIdentity { dev: identity.dev, ino: identity.ino.saturating_add(1) };
    let facts = cgroup_facts(identity);
    assert_eq!(
        check_recorded_cgroup(&facts, 1000, Some(wrong)).err().as_deref(),
        Some("recorded cgroup identity no longer matches")
    );
    assert!(check_recorded_cgroup(&facts, 1000, Some(identity)).is_ok());
    assert!(kill_cgroup_path(Some(wrong), Some(facts), 1000).is_err());
    assert_eq!(kill_cgroup_path(Some(identity), Some(facts), 1000), Ok(Some(identity)));
}

#[test]
fn empty_unregistered_operation_cgroups_are_reconciled() {
    let identity = CgroupIdentity { dev: 30, ino: 99 };
    let facts = cgroup_facts(identity);
    assert!(!is_orphaned(None, &facts, 1000, Some(0)));
    assert!(!is_orphaned(None, &facts, 1000, Some(29)));
    assert!(is_orphaned(None, &facts, 1000, Some(30)));
    assert!(!is_orphaned(Some(identity), &facts, 1000, Some(30)));
    assert!(!is_orphaned(None, &facts, 1001, Some(30)));
    assert!(!is_orphaned(None, &facts, 1000, None));
}

#[test]
fn trusted_helpers_require_root_owned_system_files() {
    let directory = |uid: u32, mode: u32| FileFacts {
        kind: FileKind::Directory,
        uid,
        mode,
        identity: CgroupIdentity { dev: 1, ino: 1 },
    };
    let file = |uid: u32| FileFacts {
        kind: FileKind::Regular,
        uid,
        mode: 0o100755,
        identity: CgroupIdentity { dev: 1, ino: 7 },
    };
    let mut walk =
        SecureWalk::begin("/usr/bin/secret-tool", 1000, true, true, false, None).expect("walk");
    assert!(walk.next_directory().is_none());
    assert!(walk.file_name().is_none());
    walk.enter(directory(0, 0o040755)).expect("root");
    assert_eq!(walk.next_directory(), Some("usr"));
    assert_eq!(
        walk.enter(directory(1000, 0o040755)).err().as_deref(),
        Some("secure path contains an unexpected owner")
    );
    assert_eq!(
        walk.enter(directory(1000, 0o041777)).err().as_deref(),
        Some("secure path contains an unexpected owner")
    );
    walk.enter(directory(0, 0o040755)).expect("usr");
    assert_eq!(walk.next_directory(), Some("bin"));
    walk.enter(directory(0, 0o040755)).expect("bin");
    assert!(walk.next_directory().is_none());
    assert_eq!(walk.file_name(), Some("secret-tool"));
    assert_eq!(walk.finish(&file(0), &file(0)), Ok(CgroupIdentity { dev: 1, ino: 7 }));
    assert_eq!(
        walk.finish(&file(1000), &file(1000)).err().as_deref(),
        Some("secure file has an unexpected owner")
    );
}

#[test]
fn committed_states_are_read_back() {
    let mut state = State::default();
    let clock = Clock { wall: 100, mono: None, boot: None };
    let identity = CgroupIdentity { dev: 2, ino: 3 };
    state
        .records
        .insert("sh_kept".into(), record("sh_kept", "kept", LifecycleStatus::Active));
    let outcome = register_operation_cgroup(
        &mut state,
        "/sys/fs/cgroup/a/codex-secret-handoff-1",
        identity,
        "1:2:boot",
        &clock,
    );
    commit_change(&mut state, outcome).expect("commit");
    let fence = state
        .operation_cgroups
        .get("/sys/fs/cgroup/a/codex-secret-handoff-1")
        .expect("fence");
    assert_eq!(fence.expires_at, 220);
    assert_eq!(fence.identity, Some(identity));
    let again = read_state(Some(state)).expect("read back");
    assert_eq!(again.records.len(), 1);
    assert_eq!(again.records.key_at(0), "sh_kept");
    assert_eq!(again.records.value_at(0).generation, 1);
    assert_eq!(again.operation_cgroups.len(), 1);
}

#[test]
fn failed_changes_are_not_committed() {
    let mut state = State::default();
    state.recovery_mode = true;
    let result: Result<(), String> = commit_change(&mut state, Err("no".to_owned()));
    assert_eq!(result.err().as_deref(), Some("no"));
    assert!(state.recovery_mode);
    let result = commit_change(&mut state, Ok(5u8));
    assert_eq!(result, Ok(5));
    assert!(!state.recovery_mode);
}

#[test]
fn fences_are_replaced_only_by_what_they_fenced() {
    let mut state = State::default();
    let clock = Clock { wall: 100, mono: Some(7), boot: Some("boot".into()) };
    let first = CgroupIdentity { dev: 2, ino: 3 };
    let second = CgroupIdentity { dev: 2, ino: 4 };
    let path = "/sys/fs/cgroup/a/codex-secret-handoff-1";
    register_operation_cgroup(&mut state, path, first, "me", &clock).expect("registered");
    assert_eq!(
        register_operation_cgroup(&mut state, path, first, "me", &clock).err().as_deref(),
        Some("operation cgroup is already registered")
    );
    let mut replace = |expected, identity| {
        register_operation_cgroup_replacing_identity(
            &mut state,
            path,
            expected,
            identity,
            "orphan-reconciler",
            "me",
            &clock,
        )
    };
    assert_eq!(replace(None, second), Ok(false));
    assert_eq!(replace(Some(second), second), Ok(false));
    assert_eq!(replace(Some(first), first), Ok(false));
    assert_eq!(replace(Some(first), second), Ok(true));
    let fence = state.operation_cgroups.get(path).expect("fence");
    assert_eq!(fence.owner, "orphan-reconciler");
    assert_eq!(fence.expires_at, 100);
    assert_eq!(fence.expires_mono, Some(7));
    assert_eq!(fence.identity, Some(second));
}

#[test]
fn fences_expire_on_time() {
    let identity = CgroupIdentity { dev: 30, ino: 99 };
    let at = |wall, mono| Clock { wall, mono, boot: Some("boot".into()) };
    let fence = operation_cgroup_fence(identity, "me", &at(100, Some(7)));
    assert!(!operation_cgroup_expired(&fence, &at(9_999, Some(126))));
    assert!(operation_cgroup_expired(&fence, &at(0, Some(127))));
    assert!(!operation_cgroup_expired(&fence, &at(219, None)));
    assert!(operation_cgroup_expired(&fence, &at(220, None)));
}
