use secret_handoff::clock::Clock;
use secret_handoff::lifecycle::provisioning_record;
use secret_handoff::record::{
    CgroupIdentity, LifecycleStatus, OperationCgroupFence, SecretRecord,
};
use secret_handoff::state::{
    legacy_state_schema_version, migrate_legacy_state, prune_terminal_records, State,
    CURRENT_STATE_SCHEMA_VERSION, MAX_OPERATION_CGROUPS, MAX_RECORDS, MAX_STATE_BYTES,
};
use secret_handoff::textmap::TextMap;
use secret_handoff::validate::{
    check_record, check_state, check_state_size, keyring_account, prepare_state_commit, read_state,
    with_state, with_state_read,
};

const ID: CgroupIdentity = CgroupIdentity { dev: 5, ino: 6 };

fn clock() -> Clock {
    Clock { wall: 1000, mono: Some(50), boot: Some("boot".into()) }
}

fn record(status: LifecycleStatus) -> SecretRecord {
    let made = provisioning_record("sh_1", "target", "label", 60, true, "me", &clock());
    match status {
        LifecycleStatus::Provisioning => made,
        LifecycleStatus::Claimed => {
            SecretRecord { status, claim_id: Some("claim".into()), ..made }
        }
        _ => SecretRecord {
            status,
            lease_owner: None,
            lease_expires_at: None,
            lease_expires_mono: None,
            lease_boot_id: None,
            ..made
        },
    }
}

fn running() -> SecretRecord {
    SecretRecord {
        status: LifecycleStatus::Running,
        helper_pid: Some(42),
        helper_pgid: Some(42),
        helper_start_ticks: Some(7),
        helper_boot_id: Some("boot".into()),
        helper_kind: Some("allowlisted-operation".into()),
        helper_cgroup: Some("/sys/fs/cgroup/x".into()),
        helper_cgroup_identity: Some(ID),
        ..record(LifecycleStatus::Claimed)
    }
}

fn fault(record: SecretRecord) -> String {
    check_record("sh_1", &record).err().unwrap_or_default()
}

fn fence() -> OperationCgroupFence {
    OperationCgroupFence {
        owner: "me".into(),
        expires_at: 5,
        expires_mono: Some(6),
        boot_id: Some("boot".into()),
        identity: Some(ID),
    }
}

fn fenced(path: &str, fence: OperationCgroupFence) -> State {
    let mut state = State::default();
    state.operation_cgroups.insert(path.to_owned(), fence);
    state
}

fn holding(records: Vec<SecretRecord>) -> State {
    let mut state = State::default();
    for record in records {
        state.records.insert(record.handle.clone(), record);
    }
    state
}

fn named(index: usize, status: LifecycleStatus) -> SecretRecord {
    let handle = format!("sh_{index:05}");
    SecretRecord {
        keyring_account: keyring_account(&handle),
        handle,
        created_at: index as u64,
        ..record(status)
    }
}

#[test]
fn maps_keep_their_keys_in_order() {
    let mut map = TextMap::new();
    for (key, secret_env) in [("b", "1"), ("ä", "2"), ("a", "3"), ("b", "4"), ("ab", "5")] {
        map.insert(key.to_owned(), operation(secret_env));
    }
    let keys = (0..map.len()).map(|index| map.key_at(index).as_str()).collect::<Vec<_>>();
    assert_eq!(keys, ["a", "ab", "b", "ä"]);
    assert_eq!(map.get("b").expect("value").secret_env, "4");
    assert_eq!(map.value_at(3).secret_env, "2");
    map.get_mut("a").expect("value").secret_env = "6".into();
    assert_eq!(map.value_at(0).secret_env, "6");
    map.value_at_mut(1).secret_env = "7".into();
    assert_eq!(map.get("ab").expect("value").secret_env, "7");
    map.remove("b");
    map.remove("zz");
    map.remove_at(0);
    assert_eq!(map.len(), 2);
    assert!(!map.contains_key("a") && !map.contains_key("b"));
    assert!(map.get_mut("a").is_none());
}

fn operation(secret_env: &str) -> secret_handoff::allowlist::Operation {
    secret_handoff::allowlist::Operation {
        command: "/bin/true".into(),
        args: Vec::new(),
        secret_env: secret_env.to_owned(),
    }
}

#[test]
fn status_names_are_read_back() {
    for (status, name) in [
        (LifecycleStatus::Provisioning, "provisioning"),
        (LifecycleStatus::Active, "active"),
        (LifecycleStatus::Claimed, "claimed"),
        (LifecycleStatus::Running, "running"),
        (LifecycleStatus::CleanupPending, "cleanup_pending"),
        (LifecycleStatus::Consumed, "consumed"),
        (LifecycleStatus::Deleted, "deleted"),
        (LifecycleStatus::Expired, "expired"),
        (LifecycleStatus::Revoked, "revoked"),
    ] {
        assert_eq!(status.name(), name);
        assert_eq!(LifecycleStatus::from_name(name), Ok(status));
    }
    assert_eq!(
        LifecycleStatus::from_name("Active").err().as_deref(),
        Some("unknown lifecycle status")
    );
    assert_eq!(LifecycleStatus::default(), LifecycleStatus::Active);
    assert_eq!(legacy_state_schema_version(), 1);
}

#[test]
fn sound_records_are_taken() {
    for status in [
        LifecycleStatus::Provisioning,
        LifecycleStatus::Active,
        LifecycleStatus::Claimed,
        LifecycleStatus::Consumed,
        LifecycleStatus::Deleted,
        LifecycleStatus::Expired,
        LifecycleStatus::Revoked,
    ] {
        assert_eq!(fault(record(status)), "", "{status:?}");
    }
    assert_eq!(fault(running()), "");
    let pending = SecretRecord {
        cleanup_target: Some(LifecycleStatus::Deleted),
        ..record(LifecycleStatus::CleanupPending)
    };
    assert_eq!(fault(pending), "");
}

#[test]
fn records_beyond_their_limits_are_refused() {
    let beyond = "state record exceeds the configured limit";
    let base = || record(LifecycleStatus::Active);
    assert_eq!(fault(SecretRecord { label: "a".repeat(161), ..base() }), beyond);
    assert_eq!(fault(SecretRecord { label: "a".repeat(160), ..base() }), "");
    assert_eq!(fault(SecretRecord { target: " ".into(), ..base() }), beyond);
    assert_eq!(fault(SecretRecord { target: "a\u{7f}".into(), ..base() }), beyond);
    assert_eq!(fault(SecretRecord { keyring_account: "handoff:x".into(), ..base() }), beyond);
    assert_eq!(fault(SecretRecord { last_error: Some("e".repeat(2049)), ..base() }), beyond);
    assert_eq!(check_record("sh_2", &base()).err().as_deref(), Some(beyond));
    assert_eq!(fault(SecretRecord { helper_cgroup: Some("x".into()), ..running() }), beyond);
    assert_eq!(
        fault(SecretRecord { helper_cgroup: Some("/a/../b".into()), ..running() }),
        beyond
    );
    let null = Some(CgroupIdentity { dev: 0, ino: 6 });
    assert_eq!(fault(SecretRecord { helper_cgroup_identity: null, ..running() }), beyond);
}

#[test]
fn incomplete_fences_are_refused() {
    let broken = "state record lifecycle fence is invalid";
    let base = || record(LifecycleStatus::Claimed);
    assert_eq!(fault(SecretRecord { lease_expires_at: None, ..base() }), broken);
    assert_eq!(fault(SecretRecord { lease_boot_id: None, ..base() }), broken);
    assert_eq!(fault(SecretRecord { expires_mono: None, ..base() }), broken);
    assert_eq!(fault(SecretRecord { helper_pgid: None, ..running() }), broken);
    assert_eq!(fault(SecretRecord { helper_kind: None, ..running() }), broken);
    assert_eq!(fault(SecretRecord { helper_cgroup_identity: None, ..running() }), broken);
    assert_eq!(fault(SecretRecord { helper_descendants_unknown: true, ..base() }), broken);
    let reserved = SecretRecord {
        helper_cgroup: Some("/sys/fs/cgroup/x".into()),
        helper_cgroup_identity: Some(ID),
        ..base()
    };
    assert_eq!(fault(reserved.clone()), "");
    assert_eq!(fault(SecretRecord { status: LifecycleStatus::Revoked, ..reserved }), broken);
}

#[test]
fn impossible_helpers_and_targets_are_refused() {
    let impossible = "state record helper identity is invalid";
    assert_eq!(fault(SecretRecord { helper_start_ticks: Some(0), ..running() }), impossible);
    assert_eq!(fault(SecretRecord { helper_pgid: Some(43), ..running() }), impossible);
    assert_eq!(
        fault(SecretRecord { helper_pid: Some(1), helper_pgid: Some(1), ..running() }),
        impossible
    );
    assert_eq!(
        fault(SecretRecord { cleanup_target: Some(LifecycleStatus::Active), ..running() }),
        "state record cleanup target is invalid"
    );
}

#[test]
fn lifecycles_are_held_to_their_status() {
    let made = record(LifecycleStatus::Provisioning);
    assert_eq!(
        fault(SecretRecord { claim_id: Some("c".into()), ..made.clone() }),
        "provisioning record lifecycle is invalid"
    );
    assert_eq!(
        fault(SecretRecord { status: LifecycleStatus::Active, ..made }),
        "active record lifecycle is invalid"
    );
    assert_eq!(
        fault(SecretRecord { claim_id: None, ..record(LifecycleStatus::Claimed) }),
        "claimed record lifecycle is invalid"
    );
    assert_eq!(
        fault(SecretRecord { claim_id: None, ..running() }),
        "running record lifecycle is invalid"
    );
    assert_eq!(
        fault(SecretRecord { cleanup_keyring_done: true, ..record(LifecycleStatus::Deleted) }),
        "terminal record lifecycle is invalid"
    );
    let aimless = holding(vec![record(LifecycleStatus::CleanupPending)]);
    assert_eq!(
        check_state(&aimless).err().as_deref(),
        Some("cleanup-pending record has no target")
    );
}

#[test]
fn broken_fences_are_refused() {
    let broken = Some("state operation cgroup fence is invalid");
    let check = |path: &str, fence| check_state(&fenced(path, fence)).err();
    assert_eq!(check("/sys/fs/cgroup/x", fence()), None);
    assert_eq!(check("x", fence()).as_deref(), broken);
    assert_eq!(check("/a/..", fence()).as_deref(), broken);
    let path = "/sys/fs/cgroup/x";
    for fence in [
        OperationCgroupFence { owner: String::new(), ..fence() },
        OperationCgroupFence { owner: "o".repeat(129), ..fence() },
        OperationCgroupFence { identity: None, ..fence() },
        OperationCgroupFence { identity: Some(CgroupIdentity { dev: 5, ino: 0 }), ..fence() },
        OperationCgroupFence { boot_id: Some(String::new()), ..fence() },
        OperationCgroupFence { boot_id: None, ..fence() },
    ] {
        assert_eq!(check(path, fence).as_deref(), broken);
    }
}

#[test]
fn capacities_are_kept() {
    let mut state = State { recovery_mode: true, ..State::default() };
    assert_eq!(
        check_state(&state).err().as_deref(),
        Some("state recovery mode is invalid below the record capacity")
    );
    for index in 0..=MAX_OPERATION_CGROUPS {
        state.operation_cgroups.insert(format!("/sys/fs/cgroup/{index}"), fence());
    }
    assert_eq!(
        prepare_state_commit(&mut state).err().as_deref(),
        Some("state operation cgroup capacity has been reached")
    );
    assert!(!state.recovery_mode);
    assert_eq!(
        check_state(&state).err().as_deref(),
        Some("state operation cgroup capacity has been reached")
    );
    let mut full = holding(
        (0..=MAX_RECORDS).map(|index| named(index, LifecycleStatus::Active)).collect(),
    );
    assert_eq!(
        check_state(&full).err().as_deref(),
        Some("state record capacity has been reached")
    );
    assert_eq!(
        prepare_state_commit(&mut full).err().as_deref(),
        Some("state record capacity has been reached")
    );
    full.recovery_mode = true;
    assert!(prepare_state_commit(&mut full).is_ok());
    assert!(full.recovery_mode);
    assert!(check_state_size(MAX_STATE_BYTES).is_ok());
    assert_eq!(
        check_state_size(MAX_STATE_BYTES + 1).err().as_deref(),
        Some("state file exceeds the configured limit")
    );
}

#[test]
fn recovery_mode_drains() {
    let records = (0..=MAX_RECORDS).map(|index| named(index, LifecycleStatus::Active)).collect();
    let legacy = State { schema_version: 2, ..holding(records) };
    let mut state = read_state(Some(legacy)).expect("recovery mode");
    assert!(state.recovery_mode);
    for index in 0..2 {
        let handle = format!("sh_{index:05}");
        state.records.get_mut(&handle).expect("record").status = LifecycleStatus::Deleted;
    }
    prepare_state_commit(&mut state).expect("committed");
    assert!(!state.recovery_mode);
    assert_eq!(state.records.len(), MAX_RECORDS - 1);
    assert!(read_state(Some(state)).is_ok());
}

#[test]
fn pruning_drops_the_oldest_and_is_idempotent() {
    let mut state = holding(
        (0..MAX_RECORDS)
            .map(|index| match index {
                5 => SecretRecord {
                    created_at: 0,
                    consumed_at: Some(2),
                    ..named(index, LifecycleStatus::Consumed)
                },
                7 | 9 => SecretRecord { created_at: 3, ..named(index, LifecycleStatus::Deleted) },
                _ => named(index, LifecycleStatus::Active),
            })
            .collect(),
    );
    prune_terminal_records(&mut state);
    assert_eq!(state.records.len(), MAX_RECORDS - 1);
    assert!(!state.records.contains_key("sh_00005"));
    prune_terminal_records(&mut state);
    assert_eq!(state.records.len(), MAX_RECORDS - 1);
    state.records.insert("sh_99998".into(), named(99998, LifecycleStatus::Active));
    prune_terminal_records(&mut state);
    assert!(!state.records.contains_key("sh_00007"));
    assert!(state.records.contains_key("sh_00009"));
}

#[test]
fn migration_is_idempotent() {
    let mut state = State {
        schema_version: 1,
        ..holding(vec![
            named(1, LifecycleStatus::Expired),
            named(2, LifecycleStatus::CleanupPending),
        ])
    };
    state.operation_cgroups.insert("/a".into(), fence());
    state
        .operation_cgroups
        .insert("/b".into(), OperationCgroupFence::from_legacy_owner("old".into()));
    migrate_legacy_state(&mut state);
    let first = format!("{state:?}");
    migrate_legacy_state(&mut state);
    assert_eq!(format!("{state:?}"), first);
    assert_eq!(state.schema_version, CURRENT_STATE_SCHEMA_VERSION);
    assert_eq!(state.operation_cgroups.len(), 1);
    let expired = state.records.get("sh_00001").expect("record");
    assert_eq!(expired.cleanup_target, Some(LifecycleStatus::Expired));
    let pending = state.records.get("sh_00002").expect("record");
    assert_eq!(pending.cleanup_target, Some(LifecycleStatus::Consumed));
    assert!(read_state(None).expect("nothing stored").records.len() == 0);
}

#[test]
fn readers_see_only_states_that_are_taken() {
    let seen = |state: &State| Ok::<(usize, u32), String>((state.records.len(), state.schema_version));
    assert_eq!(with_state_read(None, seen), Ok((0, CURRENT_STATE_SCHEMA_VERSION)));
    let stored = holding(vec![record(LifecycleStatus::Active)]);
    assert_eq!(with_state_read(Some(stored), seen), Ok((1, CURRENT_STATE_SCHEMA_VERSION)));
    let newer = State { schema_version: CURRENT_STATE_SCHEMA_VERSION + 1, ..State::default() };
    assert_eq!(
        with_state_read(Some(newer), seen),
        Err("state file uses a newer unsupported schema version".to_owned())
    );
    let refusing = |state: &State| match state.records.get("sh_1") {
        Some(_) => Ok(()),
        None => Err("unknown handle".to_owned()),
    };
    assert_eq!(with_state_read(None, refusing), Err("unknown handle".to_owned()));
}

#[test]
fn changes_are_made_once_and_kept_only_if_they_succeed() {
    let newer = State { schema_version: CURRENT_STATE_SCHEMA_VERSION + 1, ..State::default() };
    let mut calls = 0;
    let (to_write, told) = with_state(Some(newer), |state| {
        calls += 1;
        (state, Ok(()))
    });
    assert!(to_write.is_none());
    assert_eq!(told, Err("state file uses a newer unsupported schema version".to_owned()));
    assert_eq!(calls, 0);
    let add = |mut state: State| {
        state.records.insert("sh_1".to_owned(), record(LifecycleStatus::Active));
        state
    };
    let (to_write, told) = with_state(None, |state| {
        calls += 1;
        (add(state), Ok(7))
    });
    assert_eq!((calls, told), (1, Ok(7)));
    assert_eq!(to_write.expect("a state to write").records.len(), 1);
    let (to_write, told) =
        with_state(None, |state| (add(state), Err::<(), String>("no".to_owned())));
    assert!(to_write.is_none());
    assert_eq!(told, Err("no".to_owned()));
    let crowd = (0..=MAX_RECORDS).map(|i| named(i, LifecycleStatus::Active)).collect();
    let (to_write, told) = with_state(None, |_| (holding(crowd), Ok(())));
    assert!(to_write.is_none());
    assert_eq!(told, Err("state record capacity has been reached".to_owned()));
}

#[test]
fn migration_and_pruning_keep_what_they_promise() {
    let ended = (0..MAX_RECORDS + 5).map(|i| named(i, LifecycleStatus::Deleted)).collect();
    let mut legacy = State { schema_version: legacy_state_schema_version(), ..holding(ended) };
    migrate_legacy_state(&mut legacy);
    assert_eq!(legacy.records.len(), MAX_RECORDS + 5);
    let count = |used: usize, ended: usize| {
        let status = |i| if i < used { LifecycleStatus::Active } else { LifecycleStatus::Deleted };
        let mut state = holding((0..used + ended).map(|i| named(i, status(i))).collect());
        prune_terminal_records(&mut state);
        state.records.len()
    };
    assert_eq!(count(3, MAX_RECORDS - 4), MAX_RECORDS - 1);
    assert_eq!(count(3, MAX_RECORDS), MAX_RECORDS - 1);
    assert_eq!(count(MAX_RECORDS + 2, 4), MAX_RECORDS + 2);
}
