use secret_handoff::cgroups::{
    after_orphan_step, cgroup_age_seconds, cgroup_populated, cgroup_root, check_cgroup_root,
    check_cgroup_root_component, check_new_cgroup, check_unchanged_cgroup,
    forget_operation_cgroup_if_absent, is_delegated, is_operation_cgroup_name, kill_cgroup_path,
    register_operation_cgroup, register_operation_cgroup_with_owner, release_fence,
    root_candidates, searches_upwards, stable_root, unregister_operation_cgroup_if_identity,
    unusable_cgroup_message, OrphanStep,
};
use secret_handoff::clock::{
    lease_liveness, monotonic_pair, now, operation_cgroup_expired, record_expired, Clock,
    LeaseLiveness,
};
use secret_handoff::flow::command_outcome;
use secret_handoff::identity::{
    boot_id, parse_process_identity, process_identity, process_identity_liveness,
    process_start_ticks, ProcessLiveness,
};
use secret_handoff::lifecycle::provisioning_record;
use secret_handoff::process::{
    aborted_message, after_collect, after_drain, after_inspect, after_limits, after_poll,
    after_terminate, kill_recorded_helper, poll_step, termination_error,
    verify_recorded_process, write_procs_entry, Awaited, ChildStatus, HelperKill, PollStep,
    TerminationReason, Wait, WaitStep,
};
use secret_handoff::reconcile::{first_error, stale_operation_cgroups};
use secret_handoff::record::{
    cleanup_action_for, CgroupIdentity, CleanupAction, LifecycleStatus, OperationCgroupFence,
};
use secret_handoff::state::{State, MAX_OPERATION_CGROUPS};
use secret_handoff::trust::{
    cgroup_directory_names, check_cgroup_component, check_private_component,
    check_private_directory, check_recorded_cgroup, check_recorded_cgroup_component,
    check_secure_directory, check_secure_file, check_state_file, private_directory_names,
    recorded_cgroup_names, secure_policy, trusted_system_owner, verify_identity, FileFacts,
    FileKind, SecureWalk, StateFile,
};

const ID: CgroupIdentity = CgroupIdentity { dev: 5, ino: 6 };
const OTHER: CgroupIdentity = CgroupIdentity { dev: 5, ino: 7 };

fn clock() -> Clock {
    Clock { wall: 1000, mono: Some(50), boot: Some("boot".into()) }
}

fn error<T>(result: Result<T, String>) -> String {
    result.err().expect("error")
}

fn facts(kind: FileKind, uid: u32, mode: u32) -> FileFacts {
    FileFacts { kind, uid, mode, identity: ID }
}

fn directory(uid: u32, mode: u32) -> FileFacts {
    facts(FileKind::Directory, uid, mode)
}

#[test]
fn identities_are_read_back_and_detect_restarts() {
    let identity = process_identity(42, 77, "boot:1");
    assert_eq!(identity, "42:77:boot:1");
    let process = parse_process_identity(&identity).expect("identity");
    assert_eq!((process.pid, process.start_ticks, process.boot.as_str()), (42, 77, "boot:1"));
    let liveness = |boot: Option<&str>, ticks| process_identity_liveness(&identity, boot, &ticks);
    assert_eq!(liveness(Some("boot:1"), Ok(Some(77))), ProcessLiveness::Alive);
    assert_eq!(liveness(Some("boot:1"), Ok(Some(78))), ProcessLiveness::Dead);
    assert_eq!(liveness(Some("boot:1"), Ok(None)), ProcessLiveness::Dead);
    assert_eq!(liveness(Some("boot:1"), Err("unreadable".into())), ProcessLiveness::Unknown);
    assert_eq!(liveness(Some("boot:2"), Ok(Some(77))), ProcessLiveness::Dead);
    assert_eq!(liveness(None, Ok(Some(77))), ProcessLiveness::Unknown);
    for broken in ["", "1", "1:2", "0:2:b", "1:0:b", "1:2:", "x:2:b", "4294967296:2:b"] {
        assert!(parse_process_identity(broken).is_none(), "{broken}");
    }
}

#[test]
fn process_status_lines_are_read() {
    let line = "7 (a) b) S 1 2 3 4 5 6 7 8 9 10 11 12 13 14 15 16 17 18 4321 20";
    assert_eq!(process_start_ticks(line), Ok(4321));
    assert_eq!(error(process_start_ticks("7 (a)")), "process identity is malformed");
    assert_eq!(error(process_start_ticks("7 (a) S 1 2")), "process identity is incomplete");
    let line = "7 (a) S 1 2 3 4 5 6 7 8 9 10 11 12 13 14 15 16 17 18 x";
    assert_eq!(error(process_start_ticks(line)), "process identity is invalid");
    assert_eq!(boot_id(" abc-def\n").as_deref(), Some("abc-def"));
    assert_eq!(boot_id(" \n"), None);
}

#[test]
fn deadlines_are_kept_by_the_monotonic_clock() {
    assert_eq!(now(Some(3)), 3);
    assert_eq!(now(None), 0);
    assert_eq!(monotonic_pair(&clock()), (Some(50), Some("boot".to_owned())));
    let half = Clock { boot: None, ..clock() };
    assert_eq!(monotonic_pair(&half), (None, None));
    let record = provisioning_record("sh_1", "t", "l", 10, true, "me", &clock());
    assert_eq!((record.expires_at, record.expires_mono), (1010, Some(60)));
    assert_eq!((record.lease_expires_at, record.lease_expires_mono), (Some(1180), Some(230)));
    assert!(!record_expired(&record, &clock()));
    assert!(!record_expired(&record, &Clock { wall: 9999, ..clock() }));
    assert!(record_expired(&record, &Clock { mono: Some(60), wall: 0, ..clock() }));
    assert!(record_expired(&record, &Clock { boot: Some("later".into()), ..clock() }));
    assert!(record_expired(&record, &Clock { wall: 1010, ..half.clone() }));
    assert!(!record_expired(&record, &Clock { wall: 1009, ..half }));
    let found = ProcessLiveness::Dead;
    assert_eq!(lease_liveness(&record, "me", found, &clock()), LeaseLiveness::Live);
    assert_eq!(lease_liveness(&record, "you", found, &clock()), LeaseLiveness::Expired);
    assert_eq!(
        lease_liveness(&record, "you", ProcessLiveness::Unknown, &clock()),
        LeaseLiveness::Unknown
    );
    let late = provisioning_record("sh_1", "t", "l", 10, true, "me", &Clock {
        wall: u64::MAX,
        mono: Some(u64::MAX),
        boot: Some("boot".into()),
    });
    assert_eq!((late.expires_at, late.expires_mono), (u64::MAX, Some(u64::MAX)));
}

#[test]
fn waits_end_well_only_after_a_clean_end() {
    let mut wait = Wait::new();
    assert!(matches!(after_drain(&wait, None, false), WaitStep::Inspect));
    assert!(matches!(
        after_drain(&wait, Some("broken pipe".into()), true),
        WaitStep::Abort(error) if error == "broken pipe"
    ));
    assert!(matches!(
        after_inspect(&mut wait, ChildStatus::Running, false),
        WaitStep::Limits
    ));
    assert!(matches!(after_limits(&wait, false, true, false), WaitStep::Poll));
    assert!(matches!(after_poll(false), WaitStep::Drain));
    assert!(matches!(
        after_poll(true),
        WaitStep::Abort(error) if error == "child pipe polling failed"
    ));
    assert!(matches!(
        after_inspect(&mut wait, ChildStatus::Failed, false),
        WaitStep::Abort(error) if error == "child status failed"
    ));
    assert!(matches!(after_inspect(&mut wait, ChildStatus::Exited, true), WaitStep::Limits));
    assert!(wait.exited);
    assert!(matches!(after_limits(&wait, true, false, false), WaitStep::Poll));
    assert!(matches!(
        after_limits(&wait, false, false, true),
        WaitStep::Abort(error) if error == "child pipes did not close after process exit"
    ));
    assert!(matches!(after_limits(&wait, false, true, true), WaitStep::Collect));
    assert!(matches!(after_collect(&wait, true, None, false, false), WaitStep::Finished));
    let fails = |reaped, cgroup: Option<&str>, cancelled, late| {
        match after_collect(&wait, reaped, cgroup.map(str::to_owned), cancelled, late) {
            WaitStep::Failed(error) | WaitStep::Abort(error) => error,
            other => panic!("unexpected step: {other:?}"),
        }
    };
    assert_eq!(fails(false, None, false, false), "child wait failed");
    assert_eq!(fails(true, Some("busy"), true, true), "child cgroup cleanup failed: busy");
    assert_eq!(fails(true, None, true, true), "operation was cancelled");
    assert_eq!(fails(true, None, false, true), "operation timed out");
}

#[test]
fn timed_out_processes_are_ended() {
    let mut wait = Wait::new();
    match after_inspect(&mut wait, ChildStatus::Running, true) {
        WaitStep::Terminate(reason) => {
            assert_eq!(reason, TerminationReason::TimedOut);
            let cleanup = termination_error(&Some("a".into()), &None, &Some("c".into()));
            assert_eq!(
                cleanup.as_deref(),
                Some("cgroup cleanup failed: a; child cleanup failed: c")
            );
            assert!(matches!(after_terminate(&mut wait, reason, cleanup), WaitStep::Limits));
        }
        other => panic!("unexpected step: {other:?}"),
    }
    assert!(matches!(after_drain(&wait, None, true), WaitStep::Limits));
    assert!(matches!(after_limits(&wait, false, true, true), WaitStep::Poll));
    assert!(matches!(
        after_limits(&wait, true, true, true),
        WaitStep::Failed(error)
            if error == "operation timed out; cgroup cleanup failed: a; child cleanup failed: c"
    ));
    assert_eq!(termination_error(&None, &None, &None), None);
    assert_eq!(aborted_message("broken", &Some("left".into())), "broken; left");
    assert_eq!(aborted_message("broken", &None), "broken");
    assert!(command_outcome(&None, &Ok(())).is_ok());
    assert_eq!(error(command_outcome(&Some("w".into()), &Ok(()))), "w");
    assert_eq!(
        error(command_outcome(&None, &Err("f".into()))),
        "operation cgroup metadata cleanup failed: f"
    );
    assert_eq!(
        error(command_outcome(&Some("w".into()), &Err("f".into()))),
        "w; operation cgroup metadata cleanup failed: f"
    );
}

fn action() -> CleanupAction {
    let record = provisioning_record("sh_1", "t", "l", 10, true, "me", &clock());
    cleanup_action_for(&record, LifecycleStatus::Deleted)
}

#[test]
fn only_known_helpers_are_killed() {
    assert!(matches!(kill_recorded_helper(&action(), None), Ok(HelperKill::Nothing)));
    let helped = CleanupAction {
        helper_pid: Some(42),
        helper_pgid: Some(42),
        helper_start_ticks: Some(7),
        helper_boot_id: Some("boot".into()),
        ..action()
    };
    assert!(matches!(
        kill_recorded_helper(&helped, Some("boot")),
        Ok(HelperKill::Process { pid: 42, start_ticks: 7 })
    ));
    assert!(matches!(kill_recorded_helper(&helped, Some("other")), Ok(HelperKill::Nothing)));
    assert_eq!(
        error(kill_recorded_helper(&helped, None)),
        "current boot identity could not be verified"
    );
    let half = CleanupAction { helper_pgid: None, ..helped.clone() };
    assert_eq!(
        error(kill_recorded_helper(&half, Some("boot"))),
        "recorded helper identity is incomplete"
    );
    let grouped = CleanupAction {
        helper_cgroup: Some("/sys/fs/cgroup/x".into()),
        helper_cgroup_identity: Some(ID),
        ..helped.clone()
    };
    match kill_recorded_helper(&grouped, None) {
        Ok(HelperKill::Cgroup(path, identity)) => {
            assert_eq!(path, "/sys/fs/cgroup/x");
            assert_eq!(identity, ID);
        }
        other => panic!("unexpected plan: {other:?}"),
    }
    let nameless = CleanupAction { helper_cgroup_identity: None, ..grouped.clone() };
    assert_eq!(
        error(kill_recorded_helper(&nameless, None)),
        "recorded helper cgroup identity is unavailable"
    );
    let unknown = CleanupAction { helper_descendants_unknown: true, ..grouped };
    assert_eq!(
        error(kill_recorded_helper(&unknown, None)),
        "legacy helper descendants cannot be verified"
    );
    assert!(verify_recorded_process(7, true, Ok(Some(7))).is_ok());
    assert_eq!(
        error(verify_recorded_process(7, true, Ok(Some(8)))),
        "recorded helper identity no longer matches"
    );
    assert_eq!(
        error(verify_recorded_process(7, true, Ok(None))),
        "recorded helper descendants cannot be verified after pid exit"
    );
    assert_eq!(
        error(verify_recorded_process(7, false, Ok(Some(7)))),
        "recorded helper descendants cannot be verified without a pidfd"
    );
    assert_eq!(error(verify_recorded_process(7, true, Err("stat".into()))), "stat");
}

#[test]
fn processes_enter_their_control_group_by_number() {
    for (pid, text) in [(0, "\n0"), (7, "\n7"), (1234, "\n1234"), (u32::MAX, "\n4294967295")] {
        let mut buffer = [0u8; 32];
        let start = write_procs_entry(&mut buffer, pid);
        assert_eq!(&buffer[start..], text.as_bytes());
    }
}

#[test]
fn control_group_events_are_read() {
    assert_eq!(cgroup_populated(b"populated 1\nfrozen 0\n"), Ok(true));
    assert_eq!(cgroup_populated(b"frozen 0\r\npopulated 0\r\n"), Ok(false));
    assert_eq!(cgroup_populated(b"populated  1 "), Ok(true));
    assert_eq!(cgroup_populated(b"populated 10"), Ok(false));
    let invalid = "operation cgroup state is invalid";
    assert_eq!(error(cgroup_populated(b"frozen 0\n")), invalid);
    assert_eq!(error(cgroup_populated(b"")), invalid);
    assert_eq!(error(cgroup_populated(b"populated 1\n\xff")), invalid);
}

#[test]
fn the_delegated_root_is_chosen() {
    let report = "12:cpu:/other\n0::/user.slice/app.scope\n";
    assert_eq!(cgroup_root(Some("/cg"), Some(report), 1), Ok("/cg".to_owned()));
    assert_eq!(
        cgroup_root(Some("  "), Some(report), 1),
        Ok("/sys/fs/cgroup/user.slice/app.scope".to_owned())
    );
    assert_eq!(
        cgroup_root(None, Some("1:name=x:/y\n"), 1000),
        Ok("/sys/fs/cgroup/user.slice/user-1000.slice/user@1000.service".to_owned())
    );
    assert!(!searches_upwards(Some("/cg")));
    assert!(searches_upwards(Some("  ")) && searches_upwards(None));
    assert_eq!(error(cgroup_root(Some("cg"), None, 1)), "cgroup root must be absolute");
    assert_eq!(
        error(cgroup_root(Some("/cg/../x"), None, 1)),
        "cgroup root cannot contain dot components"
    );
    assert_eq!(
        root_candidates("/sys/fs/cgroup/user.slice/app.scope"),
        ["/sys/fs/cgroup/user.slice/app.scope", "/sys/fs/cgroup/user.slice", "/sys/fs/cgroup"]
    );
    assert_eq!(root_candidates("/a//b/."), ["/a/b", "/a", "/"]);
    assert_eq!(stable_root(&vec![true, false, true, false]), Ok(2));
    assert_eq!(
        error(stable_root(&vec![false, false])),
        "no stable delegated cgroup root is available"
    );
}

#[test]
fn delegation_needs_writable_control_files() {
    let own = directory(1000, 0o755);
    let control = Some(facts(FileKind::Regular, 1000, 0o200));
    assert!(is_delegated(&own, &control, &control, 1000));
    assert!(!is_delegated(&directory(0, 0o755), &control, &control, 1000));
    assert!(!is_delegated(&own, &None, &control, 1000));
    assert!(!is_delegated(&own, &control, &Some(facts(FileKind::Regular, 0, 0o200)), 1000));
    assert!(!is_delegated(&own, &Some(facts(FileKind::Symlink, 1000, 0o777)), &control, 1000));
    assert!(!is_delegated(&own, &Some(facts(FileKind::Regular, 1000, 0o444)), &control, 1000));
    assert!(check_cgroup_root_component(&own).is_ok());
    assert_eq!(
        error(check_cgroup_root_component(&facts(FileKind::Symlink, 0, 0))),
        "delegated cgroup root cannot contain symlink components"
    );
    assert_eq!(
        error(check_cgroup_root_component(&directory(0, 0o775))),
        "delegated cgroup root contains a writable directory"
    );
    assert!(check_cgroup_root(&own, 1000).is_ok());
    assert_eq!(
        error(check_cgroup_root(&own, 1001)),
        "delegated cgroup root is not owned by the current user"
    );
    assert!(check_new_cgroup(&own, 1000).is_ok());
    assert_eq!(
        error(check_new_cgroup(&facts(FileKind::Regular, 1000, 0), 1000)),
        "dedicated operation cgroup has an unexpected owner"
    );
    assert!(check_unchanged_cgroup(ID, ID).is_ok());
    assert_eq!(
        error(check_unchanged_cgroup(ID, OTHER)),
        "operation cgroup changed before removal"
    );
    assert_eq!(unusable_cgroup_message("no".into(), true), "no");
    assert_eq!(
        unusable_cgroup_message("no".into(), false),
        "no; operation cgroup cleanup pending"
    );
}

#[test]
fn orphans_are_fenced_before_they_are_killed() {
    let mut steps = vec![OrphanStep::LookInside];
    while *steps.last().expect("step") != OrphanStep::Leave {
        let next = after_orphan_step(*steps.last().expect("step"), true);
        steps.push(next);
    }
    assert_eq!(
        steps,
        [
            OrphanStep::LookInside,
            OrphanStep::Fence,
            OrphanStep::Kill,
            OrphanStep::Release,
            OrphanStep::Leave
        ]
    );
    assert_eq!(after_orphan_step(OrphanStep::LookInside, false), OrphanStep::Remove);
    assert_eq!(after_orphan_step(OrphanStep::Remove, true), OrphanStep::Leave);
    assert_eq!(after_orphan_step(OrphanStep::Fence, false), OrphanStep::Leave);
    assert_eq!(after_orphan_step(OrphanStep::Kill, false), OrphanStep::Leave);
    assert!(is_operation_cgroup_name("codex-secret-handoff-1"));
    assert!(!is_operation_cgroup_name("codex-secret-handoff"));
    assert!(!is_operation_cgroup_name("x-codex-secret-handoff-1"));
    assert_eq!(cgroup_age_seconds(90, 100), Some(10));
    assert_eq!(cgroup_age_seconds(101, 100), Some(0));
    assert_eq!(cgroup_age_seconds(-1, 100), None);
    let found = |kind, uid, identity| Some(FileFacts { kind, uid, mode: 0o040700, identity });
    let own = found(FileKind::Directory, 1000, ID);
    assert_eq!(kill_cgroup_path(Some(ID), own, 1000), Ok(Some(ID)));
    assert_eq!(kill_cgroup_path(Some(ID), None, 1000), Ok(None));
    for facts in [None, own] {
        assert_eq!(
            error(kill_cgroup_path(None, facts, 1000)),
            "recorded operation cgroup identity is unavailable"
        );
    }
    assert_eq!(
        error(kill_cgroup_path(Some(ID), own, 1001)),
        "recorded cgroup has an unexpected owner"
    );
    assert_eq!(
        error(kill_cgroup_path(Some(ID), found(FileKind::Symlink, 1000, ID), 1000)),
        "recorded cgroup path is not a regular directory"
    );
    let other = CgroupIdentity { ino: ID.ino + 1, ..ID };
    assert_eq!(
        error(kill_cgroup_path(Some(ID), found(FileKind::Directory, 1000, other), 1000)),
        "recorded cgroup identity no longer matches"
    );
    assert_eq!(first_error(None, "a".into()).as_deref(), Some("a"));
    assert_eq!(first_error(Some("a".into()), "b".into()).as_deref(), Some("a"));
}

#[test]
fn fences_are_dropped_only_with_their_group() {
    let mut state = State::default();
    let path = "/sys/fs/cgroup/a";
    register_operation_cgroup(&mut state, path, ID, "me", &clock()).expect("fenced");
    assert_eq!(
        register_operation_cgroup_with_owner(&mut state, path, OTHER, "you", "me", &clock()),
        Ok(false)
    );
    unregister_operation_cgroup_if_identity(&mut state, path, OTHER);
    assert_eq!(state.operation_cgroups.len(), 1);
    forget_operation_cgroup_if_absent(&mut state, path, ID, false);
    assert_eq!(state.operation_cgroups.len(), 1);
    let fence = state.operation_cgroups.get(path).expect("fence").clone();
    assert_eq!((fence.expires_at, fence.expires_mono), (1120, Some(170)));
    assert!(!operation_cgroup_expired(&fence, &clock()));
    assert!(operation_cgroup_expired(&fence, &Clock { mono: Some(170), ..clock() }));
    let renewed = OperationCgroupFence { expires_at: 1, ..fence.clone() };
    release_fence(&mut state, path, &renewed);
    assert_eq!(state.operation_cgroups.len(), 1);
    release_fence(&mut state, path, &fence);
    assert_eq!(state.operation_cgroups.len(), 0);
    register_operation_cgroup(&mut state, path, ID, "me", &clock()).expect("fenced again");
    forget_operation_cgroup_if_absent(&mut state, path, ID, true);
    assert_eq!(state.operation_cgroups.len(), 0);
    for index in 0..MAX_OPERATION_CGROUPS {
        let path = format!("/sys/fs/cgroup/{index}");
        register_operation_cgroup(&mut state, &path, ID, "me", &clock()).expect("room");
    }
    assert_eq!(
        error(register_operation_cgroup(&mut state, path, ID, "me", &clock())),
        "operation cgroup capacity has been reached"
    );
}

#[test]
fn stale_fences_are_listed_in_order() {
    let mut state = State::default();
    for (path, owner) in [("/c", "dead"), ("/a", "me"), ("/b", "unknown")] {
        register_operation_cgroup_with_owner(&mut state, path, ID, owner, owner, &clock())
            .expect("fenced");
    }
    let found = vec![ProcessLiveness::Dead, ProcessLiveness::Unknown, ProcessLiveness::Dead];
    let list = stale_operation_cgroups(&state, "me", &found, &clock());
    assert_eq!(list.len(), 1);
    assert_eq!(list[0].0, "/c");
    assert_eq!(list[0].1.owner, "dead");
    let later = Clock { mono: Some(170), ..clock() };
    let paths = stale_operation_cgroups(&state, "me", &found, &later)
        .into_iter()
        .map(|(path, _)| path)
        .collect::<Vec<_>>();
    assert_eq!(paths, ["/a", "/b", "/c"]);
}

#[test]
fn private_directories_are_checked() {
    assert_eq!(private_directory_names("/home//me/./x"), Ok(vec![
        "home".to_owned(),
        "me".to_owned(),
        "x".to_owned()
    ]));
    for path in ["home/me", "./x", "/home/../x", ""] {
        assert_eq!(
            error(private_directory_names(path)),
            "private directory must be an absolute path without dot components"
        );
    }
    assert!(check_private_component(&directory(0, 0o755), 1000, None).is_ok());
    assert!(check_private_component(&directory(7, 0o755), 1000, Some(7)).is_ok());
    assert!(check_private_component(&directory(7, 0o1777), 1000, None).is_ok());
    assert_eq!(
        error(check_private_component(&facts(FileKind::Regular, 1000, 0), 1000, None)),
        "private path contains a non-directory component"
    );
    assert_eq!(
        error(check_private_component(&directory(7, 0o755), 1000, None)),
        "private path contains an unexpected owner"
    );
    assert_eq!(
        error(check_private_component(&directory(1000, 0o775), 1000, None)),
        "private path contains a writable directory"
    );
    assert_eq!(check_private_directory(&directory(1000, 0o755), 1000), Ok(true));
    assert_eq!(check_private_directory(&directory(0, 0o755), 1000), Ok(false));
    assert_eq!(
        error(check_private_directory(&directory(7, 0o755), 1000)),
        "private directory has an unexpected owner"
    );
    assert_eq!(
        trusted_system_owner(Some(directory(7, 0o755)), Some(directory(7, 0o755)), 1000),
        Some(7)
    );
    assert_eq!(
        trusted_system_owner(Some(directory(7, 0o755)), Some(directory(7, 0o775)), 1000),
        None
    );
    assert_eq!(
        trusted_system_owner(Some(directory(7, 0o755)), Some(directory(8, 0o755)), 1000),
        None
    );
    assert_eq!(trusted_system_owner(None, Some(directory(7, 0o755)), 1000), None);
    assert_eq!(
        trusted_system_owner(Some(directory(7, 0o755)), Some(directory(7, 0o755)), 7),
        None
    );
}

#[test]
fn secure_paths_are_checked() {
    let begin = |path| SecureWalk::begin(path, 1000, false, false, true, None).err();
    assert_eq!(begin("ops.json").as_deref(), Some("secure paths must be absolute"));
    assert_eq!(
        begin("/home/../ops.json").as_deref(),
        Some("secure paths cannot contain dot components")
    );
    for path in ["/usr/./bin/x", "/usr//bin/x", "/usr/bin/x/", "//usr/bin/x", "/usr/bin/x/."] {
        assert_eq!(
            begin(path).as_deref(),
            Some("secure paths cannot contain dot components"),
            "{path}"
        );
    }
    assert!(begin("/usr/bin/.x").is_none());
    assert!(begin("/usr/bin/..x").is_none());
    assert_eq!(begin("/").as_deref(), Some("secure file is unavailable"));
    let own = secure_policy("/home/me/x", 1000, false, true, None);
    assert!(!own.system);
    assert!(check_secure_directory(&own, &directory(0, 0o755)).is_ok());
    assert!(check_secure_directory(&own, &directory(7, 0o1777)).is_ok());
    assert_eq!(
        error(check_secure_directory(&own, &directory(7, 0o755))),
        "secure path contains an unexpected owner"
    );
    assert_eq!(
        error(check_secure_directory(&own, &directory(1000, 0o775))),
        "secure path contains a writable directory"
    );
    assert_eq!(
        error(check_secure_directory(&own, &facts(FileKind::Symlink, 1000, 0))),
        "secure path contains a non-directory component"
    );
    let file = |uid, mode| facts(FileKind::Regular, uid, mode);
    assert!(check_secure_file(&own, &file(1000, 0o600), false).is_ok());
    assert_eq!(
        error(check_secure_file(&own, &file(0, 0o600), false)),
        "secure file has an unexpected owner"
    );
    assert_eq!(
        error(check_secure_file(&own, &file(1000, 0o620), false)),
        "secure file is writable by group or other users"
    );
    assert_eq!(
        error(check_secure_file(&own, &file(1000, 0o600), true)),
        "configured executable is not executable"
    );
    assert_eq!(
        error(check_secure_file(&own, &directory(1000, 0o700), true)),
        "secure file must be a regular non-symlink file"
    );
    let system = secure_policy("/usr/bin/gh", 1000, true, false, Some(7));
    assert!(system.system);
    assert_eq!(
        error(check_secure_file(&system, &file(7, 0o755), true)),
        "secure file has an unexpected owner"
    );
    assert!(!secure_policy("/usrx/gh", 1000, true, false, None).system);
    assert!(verify_identity(ID, ID).is_ok());
    assert_eq!(error(verify_identity(ID, OTHER)), "secure file identity changed");
}

#[test]
fn replaced_files_are_noticed() {
    let mut walk = SecureWalk::begin("/x", 1000, false, false, false, None).expect("walk");
    assert_eq!(
        error(walk.enter(directory(0, 0o755))),
        "secure path contains an unexpected owner"
    );
    walk.enter(directory(1000, 0o755)).expect("root");
    assert_eq!(walk.file_name(), Some("x"));
    let opened = facts(FileKind::Regular, 1000, 0o600);
    assert_eq!(walk.finish(&opened, &opened), Ok(ID));
    let replaced = FileFacts { identity: OTHER, ..opened };
    assert_eq!(error(walk.finish(&opened, &replaced)), "secure file changed during validation");
    let linked = FileFacts { kind: FileKind::Symlink, ..opened };
    assert_eq!(error(walk.finish(&opened, &linked)), "secure file changed during validation");
}

#[test]
fn state_files_are_checked() {
    let file = |uid, mode| facts(FileKind::Regular, uid, mode);
    assert!(check_state_file(StateFile::State, &file(1000, 0o600), 1000).is_ok());
    assert!(check_state_file(StateFile::Lock, &file(0, 0o600), 1000).is_ok());
    assert_eq!(
        error(check_state_file(StateFile::State, &directory(1000, 0o600), 1000)),
        "state file must be a regular non-symlink file"
    );
    assert_eq!(
        error(check_state_file(StateFile::Lock, &file(7, 0o600), 1000)),
        "state lock has an unexpected owner"
    );
    assert_eq!(
        error(check_state_file(StateFile::State, &file(1000, 0o602), 1000)),
        "state file is writable by group or other users"
    );
}

#[test]
fn recorded_groups_lie_below_the_delegated_root() {
    assert_eq!(recorded_cgroup_names("/sys/fs/cgroup/a/b", "/sys/fs/cgroup"), Ok(vec![
        "a".to_owned(),
        "b".to_owned()
    ]));
    let outside = "recorded cgroup path is outside the delegated root";
    for raw in ["/sys/fs/cgroup", "/sys/fs/other/a", "/sys/fs/cgroup/../x", "sys/fs/cgroup/a"] {
        assert_eq!(error(recorded_cgroup_names(raw, "/sys/fs/cgroup")), outside, "{raw}");
    }
    assert_eq!(error(cgroup_directory_names("a/b")), "cgroup directory path is invalid");
    assert_eq!(cgroup_directory_names("/a"), Ok(vec!["a".to_owned()]));
    assert!(check_cgroup_component(&directory(0, 0o755), 1000).is_ok());
    assert_eq!(
        error(check_cgroup_component(&directory(7, 0o755), 1000)),
        "cgroup directory contains an unsafe owner"
    );
    assert_eq!(
        error(check_cgroup_component(&facts(FileKind::Other, 0, 0), 1000)),
        "cgroup directory contains an unsafe component"
    );
    assert!(check_recorded_cgroup_component(&directory(7, 0)).is_ok());
    assert_eq!(
        error(check_recorded_cgroup_component(&facts(FileKind::Regular, 7, 0))),
        "recorded cgroup path is not a regular directory"
    );
    assert_eq!(
        error(check_recorded_cgroup(&directory(7, 0o700), 1000, None)),
        "recorded cgroup has an unexpected owner"
    );
}

#[test]
fn polling_ends_in_time() {
    let late = |awaited, done| match poll_step(awaited, done, true) {
        PollStep::Late(error) => error,
        other => format!("{other:?}"),
    };
    assert_eq!(
        late(Awaited::EmptyCgroup, true),
        "operation cgroup did not empty after termination"
    );
    assert_eq!(late(Awaited::ReapedChild, false), "child did not exit after termination");
    assert_eq!(late(Awaited::GoneHelper, false), "recorded helper did not exit after termination");
    assert_eq!(late(Awaited::StateLock, false), "state lock acquisition timed out");
    for awaited in [Awaited::ReapedChild, Awaited::GoneHelper, Awaited::StateLock] {
        assert_eq!(late(awaited, true), "Done");
    }
    for awaited in [Awaited::EmptyCgroup, Awaited::StateLock] {
        assert!(matches!(poll_step(awaited, true, false), PollStep::Done));
        assert!(matches!(poll_step(awaited, false, false), PollStep::Again));
    }
}
