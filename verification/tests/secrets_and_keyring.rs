use secret_handoff::flow::{
    after_write, after_write_poll, helper_failed, helper_next, next_write, not_started_message,
    store_outcome, store_unfinished_message, store_unnoted_message, store_unwritable_message,
    HelperPhase, HelperStep, WriteEvent, WriteStep,
};
use secret_handoff::keyring::{
    after_clear, after_search, choose_prompt, clear_arguments, lookup_arguments, prompt_arguments,
    search_arguments, store_arguments, ClearStep, KeyringEntryState, PromptProvider,
};
use secret_handoff::secret::{
    accept_keyring_output, accept_prompt_output, append_child_output, normalize_keyring_output,
    normalize_provider_output, secret_text, validate_secret_for_environment, SecretBytes,
    MAX_SECRET_BYTES,
};
use secret_handoff::token::{
    cgroup_name_from, fresh_cgroup_name, fresh_claim_id, fresh_handle, fresh_temporary_name,
    handle_from, is_temporary_state_name, temporary_name_from,
};

fn bytes(text: &[u8]) -> SecretBytes {
    SecretBytes::new(text.to_vec())
}

fn error<T>(result: Result<T, String>) -> String {
    result.err().expect("error")
}

fn failed(text: &str) -> Result<(), String> {
    Err(text.to_owned())
}

#[test]
fn held_bytes_are_given_back_and_grow() {
    let mut output = bytes(b"ab");
    assert_eq!(output.as_slice(), b"ab");
    assert_eq!(output.len(), 2);
    append_child_output(&mut output, b"cd", 5).expect("room");
    assert_eq!(output.as_slice(), b"abcd");
    assert_eq!(
        error(append_child_output(&mut output, b"ef", 5)),
        "child output exceeded the configured limit"
    );
    assert_eq!(output.as_slice(), b"abcd");
    append_child_output(&mut output, b"e", 5).expect("room for one");
    assert_eq!(
        error(append_child_output(&mut output, b"", 4)),
        "child output exceeded the configured limit"
    );
}

#[test]
fn secrets_are_unframed_with_their_errors() {
    assert_eq!(
        error(normalize_provider_output(bytes(b""))),
        "secret provider framing is invalid"
    );
    assert_eq!(error(normalize_provider_output(bytes(b"\n"))), "empty secret is not accepted");
    assert_eq!(
        error(normalize_provider_output(bytes(b"x\r\n"))),
        "secrets ending in CR or LF are unsupported"
    );
    assert_eq!(error(normalize_keyring_output(bytes(b"\n"))), "empty secret is not accepted");
    assert_eq!(
        error(accept_prompt_output(false, bytes(b"x\n"))),
        "secret entry was cancelled or the GUI prompt failed"
    );
    assert_eq!(
        error(accept_keyring_output(false, bytes(b"x"))),
        "secret is not available in OS keyring"
    );
    assert_eq!(
        error(accept_keyring_output(true, bytes(b"a\0b\n"))),
        "secret must not contain NUL bytes"
    );
}

#[test]
fn the_keyring_gives_back_what_was_entered() {
    let entered = accept_prompt_output(true, bytes("töken\n".as_bytes())).ok().expect("entered");
    assert_eq!(entered.as_slice(), "töken".as_bytes());
    let mut stored = entered.as_slice().to_vec();
    let plain = accept_keyring_output(true, SecretBytes::new(stored.clone())).ok().expect("plain");
    assert_eq!(plain.as_slice(), entered.as_slice());
    stored.push(b'\n');
    let framed = accept_keyring_output(true, SecretBytes::new(stored)).ok().expect("framed");
    assert_eq!(secret_text(&framed), Ok("töken"));
}

#[test]
fn secrets_for_the_environment_are_texts() {
    assert!(validate_secret_for_environment(&vec![b'a'; MAX_SECRET_BYTES]).is_ok());
    assert_eq!(
        error(validate_secret_for_environment(&vec![b'a'; MAX_SECRET_BYTES + 1])),
        "secret exceeds the configured size limit"
    );
    assert_eq!(
        error(validate_secret_for_environment(&[0xff, 0])),
        "secret must be valid UTF-8 for environment handoff"
    );
    assert_eq!(
        error(validate_secret_for_environment(b"a\0")),
        "secret must not contain NUL bytes"
    );
    assert_eq!(
        secret_text(&bytes(&[0xc3])).err().as_deref(),
        Some("secret is not valid UTF-8 and cannot be placed in an environment variable")
    );
}

fn is_random(id: &str) -> bool {
    let digits = id.as_bytes();
    digits.len() == 32
        && digits.iter().all(|digit| b"0123456789abcdef".contains(digit))
        && digits[12] == b'4'
        && b"89ab".contains(&digits[16])
}

#[test]
fn fresh_names_are_random_identifiers() {
    let first = fresh_claim_id();
    let second = fresh_claim_id();
    assert!(is_random(&first));
    assert!(is_random(&second));
    assert_ne!(first, second);
    let handle = fresh_handle();
    assert!(is_random(handle.strip_prefix("sh_").expect("prefix")));
    let cgroup = fresh_cgroup_name();
    assert!(is_random(cgroup.strip_prefix("codex-secret-handoff-").expect("prefix")));
    let temporary = fresh_temporary_name();
    assert!(is_temporary_state_name(temporary.as_bytes()));
    let middle = &temporary["state.json.".len()..temporary.len() - ".tmp".len()];
    assert_eq!(middle.len(), 36);
    assert!(is_random(&middle.replace('-', "")));
}

#[test]
fn names_are_made_of_identifiers() {
    let id = "0123456789ab4def8123456789abcdef";
    assert_eq!(handle_from(id), "sh_0123456789ab4def8123456789abcdef");
    assert_eq!(cgroup_name_from("x"), "codex-secret-handoff-x");
    assert_eq!(
        temporary_name_from(id),
        "state.json.01234567-89ab-4def-8123-456789abcdef.tmp"
    );
    for name in [
        "state.json.tmp",
        "state.json.tm",
        "other.json.1.tmp",
        "state.json.11111111111111111111111111111111.tmp",
        "state.json.11111111-1111-1111-1111-11111111111g.tmp",
        "state.json.11111111-1111-1111-1111-111111111111-tmp",
        "state.json.11111111-1111-1111-1111-1111111111111.tmp",
        "state.json.11111111-1111-1111-1111011111111111-.tmp",
        "State.json.11111111-1111-1111-1111-111111111111.tmp",
    ] {
        assert!(!is_temporary_state_name(name.as_bytes()), "{name}");
    }
}

#[test]
fn the_keyring_is_asked_without_the_secret() {
    assert_eq!(
        store_arguments("sh_1", "github", "publish").join(" "),
        "store --label publish service codex-secret-handoff account handoff:sh_1 target github"
    );
    assert_eq!(
        lookup_arguments("handoff:sh_1").join(" "),
        "lookup service codex-secret-handoff account handoff:sh_1"
    );
    assert_eq!(
        clear_arguments("handoff:sh_1").join(" "),
        "clear service codex-secret-handoff account handoff:sh_1"
    );
    assert_eq!(
        search_arguments("handoff:sh_1").join(" "),
        "search --all --unlock service codex-secret-handoff account handoff:sh_1"
    );
}

#[test]
fn prompts_are_chosen_and_asked() {
    assert_eq!(choose_prompt(true, true), Ok(PromptProvider::Zenity));
    assert_eq!(choose_prompt(false, true), Ok(PromptProvider::Kdialog));
    assert_eq!(error(choose_prompt(false, false)), "no supported trusted GUI prompt found");
    assert_eq!(PromptProvider::Zenity.name(), "zenity");
    assert_eq!(PromptProvider::Kdialog.name(), "kdialog");
    let text = "Enter the secret for github.\n\
                It stays in the local OS keyring and is never returned to the model.";
    assert_eq!(
        prompt_arguments(PromptProvider::Zenity, "github", "publish"),
        ["--password", "--hide-text", "--title", "Enter secret - publish", "--text", text]
    );
    assert_eq!(
        prompt_arguments(PromptProvider::Kdialog, "github", "publish"),
        ["--title", "Enter secret - publish", "--password", text]
    );
}

fn clear_with(clears: &[bool], searches: &[KeyringEntryState]) -> Result<(), String> {
    let mut clears = clears.iter();
    let mut searched = searches.iter();
    let mut step = ClearStep::Clear { again: false };
    loop {
        step = match step {
            ClearStep::Clear { again } => after_clear(again, Ok(*clears.next().expect("clear"))),
            ClearStep::Search { searches, cleared } => {
                after_search(searches, cleared, Ok(*searched.next().expect("search")))
            }
            ClearStep::Removed => return Ok(()),
            ClearStep::Failed { error } => return Err(error),
        };
    }
}

#[test]
fn removal_is_verified_by_a_search() {
    let missing = KeyringEntryState::Missing;
    let present = KeyringEntryState::Present;
    let unavailable = KeyringEntryState::Unavailable;
    assert!(clear_with(&[true], &[missing]).is_ok());
    assert!(clear_with(&[false], &[missing]).is_ok());
    assert_eq!(
        error(clear_with(&[true], &[unavailable])),
        "OS keyring entry deletion could not be verified"
    );
    assert!(clear_with(&[true, true], &[present, missing]).is_ok());
    assert_eq!(
        error(clear_with(&[true, true], &[present, unavailable])),
        "OS keyring entry deletion could not be verified"
    );
    assert!(clear_with(&[true, true], &[present, present, missing]).is_ok());
    assert_eq!(
        error(clear_with(&[true, true], &[present, present, present])),
        "OS keyring entry remains after deletion verification"
    );
    assert_eq!(
        error(clear_with(&[true, false], &[present, present, unavailable])),
        "OS keyring entry could not be removed"
    );
    assert!(matches!(
        after_clear(false, Err("no keyring".into())),
        ClearStep::Failed { error } if error == "no keyring"
    ));
    assert!(matches!(
        after_search(0, true, Err("no keyring".into())),
        ClearStep::Failed { error } if error == "no keyring"
    ));
}

#[test]
fn secrets_are_written_piece_by_piece() {
    assert!(matches!(next_write(0, 0, true), WriteStep::Finished));
    assert!(matches!(next_write(3, 5, false), WriteStep::Write { written: 3 }));
    assert!(matches!(
        next_write(3, 5, true),
        WriteStep::Failed { error } if error == "operation was cancelled"
    ));
    assert!(matches!(
        after_write(3, 5, WriteEvent::Wrote(2), true),
        WriteStep::Write { written: 5 }
    ));
    assert!(matches!(
        after_write(3, 5, WriteEvent::Blocked, false),
        WriteStep::Poll { written: 3 }
    ));
    assert!(matches!(
        after_write(3, 5, WriteEvent::Blocked, true),
        WriteStep::Failed { error } if error == "OS keyring write timed out"
    ));
    for event in [WriteEvent::Wrote(0), WriteEvent::Failed] {
        assert!(matches!(
            after_write(3, 5, event, false),
            WriteStep::Failed { error } if error == "OS keyring rejected the secret"
        ));
    }
}

#[test]
fn secrets_are_not_written_to_broken_pipes() {
    assert!(after_write_poll(false, false).is_ok());
    assert_eq!(error(after_write_poll(false, true)), "OS keyring rejected the secret");
    assert_eq!(error(after_write_poll(true, true)), "OS keyring write could not be polled");
}

fn phases(stores: bool) -> Vec<HelperPhase> {
    let mut phases = vec![HelperPhase::Create];
    loop {
        match helper_next(*phases.last().expect("phase"), stores) {
            HelperStep::Do(phase) => phases.push(phase),
            HelperStep::Ended => return phases,
            other => panic!("unexpected step: {other:?}"),
        }
    }
}

#[test]
fn helpers_are_fenced_before_they_start() {
    assert_eq!(
        phases(false),
        [HelperPhase::Create, HelperPhase::Fence, HelperPhase::Spawn, HelperPhase::Wait]
    );
    assert_eq!(
        phases(true),
        [
            HelperPhase::Create,
            HelperPhase::Fence,
            HelperPhase::Spawn,
            HelperPhase::Note,
            HelperPhase::Connect,
            HelperPhase::Write,
            HelperPhase::Wait,
            HelperPhase::Clear
        ]
    );
    let fails = |phase| helper_failed(phase, "e".into());
    assert!(matches!(fails(HelperPhase::Create), HelperStep::Refuse(error) if error == "e"));
    assert!(matches!(fails(HelperPhase::Fence), HelperStep::Undo(error) if error == "e"));
    assert!(matches!(fails(HelperPhase::Spawn), HelperStep::Unstarted));
    assert!(matches!(fails(HelperPhase::Note), HelperStep::Unnoted(error) if error == "e"));
    assert!(matches!(fails(HelperPhase::Connect), HelperStep::Unwritable));
    assert!(matches!(fails(HelperPhase::Write), HelperStep::Do(HelperPhase::Wait)));
    assert!(matches!(fails(HelperPhase::Wait), HelperStep::Unfinished(error) if error == "e"));
    assert!(matches!(fails(HelperPhase::Clear), HelperStep::Ended));
}

#[test]
fn stores_tell_all_that_went_wrong() {
    assert_eq!(
        not_started_message("OS keyring is unavailable", &failed("a"), &failed("b")),
        "OS keyring is unavailable; cgroup cleanup pending: a; cgroup metadata cleanup failed: b"
    );
    assert_eq!(
        store_unnoted_message("lost".into(), &Some("a".into()), &Ok(())),
        "lost; helper cleanup pending: a"
    );
    assert_eq!(
        store_unwritable_message(&None, &failed("b"), &failed("c")),
        "OS keyring stdin is unavailable; helper metadata cleanup failed: b; \
         cgroup metadata cleanup failed: c"
    );
    assert_eq!(
        store_unfinished_message(&failed("w"), "waited", &Ok(())),
        "w; waited; helper cleanup pending"
    );
    assert!(store_outcome(&Ok(()), &Ok(()), &Ok(()), true).is_ok());
    assert_eq!(
        error(store_outcome(&Ok(()), &Ok(()), &Ok(()), false)),
        "OS keyring rejected the secret"
    );
    assert_eq!(error(store_outcome(&Ok(()), &Ok(()), &failed("w"), true)), "w");
    assert_eq!(error(store_outcome(&Ok(()), &failed("f"), &failed("w"), true)), "f");
    assert_eq!(
        error(store_outcome(&failed("c"), &failed("f"), &failed("w"), true)),
        "helper metadata cleanup failed: c; cgroup metadata cleanup failed: f"
    );
}
