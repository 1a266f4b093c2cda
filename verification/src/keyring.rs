//! Talking to the keyring and to the prompt: what they are asked, and what is
//! made of their answers.
use vstd::prelude::*;
use vstd::string::*;

use crate::text::joined;
use crate::validate::{account_of, keyring_account};

verus! {

/// The service under which all secrets are filed.
pub open spec fn service() -> Seq<char> {
    "codex-secret-handoff"@
}

/// The texts that a list holds.
pub open spec fn texts(list: Seq<String>) -> Seq<Seq<char>> {
    list.map(|i: int, text: String| text@)
}

/// What the keyring is asked to store: the secret itself is not among it.
pub open spec fn store_request(handle: Seq<char>, target: Seq<char>, label: Seq<char>) -> Seq<
    Seq<char>,
> {
    seq![
        "store"@,
        "--label"@,
        label,
        "service"@,
        service(),
        "account"@,
        account_of(handle),
        "target"@,
        target,
    ]
}

/// The arguments with which the keyring stores a secret.
pub fn store_arguments(handle: &str, target: &str, label: &str) -> (list: Vec<String>)
    ensures
        texts(list@) == store_request(handle@, target@, label@),
{
    let list = vec![
        "store".to_owned(),
        "--label".to_owned(),
        label.to_owned(),
        "service".to_owned(),
        "codex-secret-handoff".to_owned(),
        "account".to_owned(),
        keyring_account(handle),
        "target".to_owned(),
        target.to_owned(),
    ];
    assert(texts(list@) =~= store_request(handle@, target@, label@));
    list
}

/// What the keyring is asked of one account.
pub open spec fn account_request(verb: Seq<Seq<char>>, account: Seq<char>) -> Seq<Seq<char>> {
    verb + seq!["service"@, service(), "account"@, account]
}

/// The arguments with which the keyring gives a secret out.
pub fn lookup_arguments(account: &str) -> (list: Vec<String>)
    ensures
        texts(list@) == account_request(seq!["lookup"@], account@),
{
    let list = vec![
        "lookup".to_owned(),
        "service".to_owned(),
        "codex-secret-handoff".to_owned(),
        "account".to_owned(),
        account.to_owned(),
    ];
    assert(texts(list@) =~= account_request(seq!["lookup"@], account@));
    list
}

/// The arguments with which the keyring forgets a secret.
pub fn clear_arguments(account: &str) -> (list: Vec<String>)
    ensures
        texts(list@) == account_request(seq!["clear"@], account@),
{
    let list = vec![
        "clear".to_owned(),
        "service".to_owned(),
        "codex-secret-handoff".to_owned(),
        "account".to_owned(),
        account.to_owned(),
    ];
    assert(texts(list@) =~= account_request(seq!["clear"@], account@));
    list
}

/// The arguments with which the keyring tells whether it holds a secret.
pub fn search_arguments(account: &str) -> (list: Vec<String>)
    ensures
        texts(list@) == account_request(seq!["search"@, "--all"@, "--unlock"@], account@),
{
    let list = vec![
        "search".to_owned(),
        "--all".to_owned(),
        "--unlock".to_owned(),
        "service".to_owned(),
        "codex-secret-handoff".to_owned(),
        "account".to_owned(),
        account.to_owned(),
    ];
    assert(texts(list@) =~= account_request(seq!["search"@, "--all"@, "--unlock"@], account@));
    list
}

/// A program that can ask the user for a secret.
#[derive(Debug, Clone, Copy, PartialEq, Eq, Structural)]
pub enum PromptProvider {
    Zenity,
    Kdialog,
}

/// The file name of a prompt program.
pub open spec fn provider_name(provider: PromptProvider) -> Seq<char> {
    match provider {
        PromptProvider::Zenity => "zenity"@,
        PromptProvider::Kdialog => "kdialog"@,
    }
}

impl PromptProvider {
    /// The file name of the program.
    pub fn name(self) -> (name: &'static str)
        ensures
            name@ == provider_name(self),
    {
        match self {
            PromptProvider::Zenity => "zenity",
            PromptProvider::Kdialog => "kdialog",
        }
    }
}

/// The program that asks: the first one if it can be trusted, else the second.
pub fn choose_prompt(zenity: bool, kdialog: bool) -> (result: Result<PromptProvider, String>)
    ensures
        match result {
            Ok(PromptProvider::Zenity) => zenity,
            Ok(PromptProvider::Kdialog) => !zenity && kdialog,
            Err(e) => !zenity && !kdialog && e@ == "no supported trusted GUI prompt found"@,
        },
{
    if zenity {
        Ok(PromptProvider::Zenity)
    } else if kdialog {
        Ok(PromptProvider::Kdialog)
    } else {
        Err("no supported trusted GUI prompt found".to_owned())
    }
}

/// The title of the prompt.
pub open spec fn prompt_title(label: Seq<char>) -> Seq<char> {
    "Enter secret - "@ + label
}

/// The text of the prompt.
pub open spec fn prompt_text(target: Seq<char>) -> Seq<char> {
    "Enter the secret for "@ + target
        + ".\nIt stays in the local OS keyring and is never returned to the model."@
}

/// What a prompt program is asked.
pub open spec fn prompt_request(
    provider: PromptProvider,
    target: Seq<char>,
    label: Seq<char>,
) -> Seq<Seq<char>> {
    match provider {
        PromptProvider::Zenity => seq![
            "--password"@,
            "--hide-text"@,
            "--title"@,
            prompt_title(label),
            "--text"@,
            prompt_text(target),
        ],
        PromptProvider::Kdialog => seq![
            "--title"@,
            prompt_title(label),
            "--password"@,
            prompt_text(target),
        ],
    }
}

/// The arguments with which a prompt program asks for a secret.
pub fn prompt_arguments(provider: PromptProvider, target: &str, label: &str) -> (list: Vec<String>)
    ensures
        texts(list@) == prompt_request(provider, target@, label@),
{
    let title = joined("Enter secret - ", label);
    let head = joined("Enter the secret for ", target);
    let message = joined(
        head.as_str(),
        ".\nIt stays in the local OS keyring and is never returned to the model.",
    );
    let list = match provider {
        PromptProvider::Zenity => vec![
            "--password".to_owned(),
            "--hide-text".to_owned(),
            "--title".to_owned(),
            title,
            "--text".to_owned(),
            message,
        ],
        PromptProvider::Kdialog => vec![
            "--title".to_owned(),
            title,
            "--password".to_owned(),
            message,
        ],
    };
    assert(texts(list@) =~= prompt_request(provider, target@, label@));
    list
}

/// What is known of a keyring entry.
#[derive(Debug, Clone, Copy, PartialEq, Eq, Structural)]
pub enum KeyringEntryState {
    Present,
    Missing,
    Unavailable,
}

/// What a search tells of an entry: a search that failed tells nothing.
pub open spec fn search_result(succeeded: bool, has_matches: bool) -> KeyringEntryState {
    if !succeeded {
        KeyringEntryState::Unavailable
    } else if has_matches {
        KeyringEntryState::Present
    } else {
        KeyringEntryState::Missing
    }
}

/// What a search tells of an entry.
pub fn classify_keyring_search_result(succeeded: bool, has_matches: bool) -> (state:
    KeyringEntryState)
    ensures
        state == search_result(succeeded, has_matches),
{
    if !succeeded {
        KeyringEntryState::Unavailable
    } else if has_matches {
        KeyringEntryState::Present
    } else {
        KeyringEntryState::Missing
    }
}

/// Where the removal of a keyring entry stands: what has to be done next, or
/// how it ended.
#[derive(Debug)]
pub enum ClearStep {
    /// The keyring has to be asked to forget the entry, for the second time if
    /// `again`.
    Clear { again: bool },
    /// The keyring has to be searched; it was searched `searches` times so far.
    Search { searches: u8, cleared: bool },
    Removed,
    Failed { error: String },
}

/// What a step stands for.
#[verifier::ext_equal]
pub enum ClearModel {
    Clear { again: bool },
    Search { searches: u8, cleared: bool },
    Removed,
    Failed { error: Seq<char> },
}

impl View for ClearStep {
    type V = ClearModel;

    open spec fn view(&self) -> ClearModel {
        match self {
            ClearStep::Clear { again } => ClearModel::Clear { again: *again },
            ClearStep::Search { searches, cleared } => ClearModel::Search {
                searches: *searches,
                cleared: *cleared,
            },
            ClearStep::Removed => ClearModel::Removed,
            ClearStep::Failed { error } => ClearModel::Failed { error: error@ },
        }
    }
}

/// What follows the keyring's answer to being asked to forget an entry: whatever
/// it says, it is searched.
pub open spec fn cleared_next(again: bool, answer: Result<bool, Seq<char>>) -> ClearModel {
    match answer {
        Err(error) => ClearModel::Failed { error },
        Ok(cleared) => ClearModel::Search {
            searches: if again {
                1
            } else {
                0
            },
            cleared,
        },
    }
}

/// What follows a search: the entry is gone only if a search has found it
/// missing; where it is still there, forgetting it is tried once more, and then
/// it is searched once more.
pub open spec fn searched_next(
    searches: u8,
    cleared: bool,
    answer: Result<KeyringEntryState, Seq<char>>,
) -> ClearModel {
    match answer {
        Err(error) => ClearModel::Failed { error },
        Ok(KeyringEntryState::Missing) => ClearModel::Removed,
        Ok(KeyringEntryState::Unavailable) => if searches < 2 {
            ClearModel::Failed { error: "OS keyring entry deletion could not be verified"@ }
        } else {
            clear_exhausted(cleared)
        },
        Ok(KeyringEntryState::Present) => if searches == 0 {
            ClearModel::Clear { again: true }
        } else if searches == 1 {
            ClearModel::Search { searches: 2, cleared }
        } else {
            clear_exhausted(cleared)
        },
    }
}

/// How a removal ends whose entry is still there after all.
pub open spec fn clear_exhausted(cleared: bool) -> ClearModel {
    ClearModel::Failed {
        error: if cleared {
            "OS keyring entry remains after deletion verification"@
        } else {
            "OS keyring entry could not be removed"@
        },
    }
}

/// What an answer stands for.
pub open spec fn answer_of<T>(answer: Result<T, String>) -> Result<T, Seq<char>> {
    match answer {
        Ok(value) => Ok(value),
        Err(e) => Err(e@),
    }
}

/// What follows the keyring's answer to being asked to forget an entry.
pub fn after_clear(again: bool, answer: Result<bool, String>) -> (step: ClearStep)
    ensures
        step@ == cleared_next(again, answer_of(answer)),
{
    match answer {
        Err(error) => ClearStep::Failed { error },
        Ok(cleared) => {
            let searches: u8 = if again {
                1
            } else {
                0
            };
            ClearStep::Search { searches, cleared }
        },
    }
}

fn exhausted(cleared: bool) -> (step: ClearStep)
    ensures
        step@ == clear_exhausted(cleared),
{
    if cleared {
        ClearStep::Failed {
            error: "OS keyring entry remains after deletion verification".to_owned(),
        }
    } else {
        ClearStep::Failed { error: "OS keyring entry could not be removed".to_owned() }
    }
}

/// What follows a search of the keyring.
pub fn after_search(searches: u8, cleared: bool, answer: Result<KeyringEntryState, String>) -> (step:
    ClearStep)
    ensures
        step@ == searched_next(searches, cleared, answer_of(answer)),
{
    match answer {
        Err(error) => ClearStep::Failed { error },
        Ok(KeyringEntryState::Missing) => ClearStep::Removed,
        Ok(KeyringEntryState::Unavailable) => {
            if searches < 2 {
                ClearStep::Failed {
                    error: "OS keyring entry deletion could not be verified".to_owned(),
                }
            } else {
                exhausted(cleared)
            }
        },
        Ok(KeyringEntryState::Present) => {
            if searches == 0 {
                ClearStep::Clear { again: true }
            } else if searches == 1 {
                ClearStep::Search { searches: 2, cleared }
            } else {
                exhausted(cleared)
            }
        },
    }
}

/// A removal succeeds only on a search that ran and found nothing: not because
/// the keyring said so, and not because it could not be asked.
pub proof fn law_removal_is_verified(
    again: bool,
    searches: u8,
    cleared: bool,
    clear: Result<bool, Seq<char>>,
    succeeded: bool,
    has_matches: bool,
)
    ensures
        cleared_next(again, clear) != ClearModel::Removed,
        searched_next(searches, cleared, Ok(search_result(succeeded, has_matches)))
            == ClearModel::Removed <==> succeeded && !has_matches,
{
}

/// How many more answers a removal can wait for.
pub open spec fn clear_budget(step: ClearModel) -> nat {
    match step {
        ClearModel::Clear { again } => if again {
            4
        } else {
            6
        },
        ClearModel::Search { searches, .. } => if searches == 0 {
            5
        } else if searches == 1 {
            3
        } else {
            2
        },
        _ => 0,
    }
}

/// A removal ends after a few answers, whatever they are.
pub proof fn law_removal_ends(
    again: bool,
    searches: u8,
    cleared: bool,
    clear: Result<bool, Seq<char>>,
    search: Result<KeyringEntryState, Seq<char>>,
)
    ensures
        clear_budget(cleared_next(again, clear)) < clear_budget(ClearModel::Clear { again }),
        clear_budget(searched_next(searches, cleared, search)) < clear_budget(
            ClearModel::Search { searches, cleared },
        ),
{
}

/// What the keyring answers while an entry is removed: to being asked to forget it,
/// for the second time or not, and to being searched after so many searches. It
/// also depends on whether the asking is stopped by a cancellation.
pub struct KeyringAnswers {
    pub clear: spec_fn(bool, bool) -> Result<bool, Seq<char>>,
    pub search: spec_fn(bool, u8) -> Result<KeyringEntryState, Seq<char>>,
}

/// What goes wrong with a removal from a step on, if anything does.
pub open spec fn removal_fault(step: ClearModel, keyring: KeyringAnswers, stopped: bool) -> Option<
    Seq<char>,
>
    decreases clear_budget(step),
{
    match step {
        ClearModel::Clear { again } => removal_fault(
            cleared_next(again, (keyring.clear)(stopped, again)),
            keyring,
            stopped,
        ),
        ClearModel::Search { searches, cleared } => removal_fault(
            searched_next(searches, cleared, (keyring.search)(stopped, searches)),
            keyring,
            stopped,
        ),
        ClearModel::Removed => None,
        ClearModel::Failed { error } => Some(error),
    }
}

} // verus!
