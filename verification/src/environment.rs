//! Where files are looked for, and which variables helpers are given.
use vstd::prelude::*;
use vstd::string::*;

use crate::cgroups::optional_str;
use crate::keyring::texts;
use crate::paths::{absolute, is_absolute};
use crate::text::{blank, is_blank, verdict, white_char};

verus! {

/// Which variable says where a file lies.
#[derive(Debug, Clone, Copy, PartialEq, Eq, Structural)]
pub enum DirectoryChoice {
    /// The variable that names the place itself.
    Own,
    /// The variable that names the place of all such files of the user.
    Shared,
    /// The home directory.
    Home,
}

/// A variable that is set to something.
pub open spec fn set_to_something(value: Option<Seq<char>>) -> bool {
    value matches Some(text) && !blank(text)
}

/// Which variable says where a file lies: the most particular one that is set.
pub open spec fn directory_chosen(own: Option<Seq<char>>, shared: Option<Seq<char>>) -> DirectoryChoice {
    if set_to_something(own) {
        DirectoryChoice::Own
    } else if set_to_something(shared) {
        DirectoryChoice::Shared
    } else {
        DirectoryChoice::Home
    }
}

fn is_set_to_something(value: Option<&str>) -> (r: bool)
    ensures
        r == set_to_something(optional_str(value)),
{
    match value {
        Some(text) => !is_blank(text),
        None => false,
    }
}

/// Which variable says where a file lies.
pub fn choose_directory(own: Option<&str>, shared: Option<&str>) -> (choice: DirectoryChoice)
    ensures
        choice == directory_chosen(optional_str(own), optional_str(shared)),
{
    if is_set_to_something(own) {
        DirectoryChoice::Own
    } else if is_set_to_something(shared) {
        DirectoryChoice::Shared
    } else {
        DirectoryChoice::Home
    }
}

/// Where the state lies below the chosen directory.
pub open spec fn state_suffix(choice: DirectoryChoice) -> Seq<char> {
    match choice {
        DirectoryChoice::Own => ""@,
        DirectoryChoice::Shared => "codex-secret-handoff"@,
        DirectoryChoice::Home => ".local/state/codex-secret-handoff"@,
    }
}

/// Where the state lies below the chosen directory.
pub fn state_dir_suffix(choice: DirectoryChoice) -> (suffix: &'static str)
    ensures
        suffix@ == state_suffix(choice),
{
    match choice {
        DirectoryChoice::Own => "",
        DirectoryChoice::Shared => "codex-secret-handoff",
        DirectoryChoice::Home => ".local/state/codex-secret-handoff",
    }
}

/// Where the list of operations lies below the chosen directory.
pub open spec fn config_suffix(choice: DirectoryChoice) -> Seq<char> {
    match choice {
        DirectoryChoice::Own => ""@,
        DirectoryChoice::Shared => "codex-secret-handoff/operations.json"@,
        DirectoryChoice::Home => ".config/codex-secret-handoff/operations.json"@,
    }
}

/// Where the list of operations lies below the chosen directory.
pub fn config_file_suffix(choice: DirectoryChoice) -> (suffix: &'static str)
    ensures
        suffix@ == config_suffix(choice),
{
    match choice {
        DirectoryChoice::Own => "",
        DirectoryChoice::Shared => "codex-secret-handoff/operations.json",
        DirectoryChoice::Home => ".config/codex-secret-handoff/operations.json",
    }
}

/// The variables that helpers inherit, besides a fixed search path: where the
/// display and the session are, and the language.
pub open spec fn inherited() -> Seq<Seq<char>> {
    seq![
        "DISPLAY"@,
        "WAYLAND_DISPLAY"@,
        "XAUTHORITY"@,
        "DBUS_SESSION_BUS_ADDRESS"@,
        "XDG_RUNTIME_DIR"@,
        "GDK_BACKEND"@,
        "LANG"@,
        "LC_ALL"@,
        "LC_CTYPE"@,
    ]
}

/// The variables that helpers inherit.
pub fn safe_local_environment() -> (list: Vec<String>)
    ensures
        texts(list@) == inherited(),
{
    let list = vec![
        "DISPLAY".to_owned(),
        "WAYLAND_DISPLAY".to_owned(),
        "XAUTHORITY".to_owned(),
        "DBUS_SESSION_BUS_ADDRESS".to_owned(),
        "XDG_RUNTIME_DIR".to_owned(),
        "GDK_BACKEND".to_owned(),
        "LANG".to_owned(),
        "LC_ALL".to_owned(),
        "LC_CTYPE".to_owned(),
    ];
    assert(texts(list@) =~= inherited());
    list
}

/// The search path that helpers and operations are given.
pub fn fixed_search_path() -> (path: &'static str)
    ensures
        path@ == "/usr/bin:/bin"@,
{
    "/usr/bin:/bin"
}

/// Whether the chosen place can be that of the state directory.
pub fn check_state_dir(path: &str) -> (result: Result<(), String>)
    ensures
        verdict(
            result,
            if absolute(path@) {
                None
            } else {
                Some("state directory must be an absolute path"@)
            },
        ),
{
    if !is_absolute(path) {
        return Err("state directory must be an absolute path".to_owned());
    }
    Ok(())
}

/// What lies at a place on the way to the state directory.
#[derive(Debug, Clone, Copy, PartialEq, Eq, Structural)]
pub enum PathProbe {
    Present,
    Symlink,
    Missing,
    Unreadable,
}

/// Why the state directory cannot be below a place.
pub open spec fn state_dir_fault(probe: PathProbe, named: bool) -> Option<Seq<char>> {
    match probe {
        PathProbe::Present => None,
        PathProbe::Symlink => Some("state directory cannot contain symlink components"@),
        PathProbe::Missing => if named {
            None
        } else {
            Some("state directory has no valid name"@)
        },
        PathProbe::Unreadable => Some("state directory cannot be inspected"@),
    }
}

/// Whether the state directory is made below a place, or whether the directory
/// above that place has to be looked at. A place that is missing has to have a
/// name under which it can be made.
pub fn state_dir_found(probe: PathProbe, named: bool) -> (result: Result<bool, String>)
    ensures
        match result {
            Ok(found) => state_dir_fault(probe, named) is None && found == (probe
                == PathProbe::Present),
            Err(e) => state_dir_fault(probe, named) == Some(e@),
        },
{
    match probe {
        PathProbe::Present => Ok(true),
        PathProbe::Symlink => Err("state directory cannot contain symlink components".to_owned()),
        PathProbe::Missing => {
            if named {
                Ok(false)
            } else {
                Err("state directory has no valid name".to_owned())
            }
        },
        PathProbe::Unreadable => Err("state directory cannot be inspected".to_owned()),
    }
}

/// A variable counts only if something is written in it. The place that it names itself
/// comes before the place of all such files, and that before the home directory; and the
/// files lie under the name of this program unless their own place is named.
pub proof fn law_places_are_chosen_by_what_is_set(
    own: Option<&str>,
    shared: Option<&str>,
    choice: DirectoryChoice,
    state: &'static str,
    config: &'static str,
)
    requires
        call_ensures(choose_directory, (own, shared), choice),
        call_ensures(state_dir_suffix, (choice,), state),
        call_ensures(config_file_suffix, (choice,), config),
    ensures
        ({
            let own_set = own is Some && exists|i: int|
                0 <= i < own->0@.len() && !white_char(#[trigger] own->0@[i]);
            let shared_set = shared is Some && exists|i: int|
                0 <= i < shared->0@.len() && !white_char(#[trigger] shared->0@[i]);
            &&& choice is Own <==> own_set
            &&& choice is Shared <==> !own_set && shared_set
            &&& choice is Home <==> !own_set && !shared_set
        }),
        choice is Own ==> state@ == ""@ && config@ == ""@,
        choice is Shared ==> state@ == "codex-secret-handoff"@ && config@
            == "codex-secret-handoff/operations.json"@,
        choice is Home ==> state@ == ".local/state/codex-secret-handoff"@ && config@
            == ".config/codex-secret-handoff/operations.json"@,
{
}

/// Helpers inherit nine variables and no others, and programs are looked for in the two
/// directories of the system alone.
pub proof fn law_helpers_inherit_little(list: Vec<String>, path: &'static str)
    requires
        call_ensures(safe_local_environment, (), list),
        call_ensures(fixed_search_path, (), path),
    ensures
        texts(list@) == seq![
            "DISPLAY"@,
            "WAYLAND_DISPLAY"@,
            "XAUTHORITY"@,
            "DBUS_SESSION_BUS_ADDRESS"@,
            "XDG_RUNTIME_DIR"@,
            "GDK_BACKEND"@,
            "LANG"@,
            "LC_ALL"@,
            "LC_CTYPE"@,
        ],
        path@ == "/usr/bin:/bin"@,
{
}

/// The state directory starts at the root. It is made below the first directory that is
/// there, links are not followed, and what is missing on the way needs a name.
pub proof fn law_state_directories_are_looked_for(
    path: &str,
    place: Result<(), String>,
    probe: PathProbe,
    named: bool,
    found: Result<bool, String>,
)
    requires
        call_ensures(check_state_dir, (path,), place),
        call_ensures(state_dir_found, (probe, named), found),
    ensures
        place is Ok <==> path@.len() > 0 && path@[0] == '/',
        place matches Err(e) ==> e@ == "state directory must be an absolute path"@,
        found == Ok::<bool, String>(true) <==> probe is Present,
        found == Ok::<bool, String>(false) <==> probe is Missing && named,
        found matches Err(e) ==> e@ == match probe {
            PathProbe::Symlink => "state directory cannot contain symlink components"@,
            PathProbe::Unreadable => "state directory cannot be inspected"@,
            _ => "state directory has no valid name"@,
        },
{
}

} // verus!
