//! Which files and directories may be trusted: who owns them, who may write to
//! them, and whether they are still what they were.
use vstd::prelude::*;
use vstd::string::*;

use crate::keyring::texts;
use crate::paths::{
    absolute, below, canonical, downward, has_step_back, is_absolute, is_canonical,
    lemma_canonical_names, lemma_root_has_no_names, names, path_names, proper_name, segments,
    steps_back, system_path,
};
use crate::record::CgroupIdentity;
use crate::text::{same_text, verdict};

verus! {

/// What kind of thing a path names.
#[derive(Debug, Clone, Copy, PartialEq, Eq, Structural)]
pub enum FileKind {
    Regular,
    Directory,
    Symlink,
    Other,
}

/// What the system tells of a file.
#[derive(Debug, Clone, Copy, PartialEq, Eq, Structural)]
pub struct FileFacts {
    pub kind: FileKind,
    pub uid: u32,
    pub mode: u32,
    pub identity: CgroupIdentity,
}

/// Whether others than the owner may write.
pub open spec fn open_to_others(facts: FileFacts) -> bool {
    facts.mode & 0o022 != 0
}

/// Whether everyone may write to a directory, but only remove what is theirs.
pub open spec fn sticky_shared(facts: FileFacts) -> bool {
    facts.mode & 0o1000 != 0 && facts.mode & 0o002 != 0
}

/// What is wrong with a directory on the way to a private one.
pub open spec fn private_component_fault(
    facts: FileFacts,
    uid: u32,
    system_owner: Option<u32>,
) -> Option<Seq<char>> {
    if facts.kind != FileKind::Directory {
        Some("private path contains a non-directory component"@)
    } else if facts.uid != uid && facts.uid != 0 && system_owner != Some(facts.uid)
        && !sticky_shared(facts) {
        Some("private path contains an unexpected owner"@)
    } else if open_to_others(facts) && !sticky_shared(facts) {
        Some("private path contains a writable directory"@)
    } else {
        None
    }
}

/// Who may own what a secure path leads through.
#[derive(Debug, Clone, Copy, PartialEq, Eq, Structural)]
pub struct SecurePolicy {
    pub uid: u32,
    pub system: bool,
    pub allow_root: bool,
    pub trusted_ancestor: Option<u32>,
    pub allow_non_user_ancestors: bool,
}

/// The policy for a path: what the system installs must be owned by the system.
pub open spec fn policy_for(
    path: Seq<char>,
    uid: u32,
    allow_root: bool,
    allow_non_user_ancestors: bool,
    system_owner: Option<u32>,
) -> SecurePolicy {
    SecurePolicy {
        uid,
        system: system_path(path),
        allow_root,
        trusted_ancestor: if system_path(path) {
            Some(0)
        } else {
            system_owner
        },
        allow_non_user_ancestors,
    }
}

/// Whether a policy lets an owner have the file itself.
pub open spec fn owner_allowed(policy: SecurePolicy, owner: u32) -> bool {
    if policy.system {
        owner == 0
    } else {
        owner == policy.uid || (policy.allow_root && owner == 0)
    }
}

/// What is wrong with a directory on a secure path. A shared directory that
/// keeps its users apart may belong to anyone, except on a system path.
pub open spec fn secure_directory_fault(policy: SecurePolicy, facts: FileFacts) -> Option<
    Seq<char>,
> {
    if facts.kind != FileKind::Directory {
        Some("secure path contains a non-directory component"@)
    } else if !(owner_allowed(policy, facts.uid) || (policy.trusted_ancestor == Some(facts.uid)
        && !open_to_others(facts)) || (policy.allow_non_user_ancestors && facts.uid == 0
        && !open_to_others(facts)) || (!policy.system && sticky_shared(facts))) {
        Some("secure path contains an unexpected owner"@)
    } else if open_to_others(facts) && !sticky_shared(facts) {
        Some("secure path contains a writable directory"@)
    } else {
        None
    }
}

/// What is wrong with the file that a secure path leads to.
pub open spec fn secure_file_fault(
    policy: SecurePolicy,
    facts: FileFacts,
    executable: bool,
) -> Option<Seq<char>> {
    if facts.kind != FileKind::Regular {
        Some("secure file must be a regular non-symlink file"@)
    } else if !owner_allowed(policy, facts.uid) {
        Some("secure file has an unexpected owner"@)
    } else if open_to_others(facts) {
        Some("secure file is writable by group or other users"@)
    } else if executable && facts.mode & 0o111 == 0 {
        Some("configured executable is not executable"@)
    } else {
        None
    }
}

/// What is wrong with a secure path: it has to be absolute, in its only form, and
/// lead to a file.
pub open spec fn secure_path_fault(path: Seq<char>) -> Option<Seq<char>> {
    if !absolute(path) {
        Some("secure paths must be absolute"@)
    } else if !canonical(path) {
        Some("secure paths cannot contain dot components"@)
    } else if names(path).len() == 0 {
        Some("secure file is unavailable"@)
    } else {
        None
    }
}

/// The files that the state directory holds besides what is being written.
#[derive(Debug, Clone, Copy, PartialEq, Eq, Structural)]
pub enum StateFile {
    State,
    Lock,
}

/// What is wrong with a file of the state directory.
pub open spec fn state_file_fault(file: StateFile, facts: FileFacts, uid: u32) -> Option<
    Seq<char>,
> {
    if facts.kind != FileKind::Regular {
        Some(
            match file {
                StateFile::State => "state file must be a regular non-symlink file"@,
                StateFile::Lock => "state lock must be a regular non-symlink file"@,
            },
        )
    } else if facts.uid != uid && facts.uid != 0 {
        Some(
            match file {
                StateFile::State => "state file has an unexpected owner"@,
                StateFile::Lock => "state lock has an unexpected owner"@,
            },
        )
    } else if open_to_others(facts) {
        Some(
            match file {
                StateFile::State => "state file is writable by group or other users"@,
                StateFile::Lock => "state lock is writable by group or other users"@,
            },
        )
    } else {
        None
    }
}

/// What is wrong with a directory on the way to the delegated control group.
pub open spec fn cgroup_component_fault(facts: FileFacts, uid: u32) -> Option<Seq<char>> {
    if facts.kind != FileKind::Directory {
        Some("cgroup directory contains an unsafe component"@)
    } else if (facts.uid != uid && facts.uid != 0) || open_to_others(facts) {
        Some("cgroup directory contains an unsafe owner"@)
    } else {
        None
    }
}

/// What is wrong with the control group that a recorded path leads to.
pub open spec fn recorded_cgroup_fault(
    facts: FileFacts,
    uid: u32,
    expected: Option<CgroupIdentity>,
) -> Option<Seq<char>> {
    if facts.kind != FileKind::Directory {
        Some("recorded cgroup path is not a regular directory"@)
    } else if facts.uid != uid {
        Some("recorded cgroup has an unexpected owner"@)
    } else if expected is Some && expected != Some(facts.identity) {
        Some("recorded cgroup identity no longer matches"@)
    } else {
        None
    }
}

fn is_open_to_others(facts: &FileFacts) -> (r: bool)
    ensures
        r == open_to_others(*facts),
{
    facts.mode & 0o022 != 0
}

fn is_sticky_shared(facts: &FileFacts) -> (r: bool)
    ensures
        r == sticky_shared(*facts),
{
    facts.mode & 0o1000 != 0 && facts.mode & 0o002 != 0
}

fn is_directory(facts: &FileFacts) -> (r: bool)
    ensures
        r == (facts.kind == FileKind::Directory),
{
    matches!(facts.kind, FileKind::Directory)
}

fn is_regular(facts: &FileFacts) -> (r: bool)
    ensures
        r == (facts.kind == FileKind::Regular),
{
    matches!(facts.kind, FileKind::Regular)
}

fn is_owner(owner: Option<u32>, uid: u32) -> (r: bool)
    ensures
        r == (owner == Some(uid)),
{
    match owner {
        Some(o) => o == uid,
        None => false,
    }
}

/// The names along the path of a private directory.
pub fn private_directory_names(path: &str) -> (result: Result<Vec<String>, String>)
    ensures
        match result {
            Ok(list) => downward(path@) && list@.len() == names(path@).len() && forall|i: int|
                0 <= i < list@.len() ==> #[trigger] list@[i]@ == names(path@)[i],
            Err(e) => !downward(path@) && e@
                == "private directory must be an absolute path without dot components"@,
        },
{
    if !is_absolute(path) || has_step_back(path) {
        return Err("private directory must be an absolute path without dot components".to_owned());
    }
    Ok(path_names(path))
}

/// Whether a directory may lie on the way to a private one.
pub fn check_private_component(facts: &FileFacts, uid: u32, system_owner: Option<u32>) -> (result:
    Result<(), String>)
    ensures
        verdict(result, private_component_fault(*facts, uid, system_owner)),
{
    if !is_directory(facts) {
        return Err("private path contains a non-directory component".to_owned());
    }
    if facts.uid != uid && facts.uid != 0 && !is_owner(system_owner, facts.uid)
        && !is_sticky_shared(facts) {
        return Err("private path contains an unexpected owner".to_owned());
    }
    if is_open_to_others(facts) && !is_sticky_shared(facts) {
        return Err("private path contains a writable directory".to_owned());
    }
    Ok(())
}

/// Whether a directory may be used as a private one, and whether its permissions
/// are ours to narrow.
pub fn check_private_directory(facts: &FileFacts, uid: u32) -> (result: Result<bool, String>)
    ensures
        match result {
            Ok(narrow) => (facts.uid == uid || facts.uid == 0) && narrow == (facts.uid == uid),
            Err(e) => facts.uid != uid && facts.uid != 0 && e@
                == "private directory has an unexpected owner"@,
        },
{
    if facts.uid != uid && facts.uid != 0 {
        return Err("private directory has an unexpected owner".to_owned());
    }
    Ok(facts.uid == uid)
}

/// The owner of the system, where it is not root: a user namespace may show the
/// system's files under another number. The root directory and `/usr` must
/// agree on it, it is not the current user, and nobody else may write there.
pub open spec fn system_owner_of(root: Option<FileFacts>, usr: Option<FileFacts>, uid: u32) -> Option<
    u32,
> {
    match (root, usr) {
        (Some(r), Some(u)) => if r.kind == FileKind::Directory && u.kind == FileKind::Directory
            && r.uid == u.uid && r.uid != uid && !open_to_others(r) && !open_to_others(u) {
            Some(r.uid)
        } else {
            None
        },
        _ => None,
    }
}

/// The owner of the system.
pub fn trusted_system_owner(root: Option<FileFacts>, usr: Option<FileFacts>, uid: u32) -> (owner:
    Option<u32>)
    ensures
        owner == system_owner_of(root, usr, uid),
{
    match (root, usr) {
        (Some(r), Some(u)) => {
            if is_directory(&r) && is_directory(&u) && r.uid == u.uid && r.uid != uid
                && !is_open_to_others(&r) && !is_open_to_others(&u) {
                Some(r.uid)
            } else {
                None
            }
        },
        _ => None,
    }
}

/// The names along a secure path: the last one is the file's.
pub fn secure_path_names(path: &str) -> (result: Result<Vec<String>, String>)
    ensures
        match result {
            Ok(list) => secure_path_fault(path@) is None && list@.len() == names(path@).len()
                && forall|i: int| 0 <= i < list@.len() ==> #[trigger] list@[i]@ == names(path@)[i],
            Err(e) => secure_path_fault(path@) == Some(e@),
        },
{
    if !is_absolute(path) {
        return Err("secure paths must be absolute".to_owned());
    }
    if !is_canonical(path) {
        return Err("secure paths cannot contain dot components".to_owned());
    }
    let list = path_names(path);
    if list.is_empty() {
        return Err("secure file is unavailable".to_owned());
    }
    Ok(list)
}

fn is_system_path(path: &str) -> (r: bool)
    ensures
        r == system_path(path@),
{
    if !is_absolute(path) {
        return false;
    }
    let list = path_names(path);
    !list.is_empty() && same_text(list[0].as_str(), "usr")
}

/// The policy for a path.
pub fn secure_policy(
    path: &str,
    uid: u32,
    allow_root: bool,
    allow_non_user_ancestors: bool,
    system_owner: Option<u32>,
) -> (policy: SecurePolicy)
    ensures
        policy == policy_for(path@, uid, allow_root, allow_non_user_ancestors, system_owner),
{
    let system = is_system_path(path);
    let trusted_ancestor: Option<u32> = if system {
        Some(0)
    } else {
        system_owner
    };
    SecurePolicy { uid, system, allow_root, trusted_ancestor, allow_non_user_ancestors }
}

fn is_owner_allowed(policy: &SecurePolicy, owner: u32) -> (r: bool)
    ensures
        r == owner_allowed(*policy, owner),
{
    if policy.system {
        owner == 0
    } else {
        owner == policy.uid || (policy.allow_root && owner == 0)
    }
}

/// Whether a directory may lie on a secure path.
pub fn check_secure_directory(policy: &SecurePolicy, facts: &FileFacts) -> (result: Result<
    (),
    String,
>)
    ensures
        verdict(result, secure_directory_fault(*policy, *facts)),
{
    if !is_directory(facts) {
        return Err("secure path contains a non-directory component".to_owned());
    }
    let closed = !is_open_to_others(facts);
    let allowed = is_owner_allowed(policy, facts.uid) || (is_owner(
        policy.trusted_ancestor,
        facts.uid,
    ) && closed) || (policy.allow_non_user_ancestors && facts.uid == 0 && closed) || (
    !policy.system && is_sticky_shared(facts));
    if !allowed {
        return Err("secure path contains an unexpected owner".to_owned());
    }
    if !closed && !is_sticky_shared(facts) {
        return Err("secure path contains a writable directory".to_owned());
    }
    Ok(())
}

/// Whether the file that a secure path leads to may be used.
pub fn check_secure_file(policy: &SecurePolicy, facts: &FileFacts, executable: bool) -> (result:
    Result<(), String>)
    ensures
        verdict(result, secure_file_fault(*policy, *facts, executable)),
{
    if !is_regular(facts) {
        return Err("secure file must be a regular non-symlink file".to_owned());
    }
    if !is_owner_allowed(policy, facts.uid) {
        return Err("secure file has an unexpected owner".to_owned());
    }
    if is_open_to_others(facts) {
        return Err("secure file is writable by group or other users".to_owned());
    }
    if executable && facts.mode & 0o111 == 0 {
        return Err("configured executable is not executable".to_owned());
    }
    Ok(())
}

/// Whether a path still names the file that was opened through it.
pub fn check_secure_path_unchanged(opened: &FileFacts, named: &FileFacts) -> (result: Result<
    (),
    String,
>)
    ensures
        verdict(
            result,
            if named.kind == FileKind::Regular && named.identity == opened.identity {
                None
            } else {
                Some("secure file changed during validation"@)
            },
        ),
{
    if !is_regular(named) || named.identity != opened.identity {
        return Err("secure file changed during validation".to_owned());
    }
    Ok(())
}

/// Whether an open file is still the one that was opened.
pub fn verify_identity(recorded: CgroupIdentity, current: CgroupIdentity) -> (result: Result<
    (),
    String,
>)
    ensures
        verdict(
            result,
            if current == recorded {
                None
            } else {
                Some("secure file identity changed"@)
            },
        ),
{
    if current != recorded {
        return Err("secure file identity changed".to_owned());
    }
    Ok(())
}

/// Whether a file of the state directory may be used.
pub fn check_state_file(file: StateFile, facts: &FileFacts, uid: u32) -> (result: Result<
    (),
    String,
>)
    ensures
        verdict(result, state_file_fault(file, *facts, uid)),
{
    if !is_regular(facts) {
        return Err(
            match file {
                StateFile::State => "state file must be a regular non-symlink file".to_owned(),
                StateFile::Lock => "state lock must be a regular non-symlink file".to_owned(),
            },
        );
    }
    if facts.uid != uid && facts.uid != 0 {
        return Err(
            match file {
                StateFile::State => "state file has an unexpected owner".to_owned(),
                StateFile::Lock => "state lock has an unexpected owner".to_owned(),
            },
        );
    }
    if is_open_to_others(facts) {
        return Err(
            match file {
                StateFile::State => "state file is writable by group or other users".to_owned(),
                StateFile::Lock => "state lock is writable by group or other users".to_owned(),
            },
        );
    }
    Ok(())
}

/// The names along the path of a directory of control groups.
pub fn cgroup_directory_names(path: &str) -> (result: Result<Vec<String>, String>)
    ensures
        match result {
            Ok(list) => downward(path@) && list@.len() == names(path@).len() && forall|i: int|
                0 <= i < list@.len() ==> #[trigger] list@[i]@ == names(path@)[i],
            Err(e) => !downward(path@) && e@ == "cgroup directory path is invalid"@,
        },
{
    if !is_absolute(path) || has_step_back(path) {
        return Err("cgroup directory path is invalid".to_owned());
    }
    Ok(path_names(path))
}

/// Whether a directory may lie on the way to the delegated control group.
pub fn check_cgroup_component(facts: &FileFacts, uid: u32) -> (result: Result<(), String>)
    ensures
        verdict(result, cgroup_component_fault(*facts, uid)),
{
    if !is_directory(facts) {
        return Err("cgroup directory contains an unsafe component".to_owned());
    }
    if (facts.uid != uid && facts.uid != 0) || is_open_to_others(facts) {
        return Err("cgroup directory contains an unsafe owner".to_owned());
    }
    Ok(())
}

/// The names that lead from the delegated control group to a recorded one.
pub fn recorded_cgroup_names(raw: &str, root: &str) -> (result: Result<Vec<String>, String>)
    ensures
        match result {
            Ok(list) => below(raw@, root@) && !steps_back(raw@) && list@.len() == names(raw@).len()
                - names(root@).len() && list@.len() > 0 && forall|i: int|
                0 <= i < list@.len() ==> #[trigger] list@[i]@ == names(raw@)[i + names(
                    root@,
                ).len()],
            Err(e) => !(below(raw@, root@) && !steps_back(raw@)) && e@
                == "recorded cgroup path is outside the delegated root"@,
        },
{
    let outside = "recorded cgroup path is outside the delegated root";
    if !is_absolute(raw) || !is_absolute(root) || has_step_back(raw) {
        return Err(outside.to_owned());
    }
    let all = path_names(raw);
    let head = path_names(root);
    let n: usize = head.len();
    if all.len() <= n {
        return Err(outside.to_owned());
    }
    for i in 0..n
        invariant
            n == head@.len(),
            n < all@.len(),
            all@.len() == names(raw@).len(),
            head@.len() == names(root@).len(),
            forall|j: int| 0 <= j < all@.len() ==> #[trigger] all@[j]@ == names(raw@)[j],
            forall|j: int| 0 <= j < head@.len() ==> #[trigger] head@[j]@ == names(root@)[j],
            forall|j: int| 0 <= j < i ==> names(raw@)[j] == names(root@)[j],
            outside@ == "recorded cgroup path is outside the delegated root"@,
    {
        if !same_text(all[i].as_str(), head[i].as_str()) {
            assert(names(raw@).take(n as int)[i as int] != names(root@)[i as int]);
            return Err(outside.to_owned());
        }
    }
    assert(names(raw@).take(n as int) =~= names(root@));
    let mut rest: Vec<String> = Vec::new();
    let m: usize = all.len();
    for i in n..m
        invariant
            m == all@.len(),
            n <= m,
            n == names(root@).len(),
            all@.len() == names(raw@).len(),
            forall|j: int| 0 <= j < all@.len() ==> #[trigger] all@[j]@ == names(raw@)[j],
            rest@.len() == i - n,
            forall|j: int| 0 <= j < rest@.len() ==> #[trigger] rest@[j]@ == names(raw@)[j + n],
    {
        rest.push(all[i].clone());
    }
    Ok(rest)
}

/// Whether a directory may lie between the delegated control group and a
/// recorded one.
pub fn check_recorded_cgroup_component(facts: &FileFacts) -> (result: Result<(), String>)
    ensures
        verdict(
            result,
            if facts.kind == FileKind::Directory {
                None
            } else {
                Some("recorded cgroup path is not a regular directory"@)
            },
        ),
{
    if !is_directory(facts) {
        return Err("recorded cgroup path is not a regular directory".to_owned());
    }
    Ok(())
}

/// Whether the control group that a recorded path leads to is the recorded one.
pub fn check_recorded_cgroup(facts: &FileFacts, uid: u32, expected: Option<CgroupIdentity>) -> (result:
    Result<(), String>)
    ensures
        verdict(result, recorded_cgroup_fault(*facts, uid, expected)),
{
    if !is_directory(facts) {
        return Err("recorded cgroup path is not a regular directory".to_owned());
    }
    if facts.uid != uid {
        return Err("recorded cgroup has an unexpected owner".to_owned());
    }
    match expected {
        Some(identity) => {
            if identity != facts.identity {
                return Err("recorded cgroup identity no longer matches".to_owned());
            }
        },
        None => {},
    }
    Ok(())
}

/// The walk along a secure path: from the root directory through every directory
/// on it to the file, each held to the policy before the next is opened.
#[derive(Debug)]
pub struct SecureWalk {
    policy: SecurePolicy,
    executable: bool,
    parts: Vec<String>,
    passed: Vec<FileFacts>,
}

impl SecureWalk {
    /// The policy that the walk keeps to.
    pub closed spec fn policy(&self) -> SecurePolicy {
        self.policy
    }

    /// Whether the file has to be a program.
    pub closed spec fn executable(&self) -> bool {
        self.executable
    }

    /// The names along the path.
    pub closed spec fn parts(&self) -> Seq<Seq<char>> {
        texts(self.parts@)
    }

    /// The directories that were passed so far.
    pub closed spec fn passed(&self) -> Seq<FileFacts> {
        self.passed@
    }

    /// Every directory that was passed keeps to the policy, and there is a file
    /// to go to.
    pub open spec fn wf(&self) -> bool {
        &&& self.parts().len() > 0
        &&& self.passed().len() <= self.parts().len()
        &&& forall|i: int|
            0 <= i < self.passed().len() ==> secure_directory_fault(
                self.policy(),
                #[trigger] self.passed()[i],
            ) is None
    }

    /// A walk that has not passed anything yet.
    pub fn begin(
        path: &str,
        uid: u32,
        allow_root: bool,
        executable: bool,
        allow_non_user_ancestors: bool,
        system_owner: Option<u32>,
    ) -> (result: Result<SecureWalk, String>)
        ensures
            match result {
                Ok(walk) => secure_path_fault(path@) is None && walk.wf() && walk.policy()
                    == policy_for(path@, uid, allow_root, allow_non_user_ancestors, system_owner)
                    && walk.executable() == executable && walk.parts() == names(path@)
                    && walk.passed() == Seq::<FileFacts>::empty(),
                Err(e) => secure_path_fault(path@) == Some(e@),
            },
    {
        match secure_path_names(path) {
            Err(e) => Err(e),
            Ok(parts) => {
                let policy = secure_policy(
                    path,
                    uid,
                    allow_root,
                    allow_non_user_ancestors,
                    system_owner,
                );
                let walk = SecureWalk { policy, executable, parts, passed: Vec::new() };
                assert(walk.parts() =~= names(path@));
                Ok(walk)
            },
        }
    }

    /// The directory that has to be opened next: the root directory has no name,
    /// and behind the last directory there is only the file.
    pub fn next_directory(&self) -> (name: Option<&str>)
        requires
            self.wf(),
        ensures
            match name {
                Some(text) => 0 < self.passed().len() < self.parts().len() && text@
                    == self.parts()[self.passed().len() - 1],
                None => self.passed().len() == 0 || self.passed().len() == self.parts().len(),
            },
    {
        let n: usize = self.passed.len();
        if n == 0 || n == self.parts.len() {
            None
        } else {
            Some(self.parts[n - 1].as_str())
        }
    }

    /// Passes a directory, if it keeps to the policy.
    pub fn enter(&mut self, facts: FileFacts) -> (result: Result<(), String>)
        requires
            old(self).wf(),
            old(self).passed().len() < old(self).parts().len(),
        ensures
            final(self).wf(),
            final(self).policy() == old(self).policy(),
            final(self).executable() == old(self).executable(),
            final(self).parts() == old(self).parts(),
            verdict(result, secure_directory_fault(old(self).policy(), facts)),
            final(self).passed() == if result is Ok {
                old(self).passed().push(facts)
            } else {
                old(self).passed()
            },
    {
        match check_secure_directory(&self.policy, &facts) {
            Err(e) => Err(e),
            Ok(_) => {
                self.passed.push(facts);
                Ok(())
            },
        }
    }

    /// The file that has to be opened, once all directories were passed.
    pub fn file_name(&self) -> (name: Option<&str>)
        requires
            self.wf(),
        ensures
            match name {
                Some(text) => self.passed().len() == self.parts().len() && text@
                    == self.parts().last(),
                None => self.passed().len() < self.parts().len(),
            },
    {
        let n: usize = self.parts.len();
        if self.passed.len() == n {
            Some(self.parts[n - 1].as_str())
        } else {
            None
        }
    }

    /// Whether the file that was opened may be used, given what the path names
    /// afterwards.
    pub fn finish(&self, opened: &FileFacts, named: &FileFacts) -> (result: Result<
        CgroupIdentity,
        String,
    >)
        requires
            self.wf(),
            self.passed().len() == self.parts().len(),
        ensures
            match result {
                Ok(identity) => identity == opened.identity && secure_file_fault(
                    self.policy(),
                    *opened,
                    self.executable(),
                ) is None && named.kind == FileKind::Regular && named.identity == opened.identity,
                Err(e) => match secure_file_fault(self.policy(), *opened, self.executable()) {
                    Some(fault) => e@ == fault,
                    None => (named.kind != FileKind::Regular || named.identity != opened.identity)
                        && e@ == "secure file changed during validation"@,
                },
            },
    {
        match check_secure_file(&self.policy, opened, self.executable) {
            Err(e) => Err(e),
            Ok(_) => match check_secure_path_unchanged(opened, named) {
                Err(e) => Err(e),
                Ok(_) => Ok(opened.identity),
            },
        }
    }
}

/// A secure path is walked as it is written: every piece of it is a name, none is
/// empty or made of dots, and none is passed over.
pub proof fn law_secure_paths_are_canonical(path: Seq<char>)
    requires
        secure_path_fault(path) is None,
    ensures
        canonical(path),
        forall|i: int| 1 <= i < segments(path).len() ==> proper_name(#[trigger] segments(path)[i]),
        names(path) == segments(path).skip(1),
{
    if path.len() == 1 {
        lemma_root_has_no_names(path);
    }
    lemma_canonical_names(path);
}

/// What the system installs is run only from files that root owns and nobody
/// else may write to, and only through directories that root owns.
pub proof fn law_system_files_are_root_owned(
    path: Seq<char>,
    uid: u32,
    allow_root: bool,
    ancestors: bool,
    owner: Option<u32>,
    directory: FileFacts,
    file: FileFacts,
    executable: bool,
)
    requires
        system_path(path),
    ensures
        ({
            let policy = policy_for(path, uid, allow_root, ancestors, owner);
            &&& secure_file_fault(policy, file, executable) is None ==> file.uid == 0
                && !open_to_others(file)
            &&& secure_directory_fault(policy, directory) is None ==> directory.uid == 0 && (
            !open_to_others(directory) || sticky_shared(directory))
        }),
{
}

/// A file that is accepted belongs to the user or, where that is allowed, to
/// root; nobody else may write to it; and it is a regular file.
pub proof fn law_secure_files_are_owned(policy: SecurePolicy, facts: FileFacts, executable: bool)
    requires
        secure_file_fault(policy, facts, executable) is None,
    ensures
        facts.kind == FileKind::Regular,
        !open_to_others(facts),
        facts.uid == policy.uid || facts.uid == 0,
        !policy.allow_root && !policy.system ==> facts.uid == policy.uid,
        executable ==> facts.mode & 0o111 != 0,
{
}

/// A control group is touched only if it is still the recorded one and belongs
/// to the user.
pub proof fn law_recorded_cgroup_is_fenced(facts: FileFacts, uid: u32, expected: CgroupIdentity)
    requires
        recorded_cgroup_fault(facts, uid, Some(expected)) is None,
    ensures
        facts.identity == expected,
        facts.uid == uid,
        facts.kind == FileKind::Directory,
{
}

/// Whether the group or everyone may write to a file.
pub open spec fn written_by_others(facts: FileFacts) -> bool {
    facts.mode & 0o020 != 0 || facts.mode & 0o002 != 0
}

/// Whether everyone may write to a directory that keeps what belongs to different users
/// apart.
pub open spec fn keeps_users_apart(facts: FileFacts) -> bool {
    facts.mode & 0o1000 != 0 && facts.mode & 0o002 != 0
}

proof fn lemma_write_bits(mode: u32)
    ensures
        mode & 0o022 != 0 <==> mode & 0o020 != 0 || mode & 0o002 != 0,
{
    assert(mode & 0o022 != 0 <==> mode & 0o020 != 0 || mode & 0o002 != 0) by (bit_vector);
}

/// A directory may lie on the way to a private one exactly if it belongs to the user, to
/// root or to the owner of the system and nobody else may write to it, or if it keeps
/// its users apart.
pub proof fn law_private_paths_belong_to_the_user(
    facts: &FileFacts,
    uid: u32,
    system_owner: Option<u32>,
    component: Result<(), String>,
    directory: Result<bool, String>,
)
    requires
        call_ensures(check_private_component, (facts, uid, system_owner), component),
        call_ensures(check_private_directory, (facts, uid), directory),
    ensures
        ({
            let known = facts.uid == uid || facts.uid == 0 || system_owner == Some(facts.uid);
            &&& component is Ok <==> facts.kind is Directory && (keeps_users_apart(*facts) || (known
                && !written_by_others(*facts)))
            &&& component matches Err(e) ==> e@ == if !(facts.kind is Directory) {
                "private path contains a non-directory component"@
            } else if !known {
                "private path contains an unexpected owner"@
            } else {
                "private path contains a writable directory"@
            }
        }),
        directory is Ok <==> facts.uid == uid || facts.uid == 0,
        directory matches Ok(narrow) ==> narrow == (facts.uid == uid),
        directory matches Err(e) ==> e@ == "private directory has an unexpected owner"@,
{
    lemma_write_bits(facts.mode);
}

/// The system is taken to belong to somebody exactly if the root directory and `/usr` are
/// directories of one owner, who is not the user, and nobody else may write to them.
pub proof fn law_the_system_has_one_owner(
    root: Option<FileFacts>,
    usr: Option<FileFacts>,
    uid: u32,
    owner: Option<u32>,
)
    requires
        call_ensures(trusted_system_owner, (root, usr, uid), owner),
    ensures
        owner is Some <==> root is Some && usr is Some && root->0.kind is Directory
            && usr->0.kind is Directory && root->0.uid == usr->0.uid && root->0.uid != uid
            && !written_by_others(root->0) && !written_by_others(usr->0),
        owner matches Some(o) ==> o == root->0.uid,
{
    if let Some(facts) = root {
        lemma_write_bits(facts.mode);
    }
    if let Some(facts) = usr {
        lemma_write_bits(facts.mode);
    }
}

/// What lies below `/usr` is held to root alone; anything else to the user, to root where
/// that is allowed, and on the way to it to the owner of the system.
pub proof fn law_policies_follow_the_path(
    path: &str,
    uid: u32,
    allow_root: bool,
    allow_non_user_ancestors: bool,
    system_owner: Option<u32>,
    policy: SecurePolicy,
)
    requires
        call_ensures(
            secure_policy,
            (path, uid, allow_root, allow_non_user_ancestors, system_owner),
            policy,
        ),
    ensures
        policy.uid == uid,
        policy.allow_root == allow_root,
        policy.allow_non_user_ancestors == allow_non_user_ancestors,
        policy.system <==> path@.len() > 0 && path@[0] == '/' && names(path@).len() > 0 && names(
            path@,
        )[0] == "usr"@,
        policy.system ==> policy.trusted_ancestor == Some(0u32),
        !policy.system ==> policy.trusted_ancestor == system_owner,
{
}

/// Whether a file may belong to somebody under a policy.
pub open spec fn may_own(policy: SecurePolicy, owner: u32) -> bool {
    (policy.system && owner == 0) || (!policy.system && (owner == policy.uid || (policy.allow_root
        && owner == 0)))
}

/// Whether a directory may lie on the way to a file under a policy: it belongs to who may
/// own the file, to the owner of the system or, where that is allowed, to root, and
/// nobody else may write to it; or it keeps its users apart, and then it may be anyone's
/// unless the file is one of the system.
pub open spec fn may_be_passed(policy: SecurePolicy, facts: FileFacts) -> bool {
    &&& facts.kind is Directory
    &&& if keeps_users_apart(facts) {
        may_own(policy, facts.uid) || !policy.system
    } else {
        !written_by_others(facts) && (may_own(policy, facts.uid) || policy.trusted_ancestor
            == Some(facts.uid) || (policy.allow_non_user_ancestors && facts.uid == 0))
    }
}

/// Whether a file may be used under a policy.
pub open spec fn may_be_used(policy: SecurePolicy, facts: FileFacts, executable: bool) -> bool {
    facts.kind is Regular && may_own(policy, facts.uid) && !written_by_others(facts) && (executable
        ==> facts.mode & 0o111 != 0)
}

/// Directories are passed and files are used exactly if their policy lets them, and a file
/// that was opened is used only while its path still names it.
pub proof fn law_files_are_held_to_their_policy(
    policy: &SecurePolicy,
    facts: &FileFacts,
    executable: bool,
    named: &FileFacts,
    directory: Result<(), String>,
    file: Result<(), String>,
    unchanged: Result<(), String>,
    same: Result<(), String>,
)
    requires
        call_ensures(check_secure_directory, (policy, facts), directory),
        call_ensures(check_secure_file, (policy, facts, executable), file),
        call_ensures(check_secure_path_unchanged, (facts, named), unchanged),
        call_ensures(verify_identity, (facts.identity, named.identity), same),
    ensures
        directory is Ok <==> may_be_passed(*policy, *facts),
        directory is Err ==> directory->Err_0@ == if !(facts.kind is Directory) {
            "secure path contains a non-directory component"@
        } else if may_own(*policy, facts.uid) || (!written_by_others(*facts) && (
        policy.trusted_ancestor == Some(facts.uid) || (policy.allow_non_user_ancestors && facts.uid
            == 0))) || (!policy.system && keeps_users_apart(*facts)) {
            "secure path contains a writable directory"@
        } else {
            "secure path contains an unexpected owner"@
        },
        file is Ok <==> may_be_used(*policy, *facts, executable),
        file matches Err(e) ==> e@ == if !(facts.kind is Regular) {
            "secure file must be a regular non-symlink file"@
        } else if !may_own(*policy, facts.uid) {
            "secure file has an unexpected owner"@
        } else if written_by_others(*facts) {
            "secure file is writable by group or other users"@
        } else {
            "configured executable is not executable"@
        },
        unchanged is Ok <==> named.kind is Regular && named.identity == facts.identity,
        unchanged matches Err(e) ==> e@ == "secure file changed during validation"@,
        same is Ok <==> facts.identity == named.identity,
        same matches Err(e) ==> e@ == "secure file identity changed"@,
{
    lemma_write_bits(facts.mode);
}

/// A file of the state directory is used exactly if it is a regular file of the user or of
/// root that nobody else may write to.
pub proof fn law_state_files_belong_to_the_user(
    file: StateFile,
    facts: &FileFacts,
    uid: u32,
    result: Result<(), String>,
)
    requires
        call_ensures(check_state_file, (file, facts, uid), result),
    ensures
        ({
            let owned = facts.uid == uid || facts.uid == 0;
            &&& result is Ok <==> facts.kind is Regular && owned && !written_by_others(*facts)
            &&& result is Err && file is State ==> result->Err_0@ == if !(facts.kind is Regular) {
                "state file must be a regular non-symlink file"@
            } else if !owned {
                "state file has an unexpected owner"@
            } else {
                "state file is writable by group or other users"@
            }
            &&& result is Err && file is Lock ==> result->Err_0@ == if !(facts.kind is Regular) {
                "state lock must be a regular non-symlink file"@
            } else if !owned {
                "state lock has an unexpected owner"@
            } else {
                "state lock is writable by group or other users"@
            }
        }),
{
    lemma_write_bits(facts.mode);
}

/// A control group is reached through directories of the user or of root that nobody else
/// may write to, and it is the recorded one exactly if it is a directory of the user with
/// the recorded identity.
pub proof fn law_control_groups_belong_to_the_user(
    facts: &FileFacts,
    uid: u32,
    expected: Option<CgroupIdentity>,
    component: Result<(), String>,
    between: Result<(), String>,
    recorded: Result<(), String>,
)
    requires
        call_ensures(check_cgroup_component, (facts, uid), component),
        call_ensures(check_recorded_cgroup_component, (facts,), between),
        call_ensures(check_recorded_cgroup, (facts, uid, expected), recorded),
    ensures
        component is Ok <==> facts.kind is Directory && (facts.uid == uid || facts.uid == 0)
            && !written_by_others(*facts),
        component matches Err(e) ==> e@ == if !(facts.kind is Directory) {
            "cgroup directory contains an unsafe component"@
        } else {
            "cgroup directory contains an unsafe owner"@
        },
        between is Ok <==> facts.kind is Directory,
        between matches Err(e) ==> e@ == "recorded cgroup path is not a regular directory"@,
        recorded is Ok <==> facts.kind is Directory && facts.uid == uid && (expected is None
            || expected->0 == facts.identity),
        recorded matches Err(e) ==> e@ == if !(facts.kind is Directory) {
            "recorded cgroup path is not a regular directory"@
        } else if facts.uid != uid {
            "recorded cgroup has an unexpected owner"@
        } else {
            "recorded cgroup identity no longer matches"@
        },
{
    lemma_write_bits(facts.mode);
}

/// Whether a list holds the names along a path, from one of them on.
pub open spec fn lists_names(list: Seq<String>, path: Seq<char>, from: int) -> bool {
    list.len() == names(path).len() - from && forall|i: int|
        0 <= i < list.len() ==> (#[trigger] list[i])@ == names(path)[i + from]
}

/// A path is walked name by name from the root, exactly if it starts there and never steps
/// up; a secure path has to be in its only form and lead to a file; and a recorded
/// control group has to lie below the delegated one.
pub proof fn law_paths_are_walked_by_their_names(
    path: &str,
    root: &str,
    private: Result<Vec<String>, String>,
    cgroup: Result<Vec<String>, String>,
    secure: Result<Vec<String>, String>,
    recorded: Result<Vec<String>, String>,
)
    requires
        call_ensures(private_directory_names, (path,), private),
        call_ensures(cgroup_directory_names, (path,), cgroup),
        call_ensures(secure_path_names, (path,), secure),
        call_ensures(recorded_cgroup_names, (path, root), recorded),
    ensures
        ({
            let rooted = path@.len() > 0 && path@[0] == '/';
            let down = rooted && !steps_back(path@);
            let inside = rooted && root@.len() > 0 && root@[0] == '/' && !steps_back(path@)
                && names(root@).len() < names(path@).len() && names(root@) == names(path@).take(
                names(root@).len() as int,
            );
            &&& private is Ok <==> down
            &&& private matches Ok(list) ==> lists_names(list@, path@, 0)
            &&& private matches Err(e) ==> e@
                == "private directory must be an absolute path without dot components"@
            &&& cgroup is Ok <==> down
            &&& cgroup matches Ok(list) ==> lists_names(list@, path@, 0)
            &&& cgroup matches Err(e) ==> e@ == "cgroup directory path is invalid"@
            &&& secure is Ok <==> rooted && canonical(path@) && names(path@).len() > 0
            &&& secure matches Ok(list) ==> lists_names(list@, path@, 0)
            &&& secure matches Err(e) ==> e@ == if !rooted {
                "secure paths must be absolute"@
            } else if !canonical(path@) {
                "secure paths cannot contain dot components"@
            } else {
                "secure file is unavailable"@
            }
            &&& recorded is Ok <==> inside
            &&& recorded matches Ok(list) ==> lists_names(
                list@,
                path@,
                names(root@).len() as int,
            )
            &&& recorded matches Err(e) ==> e@
                == "recorded cgroup path is outside the delegated root"@
        }),
{
}

/// A walk to a file passes the root directory and then every directory along the path,
/// each only if the policy lets it be passed, and only then comes to the file.
pub proof fn law_walks_pass_every_directory(
    walk: &SecureWalk,
    directory: Option<&str>,
    file: Option<&str>,
    facts: FileFacts,
    entered: Result<(), String>,
)
    requires
        walk.wf(),
        call_ensures(SecureWalk::next_directory, (walk,), directory),
        call_ensures(SecureWalk::file_name, (walk,), file),
    ensures
        file is Some <==> walk.passed().len() == walk.parts().len(),
        file matches Some(name) ==> name@ == walk.parts().last(),
        directory is Some <==> 0 < walk.passed().len() < walk.parts().len(),
        directory matches Some(name) ==> name@ == walk.parts()[walk.passed().len() - 1],
        forall|w: &mut SecureWalk| #[trigger]
            call_ensures(SecureWalk::enter, (w, facts), entered) ==> {
                &&& entered is Ok <==> may_be_passed(w.policy(), facts)
                &&& entered is Ok ==> final(w).passed() == w.passed().push(facts)
                &&& entered is Err ==> final(w).passed() == w.passed()
                &&& final(w).parts() == w.parts()
                &&& final(w).policy() == w.policy()
                &&& final(w).executable() == w.executable()
            },
{
    lemma_write_bits(facts.mode);
}

/// A walk begins exactly on a secure path, at its beginning and under its policy, and ends
/// well exactly if the file that was opened may be used and its path still names it.
pub proof fn law_walks_end_at_a_trusted_file(
    path: &str,
    uid: u32,
    allow_root: bool,
    executable: bool,
    allow_non_user_ancestors: bool,
    system_owner: Option<u32>,
    begun: Result<SecureWalk, String>,
    policy: SecurePolicy,
    walk: &SecureWalk,
    opened: &FileFacts,
    named: &FileFacts,
    ended: Result<CgroupIdentity, String>,
)
    requires
        call_ensures(
            SecureWalk::begin,
            (path, uid, allow_root, executable, allow_non_user_ancestors, system_owner),
            begun,
        ),
        call_ensures(
            secure_policy,
            (path, uid, allow_root, allow_non_user_ancestors, system_owner),
            policy,
        ),
        walk.wf(),
        walk.passed().len() == walk.parts().len(),
        call_ensures(SecureWalk::finish, (walk, opened, named), ended),
    ensures
        begun is Ok <==> path@.len() > 0 && path@[0] == '/' && canonical(path@) && names(
            path@,
        ).len() > 0,
        begun matches Ok(w) ==> w.policy() == policy && w.executable() == executable && w.parts()
            == names(path@) && w.passed().len() == 0,
        ended is Ok <==> may_be_used(walk.policy(), *opened, walk.executable())
            && named.kind is Regular && named.identity == opened.identity,
        ended matches Ok(identity) ==> identity == opened.identity,
        may_be_used(walk.policy(), *opened, walk.executable()) && ended is Err ==> ended->Err_0@
            == "secure file changed during validation"@,
{
    lemma_write_bits(opened.mode);
}

} // verus!
