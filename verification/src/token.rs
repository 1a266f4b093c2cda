//! Names that nobody can guess: handles, claims, control groups and temporary
//! files.
use vstd::prelude::*;
use vstd::string::*;

use crate::text::joined;

verus! {

/// A lower-case hexadecimal digit.
pub open spec fn hex_digit(c: char) -> bool {
    ('0' <= c && c <= '9') || ('a' <= c && c <= 'f')
}

/// Thirty-two hexadecimal digits.
pub open spec fn hex32(id: Seq<char>) -> bool {
    id.len() == 32 && forall|i: int| 0 <= i < 32 ==> hex_digit(#[trigger] id[i])
}

/// What a random identifier looks like: thirty-two hexadecimal digits, of which
/// one tells that it is random and one which layout it has.
pub open spec fn random_digits(id: Seq<char>) -> bool {
    &&& hex32(id)
    &&& id[12] == '4'
    &&& (id[16] == '8' || id[16] == '9' || id[16] == 'a' || id[16] == 'b')
}

/// A new random identifier: `uuid::Uuid::new_v4`, written without hyphens. Which
/// identifier it is depends on chance, so only its form is told; that no two are
/// the same is likely and not promised. The call panics where the system has no
/// random bytes to give.
#[verifier::external_body]
fn random_identifier() -> (id: String)
    ensures
        random_digits(id@),
{
    uuid::Uuid::new_v4().simple().to_string()
}

/// A handle made of a random identifier.
pub open spec fn handle_named(id: Seq<char>) -> Seq<char> {
    "sh_"@ + id
}

/// A handle made of an identifier.
pub fn handle_from(id: &str) -> (handle: String)
    ensures
        handle@ == handle_named(id@),
{
    joined("sh_", id)
}

/// A new handle.
pub fn fresh_handle() -> (handle: String)
    ensures
        exists|id: Seq<char>| random_digits(id) && handle@ == #[trigger] handle_named(id),
{
    let id = random_identifier();
    handle_from(id.as_str())
}

/// A new name for a claim.
pub fn fresh_claim_id() -> (id: String)
    ensures
        random_digits(id@),
{
    random_identifier()
}

/// The name of a control group made of an identifier.
pub open spec fn cgroup_named(id: Seq<char>) -> Seq<char> {
    "codex-secret-handoff-"@ + id
}

/// The name of a control group made of an identifier.
pub fn cgroup_name_from(id: &str) -> (name: String)
    ensures
        name@ == cgroup_named(id@),
{
    joined("codex-secret-handoff-", id)
}

/// A new name for a control group.
pub fn fresh_cgroup_name() -> (name: String)
    ensures
        exists|id: Seq<char>| random_digits(id) && name@ == #[trigger] cgroup_named(id),
{
    let id = random_identifier();
    cgroup_name_from(id.as_str())
}

/// An identifier with hyphens between its five groups.
pub open spec fn hyphenated(id: Seq<char>) -> Seq<char> {
    id.subrange(0, 8) + "-"@ + id.subrange(8, 12) + "-"@ + id.subrange(12, 16) + "-"@ + id.subrange(
        16,
        20,
    ) + "-"@ + id.subrange(20, 32)
}

/// The name of a temporary state file made of an identifier.
pub open spec fn temporary_named(id: Seq<char>) -> Seq<char> {
    "state.json."@ + hyphenated(id) + ".tmp"@
}

/// The name of a temporary state file made of an identifier.
pub fn temporary_name_from(id: &str) -> (name: String)
    requires
        id@.len() == 32,
    ensures
        name@ == temporary_named(id@),
{
    let mut name = "state.json.".to_owned();
    let first = id.substring_char(0, 8);
    let second = id.substring_char(8, 12);
    let third = id.substring_char(12, 16);
    let fourth = id.substring_char(16, 20);
    let fifth = id.substring_char(20, 32);
    name.append(first);
    name.append("-");
    name.append(second);
    name.append("-");
    name.append(third);
    name.append("-");
    name.append(fourth);
    name.append("-");
    name.append(fifth);
    name.append(".tmp");
    proof {
        assert(name@ =~= temporary_named(id@));
    }
    name
}

/// A new name for a temporary state file.
pub fn fresh_temporary_name() -> (name: String)
    ensures
        exists|id: Seq<char>| random_digits(id) && name@ == #[trigger] temporary_named(id),
{
    let id = random_identifier();
    temporary_name_from(id.as_str())
}

/// Seconds that a temporary state file may be old without being taken for an
/// abandoned one.
pub const STALE_STATE_TMP_SECONDS: i64 = 600;

/// The name of a temporary state file made of some identifier, in bytes.
pub open spec fn temporary_state_name(name: Seq<u8>) -> bool {
    exists|id: Seq<char>| #[trigger]
        hex32(id) && name == temporary_named(id).map(|i: int, c: char| c as u8)
}

/// The place of a digit of the identifier in the name of a temporary state file.
spec fn digit_place(i: int) -> int {
    if i < 8 {
        i + 11
    } else if i < 12 {
        i + 12
    } else if i < 16 {
        i + 13
    } else if i < 20 {
        i + 14
    } else {
        i + 15
    }
}

/// What stands between the digits of the identifier.
spec fn framed(name: Seq<u8>) -> bool {
    &&& name.len() == 51
    &&& name.subrange(0, 11) == "state.json."@.map(|i: int, c: char| c as u8)
    &&& name[19] == 45
    &&& name[24] == 45
    &&& name[29] == 45
    &&& name[34] == 45
    &&& name.subrange(47, 51) == ".tmp"@.map(|i: int, c: char| c as u8)
}

/// The byte of a hexadecimal digit.
spec fn hex_byte(b: u8) -> bool {
    48 <= b <= 57 || 97 <= b <= 102
}

proof fn lemma_temporary_name(id: Seq<char>)
    requires
        hex32(id),
    ensures
        ({
            let name = temporary_named(id).map(|i: int, c: char| c as u8);
            &&& framed(name)
            &&& forall|i: int|
                0 <= i < 32 ==> name[#[trigger] digit_place(i)] == id[i] as u8 && hex_byte(
                    name[digit_place(i)],
                )
        }),
{
    reveal_strlit("state.json.");
    reveal_strlit(".tmp");
    reveal_strlit("-");
    let name = temporary_named(id).map(|i: int, c: char| c as u8);
    assert(name.len() == 51);
    assert(name.subrange(0, 11) =~= "state.json."@.map(|i: int, c: char| c as u8));
    assert(name.subrange(47, 51) =~= ".tmp"@.map(|i: int, c: char| c as u8));
    assert forall|i: int| 0 <= i < 32 implies name[#[trigger] digit_place(i)] == id[i] as u8
        && hex_byte(name[digit_place(i)]) by {
        assert(temporary_named(id)[digit_place(i)] == id[i]);
        assert(hex_digit(id[i]));
    }
}

/// A name that is framed and holds digits is made of the identifier that they
/// make up.
proof fn lemma_framed_digits(name: Seq<u8>)
    requires
        framed(name),
        forall|i: int| 0 <= i < 32 ==> hex_byte(name[#[trigger] digit_place(i)]),
    ensures
        temporary_state_name(name),
{
    let id = Seq::new(32, |i: int| name[digit_place(i)] as char);
    assert forall|i: int| 0 <= i < 32 implies hex_digit(#[trigger] id[i]) by {
        assert(hex_byte(name[digit_place(i)]));
    }
    assert(hex32(id));
    lemma_temporary_name(id);
    let made = temporary_named(id).map(|i: int, c: char| c as u8);
    assert forall|j: int| 0 <= j < 51 implies name[j] == made[j] by {
        if j < 11 {
            assert(name.subrange(0, 11)[j] == made.subrange(0, 11)[j]);
        } else if j >= 47 {
            assert(name.subrange(47, 51)[j - 47] == made.subrange(47, 51)[j - 47]);
        } else if j < 19 {
            assert(digit_place(j - 11) == j);
        } else if 19 < j < 24 {
            assert(digit_place(j - 12) == j);
        } else if 24 < j < 29 {
            assert(digit_place(j - 13) == j);
        } else if 29 < j < 34 {
            assert(digit_place(j - 14) == j);
        } else if 34 < j {
            assert(digit_place(j - 15) == j);
        }
    }
    assert(name =~= made);
}

fn has_part(bytes: &[u8], from: usize, part: &[u8]) -> (r: bool)
    requires
        from + part@.len() <= bytes@.len(),
    ensures
        r == (bytes@.subrange(from as int, from + part@.len()) == part@),
{
    let n: usize = part.len();
    let total: usize = bytes.len();
    for i in 0..n
        invariant
            n == part@.len(),
            total == bytes@.len(),
            from + n <= total,
            forall|j: int| 0 <= j < i ==> bytes@[from + j] == part@[j],
    {
        if bytes[from + i] != part[i] {
            assert(bytes@.subrange(from as int, from + part@.len())[i as int] != part@[i as int]);
            return false;
        }
    }
    assert(bytes@.subrange(from as int, from + part@.len()) =~= part@);
    true
}

/// Whether the places of the digits hold digits.
fn has_digits(name: &[u8]) -> (r: bool)
    requires
        name@.len() == 51,
    ensures
        r == forall|i: int| 0 <= i < 32 ==> hex_byte(name@[#[trigger] digit_place(i)]),
{
    for i in 0..32usize
        invariant
            name@.len() == 51,
            forall|j: int| 0 <= j < i ==> hex_byte(name@[#[trigger] digit_place(j)]),
    {
        let place: usize = if i < 8 {
            i + 11
        } else if i < 12 {
            i + 12
        } else if i < 16 {
            i + 13
        } else if i < 20 {
            i + 14
        } else {
            i + 15
        };
        assert(place == digit_place(i as int));
        let b: u8 = name[place];
        if !((48 <= b && b <= 57) || (97 <= b && b <= 102)) {
            return false;
        }
    }
    true
}

/// Whether a file has the name of a temporary state file.
pub fn is_temporary_state_name(name: &[u8]) -> (r: bool)
    ensures
        r == temporary_state_name(name@),
{
    let head: [u8; 11] = [115, 116, 97, 116, 101, 46, 106, 115, 111, 110, 46];
    let tail: [u8; 4] = [46, 116, 109, 112];
    proof {
        reveal_strlit("state.json.");
        reveal_strlit(".tmp");
        assert(head@ =~= "state.json."@.map(|i: int, c: char| c as u8));
        assert(tail@ =~= ".tmp"@.map(|i: int, c: char| c as u8));
        if temporary_state_name(name@) {
            let id = choose|id: Seq<char>| #[trigger]
                hex32(id) && name@ == temporary_named(id).map(|i: int, c: char| c as u8);
            lemma_temporary_name(id);
        }
    }
    if name.len() != 51 {
        return false;
    }
    let found = has_part(name, 0, &head) && name[19] == 45 && name[24] == 45 && name[29] == 45
        && name[34] == 45 && has_part(name, 47, &tail) && has_digits(name);
    proof {
        if found {
            lemma_framed_digits(name@);
        }
    }
    found
}

/// Whether a temporary state file has been abandoned: only regular files, and
/// none that a commit may still be at work on.
pub fn is_stale_state_tmp(regular: bool, now: i64, modified: i64) -> (r: bool)
    ensures
        r == (regular && now - modified > STALE_STATE_TMP_SECONDS),
{
    regular && now as i128 - modified as i128 > STALE_STATE_TMP_SECONDS as i128
}

/// Nothing else in the state directory is taken for a temporary state file: its name
/// starts with that of the state file, ends as one, and holds an identifier
/// between.
pub proof fn law_temporary_names_have_one_form(name: Seq<u8>)
    requires
        temporary_state_name(name),
    ensures
        name.len() == 51,
        name.take(11) == "state.json."@.map(|i: int, c: char| c as u8),
        name.skip(47) == ".tmp"@.map(|i: int, c: char| c as u8),
{
    let id = choose|id: Seq<char>| #[trigger]
        hex32(id) && name == temporary_named(id).map(|i: int, c: char| c as u8);
    lemma_temporary_name(id);
    assert(name.take(11) =~= name.subrange(0, 11));
    assert(name.skip(47) =~= name.subrange(47, 51));
}

/// The temporary file of a commit is found again when abandoned ones are looked
/// for.
pub proof fn law_temporary_names_are_recognized(id: Seq<char>)
    requires
        hex32(id),
    ensures
        temporary_state_name(temporary_named(id).map(|i: int, c: char| c as u8)),
{
}

/// Names are made of an identifier and of what tells them apart: handles, control groups
/// and temporary state files, the last with the identifier in five groups.
pub proof fn law_names_hold_their_identifier(
    id: &str,
    handle: String,
    cgroup: String,
    temporary: String,
)
    requires
        id@.len() == 32,
        call_ensures(handle_from, (id,), handle),
        call_ensures(cgroup_name_from, (id,), cgroup),
        call_ensures(temporary_name_from, (id,), temporary),
    ensures
        handle@ == "sh_"@ + id@,
        cgroup@ == "codex-secret-handoff-"@ + id@,
        temporary@ == "state.json."@ + id@.take(8) + "-"@ + id@.subrange(8, 12) + "-"@
            + id@.subrange(12, 16) + "-"@ + id@.subrange(16, 20) + "-"@ + id@.skip(20) + ".tmp"@,
{
    let parts = id@.take(8) + "-"@ + id@.subrange(8, 12) + "-"@ + id@.subrange(12, 16) + "-"@
        + id@.subrange(16, 20) + "-"@ + id@.skip(20);
    assert(id@.skip(20) =~= id@.subrange(20, 32));
    assert(id@.take(8) =~= id@.subrange(0, 8));
    assert(hyphenated(id@) == parts);
    assert("state.json."@ + parts =~= "state.json."@ + id@.take(8) + "-"@ + id@.subrange(8, 12)
        + "-"@ + id@.subrange(12, 16) + "-"@ + id@.subrange(16, 20) + "-"@ + id@.skip(20));
}

/// Two identifiers never make the same handle, nor the same name of a control group.
pub proof fn law_names_differ_with_their_identifiers(a: Seq<char>, b: Seq<char>)
    requires
        handle_named(a) == handle_named(b) || cgroup_named(a) == cgroup_named(b),
    ensures
        a == b,
{
    let handle = "sh_"@;
    let cgroup = "codex-secret-handoff-"@;
    assert(handle_named(a).skip(handle.len() as int) =~= a);
    assert(handle_named(b).skip(handle.len() as int) =~= b);
    assert(cgroup_named(a).skip(cgroup.len() as int) =~= a);
    assert(cgroup_named(b).skip(cgroup.len() as int) =~= b);
}

/// A temporary state file is abandoned exactly if it is a regular file that was not
/// changed for more than ten minutes.
pub proof fn law_old_temporary_files_are_abandoned(
    regular: bool,
    now: i64,
    modified: i64,
    stale: bool,
)
    requires
        call_ensures(is_stale_state_tmp, (regular, now, modified), stale),
    ensures
        stale <==> regular && now - modified > 600,
{
}

/// New names have the form of their kind and hold a random identifier, and a file is taken
/// for a temporary state file exactly if its name is made of an identifier.
pub proof fn law_new_names_have_their_form(
    handle: String,
    claim: String,
    cgroup: String,
    temporary: String,
    name: &[u8],
    known: bool,
)
    requires
        call_ensures(fresh_handle, (), handle),
        call_ensures(fresh_claim_id, (), claim),
        call_ensures(fresh_cgroup_name, (), cgroup),
        call_ensures(fresh_temporary_name, (), temporary),
        call_ensures(is_temporary_state_name, (name,), known),
    ensures
        claim@.len() == 32 && random_digits(claim@),
        handle@.len() == 35 && handle@.take(3) == "sh_"@ && random_digits(handle@.skip(3)),
        cgroup@.len() == 53 && cgroup@.take(21) == "codex-secret-handoff-"@ && random_digits(
            cgroup@.skip(21),
        ),
        temporary@.len() == 51 && temporary@.take(11) == "state.json."@ && temporary@.skip(47)
            == ".tmp"@,
        known <==> temporary_state_name(name@),
        known ==> name@.len() == 51,
{
    reveal_strlit("sh_");
    reveal_strlit("codex-secret-handoff-");
    reveal_strlit("state.json.");
    reveal_strlit(".tmp");
    reveal_strlit("-");
    let a = choose|id: Seq<char>| random_digits(id) && handle@ == #[trigger] handle_named(id);
    assert(handle@.take(3) =~= "sh_"@);
    assert(handle@.skip(3) =~= a);
    let b = choose|id: Seq<char>| random_digits(id) && cgroup@ == #[trigger] cgroup_named(id);
    assert(cgroup@.take(21) =~= "codex-secret-handoff-"@);
    assert(cgroup@.skip(21) =~= b);
    let c = choose|id: Seq<char>|
        random_digits(id) && temporary@ == #[trigger] temporary_named(id);
    assert(temporary@.take(11) =~= "state.json."@);
    assert(temporary@.skip(47) =~= ".tmp"@);
    if known {
        let d = choose|id: Seq<char>| #[trigger]
            hex32(id) && name@ == temporary_named(id).map(|i: int, ch: char| ch as u8);
        assert(temporary_named(d).len() == 51);
    }
}

} // verus!
