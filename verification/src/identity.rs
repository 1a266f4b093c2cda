//! Identities of processes that survive neither their exit nor a reboot: the
//! process number, the start time and the boot that both belong to.
use vstd::prelude::*;
use vstd::string::*;

use crate::number::{
    decimal, decimal_text, digit, law_decimal_is_parsed, lemma_decimal_round_trip, parse_unsigned,
    unsigned_value,
};
use crate::text::{chars_of, is_white, same_text, trim, trimmed, white_char, without_leading_white};

verus! {

/// What is known of a recorded process.
#[derive(Debug, Clone, Copy, PartialEq, Eq, Structural)]
pub enum ProcessLiveness {
    Alive,
    Dead,
    Unknown,
}

/// A process as its identity names it.
pub struct ProcessIdentity {
    pub pid: u32,
    pub start_ticks: u64,
    pub boot: String,
}

/// Whether `i` is the place of the first colon at or after `from`.
pub open spec fn first_colon(s: Seq<char>, from: int, i: int) -> bool {
    &&& from <= i < s.len()
    &&& s[i] == ':'
    &&& forall|j: int| from <= j < i ==> s[j] != ':'
}

/// How an identity is written: number, start time and boot, with colons between.
pub open spec fn identity_text(pid: u32, start_ticks: u64, boot: Seq<char>) -> Seq<char> {
    decimal(pid as nat) + seq![':'] + decimal(start_ticks as nat) + seq![':'] + boot
}

/// The text up to the first colon and the text behind it.
pub open spec fn split_colon(s: Seq<char>) -> Option<(Seq<char>, Seq<char>)> {
    if exists|i: int| first_colon(s, 0, i) {
        let i = choose|i: int| first_colon(s, 0, i);
        Some((s.take(i), s.skip(i + 1)))
    } else {
        None
    }
}

/// The process that an identity names: three fields, the numbers not zero, the
/// boot not empty.
pub open spec fn named_process(s: Seq<char>) -> Option<(u32, u64, Seq<char>)> {
    match split_colon(s) {
        None => None,
        Some((pid, rest)) => match split_colon(rest) {
            None => None,
            Some((ticks, boot)) => match (
                unsigned_value(pid, u32::MAX as nat),
                unsigned_value(ticks, u64::MAX as nat),
            ) {
                (Some(p), Some(t)) => if p == 0 || t == 0 || boot.len() == 0 {
                    None
                } else {
                    Some((p as u32, t as u64, boot))
                },
                _ => None,
            },
        },
    }
}

/// What is known of the process that an identity names, from the current boot
/// and the start time that its number has now.
pub open spec fn liveness_of(
    identity: Seq<char>,
    current_boot: Option<Seq<char>>,
    current_ticks: Option<Option<u64>>,
) -> ProcessLiveness {
    match named_process(identity) {
        None => ProcessLiveness::Unknown,
        Some((pid, ticks, boot)) => match current_boot {
            None => ProcessLiveness::Unknown,
            Some(current) => if current != boot {
                ProcessLiveness::Dead
            } else {
                match current_ticks {
                    Some(Some(t)) => if t == ticks {
                        ProcessLiveness::Alive
                    } else {
                        ProcessLiveness::Dead
                    },
                    Some(None) => ProcessLiveness::Dead,
                    None => ProcessLiveness::Unknown,
                }
            },
        },
    }
}

/// A reading as a contract speaks of it: `None` where it failed.
pub open spec fn reading(ticks: Result<Option<u64>, String>) -> Option<Option<u64>> {
    match ticks {
        Ok(t) => Some(t),
        Err(_) => None,
    }
}

proof fn lemma_colon_is_unique(s: Seq<char>, i: int, j: int)
    requires
        first_colon(s, 0, i),
        first_colon(s, 0, j),
    ensures
        i == j,
{
}

/// An identity is read back as it was written.
pub proof fn law_identity_round_trip(pid: u32, start_ticks: u64, boot: Seq<char>)
    requires
        pid != 0,
        start_ticks != 0,
        boot.len() > 0,
    ensures
        named_process(identity_text(pid, start_ticks, boot)) == Some((pid, start_ticks, boot)),
{
    let s = identity_text(pid, start_ticks, boot);
    let a = decimal(pid as nat);
    let b = decimal(start_ticks as nat);
    lemma_decimal_round_trip(pid as nat);
    lemma_decimal_round_trip(start_ticks as nat);
    law_decimal_is_parsed(pid as nat, u32::MAX as nat);
    law_decimal_is_parsed(start_ticks as nat, u64::MAX as nat);
    let i = a.len() as int;
    assert forall|j: int| 0 <= j < i implies s[j] != ':' by {
        assert(s[j] == a[j]);
        assert(digit(a[j]));
    }
    assert(first_colon(s, 0, i));
    let c = choose|c: int| first_colon(s, 0, c);
    lemma_colon_is_unique(s, i, c);
    assert(s.take(i) =~= a);
    let rest = s.skip(i + 1);
    assert(rest =~= b + seq![':'] + boot);
    let k = b.len() as int;
    assert forall|j: int| 0 <= j < k implies rest[j] != ':' by {
        assert(rest[j] == b[j]);
        assert(digit(b[j]));
    }
    assert(first_colon(rest, 0, k));
    let d = choose|d: int| first_colon(rest, 0, d);
    lemma_colon_is_unique(rest, k, d);
    assert(rest.take(k) =~= b);
    assert(rest.skip(k + 1) =~= boot);
}

/// An identity holds exactly as long as its process runs: it is alive while the
/// same boot reports the same start time, and dead after a reboot, an exit or a
/// reuse of the process number.
pub proof fn law_identity_detects_restart(
    pid: u32,
    start_ticks: u64,
    boot: Seq<char>,
    current_boot: Seq<char>,
    current_ticks: Option<u64>,
)
    requires
        pid != 0,
        start_ticks != 0,
        boot.len() > 0,
    ensures
        liveness_of(
            identity_text(pid, start_ticks, boot),
            Some(current_boot),
            Some(current_ticks),
        ) == (if current_boot == boot && current_ticks == Some(start_ticks) {
            ProcessLiveness::Alive
        } else {
            ProcessLiveness::Dead
        }),
{
    law_identity_round_trip(pid, start_ticks, boot);
}

/// How the identity of a process is written.
pub fn process_identity(pid: u32, start_ticks: u64, boot: &str) -> (identity: String)
    ensures
        identity@ == identity_text(pid, start_ticks, boot@),
{
    proof {
        reveal_strlit(":");
    }
    let a = decimal_text(pid as u64);
    let b = a.concat(":");
    let ticks = decimal_text(start_ticks);
    let c = b.concat(ticks.as_str());
    let d = c.concat(":");
    let identity = d.concat(boot);
    assert(":"@ =~= seq![':']);
    identity
}

/// The identity of the process that asks, from what the system tells of it. What
/// cannot be told is left out, and the identity is then nobody's.
pub fn process_owner(pid: u32, ticks: &Result<Option<u64>, String>, boot: Option<&str>) -> (owner:
    String)
    ensures
        owner@ == identity_text(
            pid,
            match ticks {
                Ok(Some(t)) => *t,
                _ => 0,
            },
            match boot {
                Some(b) => b@,
                None => Seq::empty(),
            },
        ),
{
    let start_ticks: u64 = match ticks {
        Ok(Some(t)) => *t,
        _ => 0,
    };
    match boot {
        Some(b) => process_identity(pid, start_ticks, b),
        None => {
            let none = String::new();
            process_identity(pid, start_ticks, none.as_str())
        },
    }
}

fn split_at_colon(s: &str) -> (parts: Option<(String, String)>)
    ensures
        match parts {
            Some((a, b)) => split_colon(s@) == Some((a@, b@)),
            None => split_colon(s@) is None,
        },
{
    let v = chars_of(s);
    let n: usize = v.len();
    let mut i: usize = 0;
    while i < n
        invariant
            n == v@.len(),
            v@ == s@,
            i <= n,
            forall|j: int| 0 <= j < i ==> s@[j] != ':',
        decreases n - i,
    {
        if v[i] == ':' {
            assert(first_colon(s@, 0, i as int));
            let ghost c = choose|c: int| first_colon(s@, 0, c);
            proof {
                lemma_colon_is_unique(s@, i as int, c);
            }
            assert(s@.take(i as int) =~= s@.subrange(0, i as int));
            assert(s@.skip(i + 1) =~= s@.subrange(i + 1, n as int));
            return Some((s.substring_char(0, i).to_owned(), s.substring_char(i + 1, n).to_owned()));
        }
        i = i + 1;
    }
    None
}

/// The process that an identity names.
pub fn parse_process_identity(identity: &str) -> (process: Option<ProcessIdentity>)
    ensures
        match process {
            Some(p) => named_process(identity@) == Some((p.pid, p.start_ticks, p.boot@)),
            None => named_process(identity@) is None,
        },
{
    let (pid, rest) = match split_at_colon(identity) {
        Some(parts) => parts,
        None => {
            return None;
        },
    };
    let (ticks, boot) = match split_at_colon(rest.as_str()) {
        Some(parts) => parts,
        None => {
            return None;
        },
    };
    let p: Option<u64> = parse_unsigned(pid.as_str(), u32::MAX as u64);
    let t: Option<u64> = parse_unsigned(ticks.as_str(), u64::MAX);
    match (p, t) {
        (Some(p), Some(t)) => {
            if p == 0 || t == 0 || boot.as_str().is_empty() {
                None
            } else {
                Some(ProcessIdentity { pid: p as u32, start_ticks: t, boot })
            }
        },
        _ => None,
    }
}

/// What is known of the process that an identity names. `current_ticks` is the
/// start time that the number of that process has now; it is looked at only
/// where the boot is still the same.
pub fn process_identity_liveness(
    identity: &str,
    current_boot: Option<&str>,
    current_ticks: &Result<Option<u64>, String>,
) -> (liveness: ProcessLiveness)
    ensures
        liveness == liveness_of(
            identity@,
            (match current_boot {
                Some(b) => Some(b@),
                None => None,
            }),
            reading(*current_ticks),
        ),
{
    match parse_process_identity(identity) {
        None => ProcessLiveness::Unknown,
        Some(process) => match current_boot {
            None => ProcessLiveness::Unknown,
            Some(current) => {
                if !same_text(current, process.boot.as_str()) {
                    ProcessLiveness::Dead
                } else {
                    match current_ticks {
                        Ok(Some(t)) => {
                            if *t == process.start_ticks {
                                ProcessLiveness::Alive
                            } else {
                                ProcessLiveness::Dead
                            }
                        },
                        Ok(None) => ProcessLiveness::Dead,
                        Err(_) => ProcessLiveness::Unknown,
                    }
                }
            },
        },
    }
}

/// Whether the process that an identity names is known to run.
pub fn process_identity_is_alive(
    identity: &str,
    current_boot: Option<&str>,
    current_ticks: &Result<Option<u64>, String>,
) -> (alive: bool)
    ensures
        alive == (liveness_of(
            identity@,
            (match current_boot {
                Some(b) => Some(b@),
                None => None,
            }),
            reading(*current_ticks),
        ) == ProcessLiveness::Alive),
{
    match process_identity_liveness(identity, current_boot, current_ticks) {
        ProcessLiveness::Alive => true,
        _ => false,
    }
}

/// The number of leading characters that are no white space.
pub open spec fn word_length(s: Seq<char>) -> nat
    decreases s.len(),
{
    if s.len() > 0 && !white_char(s[0]) {
        1 + word_length(s.drop_first())
    } else {
        0
    }
}

/// The word with `n` words before it, of the words that white space separates.
pub open spec fn nth_word(s: Seq<char>, n: nat) -> Option<Seq<char>>
    decreases n,
{
    let t = without_leading_white(s);
    let k = word_length(t) as int;
    if t.len() == 0 {
        None
    } else if n == 0 {
        Some(t.take(k))
    } else {
        nth_word(t.skip(k), (n - 1) as nat)
    }
}

/// The word with `n` words before it.
pub fn word_at(s: &str, n: usize) -> (word: Option<String>)
    ensures
        match word {
            Some(w) => nth_word(s@, n as nat) == Some(w@),
            None => nth_word(s@, n as nat) is None,
        },
{
    let v = chars_of(s);
    let len: usize = v.len();
    let mut at: usize = 0;
    let mut left: usize = n;
    assert(s@.skip(0) =~= s@);
    loop
        invariant
            len == v@.len(),
            v@ == s@,
            at <= len,
            left <= n,
            nth_word(s@, n as nat) == nth_word(s@.skip(at as int), left as nat),
        decreases left,
    {
        let ghost here = s@.skip(at as int);
        while at < len && is_white(v[at])
            invariant
                len == v@.len(),
                v@ == s@,
                at <= len,
                without_leading_white(here) == without_leading_white(s@.skip(at as int)),
            decreases len - at,
        {
            assert(s@.skip(at as int).drop_first() =~= s@.skip(at as int + 1));
            at = at + 1;
        }
        let ghost t = s@.skip(at as int);
        assert(without_leading_white(here) == t);
        if at == len {
            return None;
        }
        let start: usize = at;
        assert(t.skip(0) =~= t);
        while at < len && !is_white(v[at])
            invariant
                len == v@.len(),
                v@ == s@,
                start <= at <= len,
                t == s@.skip(start as int),
                word_length(t) == (at - start) + word_length(s@.skip(at as int)),
            decreases len - at,
        {
            assert(s@.skip(at as int).drop_first() =~= s@.skip(at as int + 1));
            at = at + 1;
        }
        assert(word_length(t) == at - start);
        assert(t.skip(at - start) =~= s@.skip(at as int));
        if left == 0 {
            assert(t.take(at - start) =~= s@.subrange(start as int, at as int));
            return Some(s.substring_char(start, at).to_owned());
        }
        left = left - 1;
    }
}

/// Whether `i` is the last place at which `") "` stands.
pub open spec fn last_close(s: Seq<char>, i: int) -> bool {
    &&& 0 <= i < s.len() - 1
    &&& s[i] == ')' && s[i + 1] == ' '
    &&& forall|j: int| i < j < s.len() - 1 ==> !(s[j] == ')' && #[trigger] s[j + 1] == ' ')
}

/// The start time in a line of process status: the text behind the last `") "`
/// is cut into words, and it is the one with nineteen words before it.
pub open spec fn start_ticks_in(stat: Seq<char>) -> Result<u64, Seq<char>> {
    if !exists|i: int| last_close(stat, i) {
        Err("process identity is malformed"@)
    } else {
        let i = choose|i: int| last_close(stat, i);
        match nth_word(stat.skip(i + 2), 19) {
            None => Err("process identity is incomplete"@),
            Some(word) => match unsigned_value(word, u64::MAX as nat) {
                None => Err("process identity is invalid"@),
                Some(ticks) => Ok(ticks as u64),
            },
        }
    }
}

/// The start time in a line of process status (`/proc/<pid>/stat`).
pub fn process_start_ticks(stat: &str) -> (ticks: Result<u64, String>)
    ensures
        match ticks {
            Ok(t) => start_ticks_in(stat@) == Ok::<u64, Seq<char>>(t),
            Err(e) => start_ticks_in(stat@) == Err::<u64, Seq<char>>(e@),
        },
{
    let v = chars_of(stat);
    let n: usize = v.len();
    if n < 2 {
        return Err("process identity is malformed".to_owned());
    }
    let mut i: usize = n - 1;
    while i > 0
        invariant
            n == v@.len(),
            n >= 2,
            v@ == stat@,
            i <= n - 1,
            forall|j: int|
                i <= j < stat@.len() - 1 ==> !(stat@[j] == ')' && #[trigger] stat@[j + 1] == ' '),
        decreases i,
    {
        i = i - 1;
        if v[i] == ')' && v[i + 1] == ' ' {
            assert(last_close(stat@, i as int));
            let ghost c = choose|c: int| last_close(stat@, c);
            assert(c == i) by {
                if c < i {
                    assert(!(stat@[i as int] == ')' && stat@[i + 1] == ' '));
                }
                if i < c {
                    assert(!(stat@[c] == ')' && stat@[c + 1] == ' '));
                }
            }
            let rest = stat.substring_char(i + 2, n);
            assert(stat@.skip(i + 2) =~= stat@.subrange(i + 2, n as int));
            return match word_at(rest, 19) {
                None => Err("process identity is incomplete".to_owned()),
                Some(word) => match parse_unsigned(word.as_str(), u64::MAX) {
                    None => Err("process identity is invalid".to_owned()),
                    Some(t) => Ok(t),
                },
            };
        }
    }
    assert(!exists|c: int| last_close(stat@, c)) by {
        if exists|c: int| last_close(stat@, c) {
            let c = choose|c: int| last_close(stat@, c);
            assert(!(stat@[c] == ')' && stat@[c + 1] == ' '));
        }
    }
    Err("process identity is malformed".to_owned())
}

/// The boot that the system reports, if what it reports is not blank.
pub open spec fn boot_in(report: Seq<char>) -> Option<Seq<char>> {
    if trimmed(report).len() > 0 {
        Some(trimmed(report))
    } else {
        None
    }
}

/// The boot that the system reports (`/proc/sys/kernel/random/boot_id`).
pub fn boot_id(report: &str) -> (boot: Option<String>)
    ensures
        match boot {
            Some(b) => boot_in(report@) == Some(b@),
            None => boot_in(report@) is None,
        },
{
    let value = trim(report);
    if value.as_str().is_empty() {
        None
    } else {
        Some(value)
    }
}

/// A process is known to run exactly if the boot is the one it was started in and its
/// number still has the same start time; it is known to be gone exactly if the boot is
/// another one, or its number has another start time or none; and of a name that cannot
/// be read nothing is known.
pub proof fn law_processes_are_known_by_boot_and_start(
    identity: &str,
    boot: Option<&str>,
    ticks: &Result<Option<u64>, String>,
    liveness: ProcessLiveness,
    alive: bool,
    named: Option<ProcessIdentity>,
)
    requires
        call_ensures(process_identity_liveness, (identity, boot, ticks), liveness),
        call_ensures(process_identity_is_alive, (identity, boot, ticks), alive),
        call_ensures(parse_process_identity, (identity,), named),
    ensures
        alive <==> liveness is Alive,
        liveness is Alive <==> named is Some && boot is Some && boot->0@ == named->0.boot@
            && ticks is Ok && ticks->Ok_0 == Some(named->0.start_ticks),
        liveness is Dead <==> named is Some && boot is Some && (boot->0@ != named->0.boot@ || (
        ticks is Ok && ticks->Ok_0 != Some(named->0.start_ticks))),
{
}

/// A name of a process is read exactly if it consists of a number, a start time and a boot
/// with colons between them, none of them zero or empty.
pub proof fn law_processes_are_named_by_three_parts(
    pid: Seq<char>,
    ticks: Seq<char>,
    boot: Seq<char>,
)
    requires
        !pid.contains(':'),
        !ticks.contains(':'),
    ensures
        ({
            let text = pid + seq![':'] + (ticks + seq![':'] + boot);
            let p = unsigned_value(pid, u32::MAX as nat);
            let t = unsigned_value(ticks, u64::MAX as nat);
            &&& named_process(text) is Some <==> p is Some && p->0 > 0 && t is Some && t->0 > 0
                && boot.len() > 0
            &&& named_process(text) matches Some(found) ==> found.0 == p->0 && found.1 == t->0
                && found.2 == boot
        }),
{
    let rest = ticks + seq![':'] + boot;
    lemma_split_colon(pid, rest);
    lemma_split_colon(ticks, boot);
}

proof fn lemma_split_colon(head: Seq<char>, tail: Seq<char>)
    requires
        !head.contains(':'),
    ensures
        split_colon(head + seq![':'] + tail) == Some((head, tail)),
{
    let s = head + seq![':'] + tail;
    let n = head.len() as int;
    assert forall|j: int| 0 <= j < n implies s[j] != ':' by {
        assert(s[j] == head[j]);
        assert(head.contains(head[j]));
    }
    assert(s[n] == ':');
    assert(first_colon(s, 0, n));
    let i = choose|i: int| first_colon(s, 0, i);
    lemma_colon_is_unique(s, i, n);
    assert(s.take(n) =~= head);
    assert(s.skip(n + 1) =~= tail);
}

/// The process that asks is named by its number, its start time and its boot, with zero and
/// nothing for what is not known.
pub proof fn law_processes_name_themselves(
    pid: u32,
    ticks: &Result<Option<u64>, String>,
    boot: Option<&str>,
    owner: String,
    start: u64,
    text: &str,
    identity: String,
)
    requires
        call_ensures(process_owner, (pid, ticks, boot), owner),
        call_ensures(process_identity, (pid, start, text), identity),
    ensures
        identity@ == decimal(pid as nat) + seq![':'] + decimal(start as nat) + seq![':'] + text@,
        ticks is Ok && ticks->Ok_0 is Some && boot is Some ==> owner@ == decimal(pid as nat) + seq![
            ':',
        ] + decimal(ticks->Ok_0->0 as nat) + seq![':'] + boot->0@,
        (ticks is Err || ticks->Ok_0 is None) && boot is Some ==> owner@ == decimal(pid as nat)
            + seq![':'] + decimal(0) + seq![':'] + boot->0@,
        ticks is Ok && ticks->Ok_0 is Some && boot is None ==> owner@ == decimal(pid as nat) + seq![
            ':',
        ] + decimal(ticks->Ok_0->0 as nat) + seq![':'],
{
    if ticks is Ok && ticks->Ok_0 is Some && boot is None {
        let head = decimal(pid as nat) + seq![':'] + decimal(ticks->Ok_0->0 as nat) + seq![':'];
        assert(head + Seq::<char>::empty() =~= head);
    }
}

/// Words are cut at white space: the first word is what stands before it, and the next
/// ones are those of what stands behind it.
pub proof fn law_words_are_cut_at_white_space(word: Seq<char>, gap: char, rest: Seq<char>, n: nat)
    requires
        word.len() > 0,
        forall|i: int| 0 <= i < word.len() ==> !white_char(#[trigger] word[i]),
        white_char(gap),
    ensures
        nth_word(word, 0) == Some(word),
        nth_word(word + seq![gap] + rest, 0) == Some(word),
        nth_word(word + seq![gap] + rest, n + 1) == nth_word(rest, n),
        nth_word(seq![gap] + rest, n) == nth_word(rest, n),
{
    let s = word + seq![gap] + rest;
    lemma_word_length(word, seq![gap] + rest);
    assert(word + (seq![gap] + rest) =~= s);
    assert(s[0] == word[0]);
    assert(without_leading_white(s) == s);
    assert(s.take(word.len() as int) =~= word);
    assert(s.skip(word.len() as int) =~= seq![gap] + rest);
    let t = seq![gap] + rest;
    assert(t[0] == gap);
    assert(t.drop_first() =~= rest);
    assert(without_leading_white(t) == without_leading_white(rest));
    lemma_nth_word_of_stripped(t, rest, n);
    let none = Seq::<char>::empty();
    lemma_word_length(word, none);
    assert(word + none =~= word);
    assert(word.take(word.len() as int) =~= word);
}

proof fn lemma_nth_word_of_stripped(a: Seq<char>, b: Seq<char>, n: nat)
    requires
        without_leading_white(a) == without_leading_white(b),
    ensures
        nth_word(a, n) == nth_word(b, n),
{
}

proof fn lemma_word_length(word: Seq<char>, rest: Seq<char>)
    requires
        forall|i: int| 0 <= i < word.len() ==> !white_char(#[trigger] word[i]),
        rest.len() == 0 || white_char(rest[0]),
    ensures
        word_length(word + rest) == word.len(),
    decreases word.len(),
{
    let s = word + rest;
    if word.len() > 0 {
        let less = word.drop_first();
        assert(s[0] == word[0]);
        assert(s.drop_first() =~= less + rest);
        assert forall|i: int| 0 <= i < less.len() implies !white_char(#[trigger] less[i]) by {
            assert(less[i] == word[i + 1]);
        }
        lemma_word_length(less, rest);
    } else {
        assert(s =~= rest);
    }
}

/// The start time of a process is the word behind nineteen others, counted from the last
/// closing bracket that a space follows: whatever the name of the program holds does not
/// count.
pub proof fn law_start_times_are_read_behind_the_name(head: Seq<char>, tail: Seq<char>)
    requires
        forall|j: int| 0 <= j < tail.len() - 1 ==> !(tail[j] == ')' && #[trigger] tail[j + 1] == ' '),
    ensures
        start_ticks_in(head + seq![')', ' '] + tail) == match nth_word(tail, 19) {
            None => Err::<u64, Seq<char>>("process identity is incomplete"@),
            Some(word) => match unsigned_value(word, u64::MAX as nat) {
                None => Err("process identity is invalid"@),
                Some(ticks) => Ok(ticks as u64),
            },
        },
{
    let s = head + seq![')', ' '] + tail;
    let n = head.len() as int;
    assert(s[n] == ')' && s[n + 1] == ' ');
    assert forall|j: int| n < j < s.len() - 1 implies !(s[j] == ')' && #[trigger] s[j + 1]
        == ' ') by {
        if j >= n + 2 {
            assert(s[j] == tail[j - n - 2]);
            assert(s[j + 1] == tail[j - n - 2 + 1]);
        }
    }
    assert(last_close(s, n));
    let i = choose|i: int| last_close(s, i);
    if i < n {
        assert(!(s[n] == ')' && s[n + 1] == ' '));
    }
    if n < i {
        assert(!(s[i] == ')' && s[i + 1] == ' '));
    }
    assert(s.skip(n + 2) =~= tail);
}

/// A line without a closing bracket that a space follows tells of no process, and a boot is
/// known exactly if something is written in its report.
pub proof fn law_reports_are_read_or_refused(
    stat: Seq<char>,
    report: &str,
    boot: Option<String>,
)
    requires
        forall|j: int| 0 <= j < stat.len() - 1 ==> !(stat[j] == ')' && #[trigger] stat[j + 1] == ' '),
        call_ensures(boot_id, (report,), boot),
    ensures
        start_ticks_in(stat) == Err::<u64, Seq<char>>("process identity is malformed"@),
        boot is Some <==> trimmed(report@).len() > 0,
        boot matches Some(text) ==> text@ == trimmed(report@),
{
    if exists|i: int| last_close(stat, i) {
        let i = choose|i: int| last_close(stat, i);
        assert(!(stat[i] == ')' && stat[i + 1] == ' '));
    }
}

/// Words and start times are read from a text as their laws say.
pub proof fn law_process_reports_are_read(
    s: &str,
    n: usize,
    word: Option<String>,
    ticks: Result<u64, String>,
)
    requires
        call_ensures(word_at, (s, n), word),
        call_ensures(process_start_ticks, (s,), ticks),
    ensures
        word is Some <==> nth_word(s@, n as nat) is Some,
        word matches Some(w) ==> nth_word(s@, n as nat) == Some(w@),
        ticks is Ok <==> start_ticks_in(s@) is Ok,
        ticks matches Ok(t) ==> start_ticks_in(s@)->Ok_0 == t,
        ticks matches Err(e) ==> start_ticks_in(s@)->Err_0 == e@,
{
}

} // verus!
