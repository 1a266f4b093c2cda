//! Decimal numbers.
use vstd::prelude::*;
use vstd::string::*;

use crate::text::chars_of;

verus! {

/// Whether a character is one of the ten decimal digits.
pub open spec fn digit(c: char) -> bool {
    '0' <= c <= '9'
}

/// Whether a text consists of decimal digits alone.
pub open spec fn all_digits(s: Seq<char>) -> bool {
    forall|i: int| 0 <= i < s.len() ==> digit(#[trigger] s[i])
}

/// The number that digits write.
pub open spec fn digits_value(s: Seq<char>) -> nat
    decreases s.len(),
{
    if s.len() == 0 {
        0
    } else {
        digits_value(s.drop_last()) * 10 + (s.last() as nat - '0' as nat) as nat
    }
}

/// The digit of a number below ten.
pub open spec fn digit_char(d: nat) -> char {
    ('0' as nat + d) as char
}

/// How a number is written: its digits, without leading zeros.
pub open spec fn decimal(n: nat) -> Seq<char>
    decreases n,
{
    if n < 10 {
        seq![digit_char(n)]
    } else {
        decimal(n / 10).push(digit_char(n % 10))
    }
}

/// The number that a text writes, if it is at most `max`: an optional plus sign
/// and then digits, at least one of them and nothing else.
pub open spec fn unsigned_value(s: Seq<char>, max: nat) -> Option<nat> {
    let body = if s.len() > 0 && s[0] == '+' {
        s.drop_first()
    } else {
        s
    };
    if body.len() > 0 && all_digits(body) && digits_value(body) <= max {
        Some(digits_value(body))
    } else {
        None
    }
}

/// More digits never write a smaller number.
proof fn lemma_prefix_is_smaller(s: Seq<char>, k: int)
    requires
        0 <= k <= s.len(),
    ensures
        digits_value(s.take(k)) <= digits_value(s),
    decreases s.len() - k,
{
    if k < s.len() {
        lemma_prefix_is_smaller(s.drop_last(), k);
        assert(s.drop_last().take(k) =~= s.take(k));
    } else {
        assert(s.take(k) =~= s);
    }
}

/// A number is read back as it was written.
pub proof fn lemma_decimal_round_trip(n: nat)
    ensures
        decimal(n).len() > 0,
        all_digits(decimal(n)),
        digits_value(decimal(n)) == n,
    decreases n,
{
    if n < 10 {
        assert(decimal(n).drop_last() =~= Seq::<char>::empty());
        assert(decimal(n).last() == digit_char(n));
        assert(digits_value(decimal(n).drop_last()) == 0);
    } else {
        lemma_decimal_round_trip(n / 10);
        assert(decimal(n).drop_last() =~= decimal(n / 10));
        assert(decimal(n).last() == digit_char(n % 10));
    }
}

/// A number that is at most `max` is parsed as it was written.
pub proof fn law_decimal_is_parsed(n: nat, max: nat)
    requires
        n <= max,
    ensures
        unsigned_value(decimal(n), max) == Some(n),
{
    lemma_decimal_round_trip(n);
    assert(digit(decimal(n)[0]));
}

/// The number that a text writes, if it is at most `max`.
pub fn parse_unsigned(s: &str, max: u64) -> (value: Option<u64>)
    ensures
        value is Some <==> unsigned_value(s@, max as nat) is Some,
        value matches Some(v) ==> unsigned_value(s@, max as nat) == Some(v as nat),
{
    let v = chars_of(s);
    let n: usize = v.len();
    let from: usize = if n > 0 && v[0] == '+' {
        1
    } else {
        0
    };
    let ghost body = s@.skip(from as int);
    assert(s@.skip(0) =~= s@);
    assert(s@.skip(1) =~= s@.drop_first());
    if from == n {
        return None;
    }
    let mut total: u64 = 0;
    let mut i: usize = from;
    assert(body.take(0) =~= Seq::<char>::empty());
    while i < n
        invariant
            n == v@.len(),
            v@ == s@,
            from <= i <= n,
            from < n,
            from <= 1,
            body == s@.skip(from as int),
            body == (if s@.len() > 0 && s@[0] == '+' {
                s@.drop_first()
            } else {
                s@
            }),
            all_digits(body.take(i - from)),
            total == digits_value(body.take(i - from)),
            total <= max,
        decreases n - i,
    {
        let c = v[i];
        assert(body[i - from] == c);
        if c < '0' || c > '9' {
            assert(!digit(body[i - from]));
            return None;
        }
        let d: u64 = c as u64 - '0' as u64;
        assert(body.take(i - from + 1).drop_last() =~= body.take(i - from));
        assert(body.take(i - from + 1).last() == c);
        assert forall|j: int| 0 <= j < i - from + 1 implies digit(
            #[trigger] body.take(i - from + 1)[j],
        ) by {
            if j < i - from {
                assert(digit(body.take(i - from)[j]));
            }
        }
        if total > max / 10 || d > max - total * 10 {
            proof {
                lemma_prefix_is_smaller(body, i - from + 1);
            }
            return None;
        }
        total = total * 10 + d;
        i = i + 1;
    }
    assert(body.take(n - from) =~= body);
    Some(total)
}

fn digit_text(d: u64) -> (t: &'static str)
    requires
        d < 10,
    ensures
        t@ == seq![digit_char(d as nat)],
{
    proof {
        reveal_strlit("0");
        reveal_strlit("1");
        reveal_strlit("2");
        reveal_strlit("3");
        reveal_strlit("4");
        reveal_strlit("5");
        reveal_strlit("6");
        reveal_strlit("7");
        reveal_strlit("8");
        reveal_strlit("9");
    }
    let t = if d == 0 {
        "0"
    } else if d == 1 {
        "1"
    } else if d == 2 {
        "2"
    } else if d == 3 {
        "3"
    } else if d == 4 {
        "4"
    } else if d == 5 {
        "5"
    } else if d == 6 {
        "6"
    } else if d == 7 {
        "7"
    } else if d == 8 {
        "8"
    } else {
        "9"
    };
    assert(t@ =~= seq![digit_char(d as nat)]);
    t
}

/// How a number is written.
pub fn decimal_text(n: u64) -> (t: String)
    ensures
        t@ == decimal(n as nat),
    decreases n,
{
    if n < 10 {
        digit_text(n).to_owned()
    } else {
        let head = decimal_text(n / 10);
        let tail = digit_text(n % 10);
        let t = head.concat(tail);
        assert(t@ =~= decimal((n / 10) as nat).push(digit_char((n % 10) as nat)));
        t
    }
}

/// A digit behind digits counts ten times as much before it, and a number is written with
/// its last digit last.
pub proof fn law_digits_count_by_tens(s: Seq<char>, c: char, n: nat, d: nat)
    requires
        '0' <= c <= '9',
        d < 10,
    ensures
        digits_value(s.push(c)) == digits_value(s) * 10 + (c as nat - '0' as nat),
        digits_value(Seq::<char>::empty()) == 0,
        decimal(d) == seq![('0' as nat + d) as char],
        n > 0 ==> decimal(n * 10 + d) == decimal(n).push(('0' as nat + d) as char),
{
    assert(s.push(c).drop_last() =~= s);
}

/// A text without a plus sign at its head.
pub open spec fn without_plus(s: Seq<char>) -> Seq<char> {
    if s.len() > 0 && s[0] == '+' {
        s.skip(1)
    } else {
        s
    }
}

/// A text is read as a number exactly if it consists of digits, behind a plus sign or not,
/// that write a number of at most `max`; and it is that number.
pub proof fn law_numbers_are_read(s: &str, max: u64, value: Option<u64>)
    requires
        call_ensures(parse_unsigned, (s, max), value),
    ensures
        value is Some <==> without_plus(s@).len() > 0 && (forall|i: int|
            0 <= i < without_plus(s@).len() ==> '0' <= #[trigger] without_plus(s@)[i]
                && without_plus(s@)[i] <= '9') && digits_value(without_plus(s@)) <= max,
        value matches Some(v) ==> v == digits_value(without_plus(s@)),
{
    assert(s@.len() > 0 ==> s@.skip(1) =~= s@.drop_first());
    let body = without_plus(s@);
    if all_digits(body) {
        assert forall|i: int| 0 <= i < body.len() implies '0' <= #[trigger] body[i] && body[i]
            <= '9' by {
            assert(digit(body[i]));
        }
    } else {
        let i = choose|i: int| 0 <= i < body.len() && !digit(#[trigger] body[i]);
        assert(!('0' <= body[i] && body[i] <= '9'));
    }
}

/// A number is written in decimal digits.
pub proof fn law_numbers_are_written(n: u64, text: String)
    requires
        call_ensures(decimal_text, (n,), text),
    ensures
        text@ == decimal(n as nat),
        text@.len() > 0 && all_digits(text@) && digits_value(text@) == n,
{
    lemma_decimal_round_trip(n as nat);
}

} // verus!
