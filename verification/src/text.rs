//! Text primitives: byte lengths, equality and order of strings, and the character
//! classes that the validators speak of.
use vstd::prelude::*;
use vstd::string::*;
use vstd::utf8::*;

verus! {

/// Number of bytes of the UTF-8 form of a text.
pub open spec fn byte_count(s: Seq<char>) -> nat {
    encode_utf8(s).len()
}

/// What a check returns: nothing where there is no fault, else the fault.
pub open spec fn verdict(result: Result<(), String>, fault: Option<Seq<char>>) -> bool {
    match result {
        Ok(_) => fault is None,
        Err(e) => fault == Some(e@),
    }
}

/// What went wrong, if anything did.
pub open spec fn failure(result: Result<(), String>) -> Option<Seq<char>> {
    match result {
        Ok(_) => None,
        Err(e) => Some(e@),
    }
}

/// Two texts with a separator between them.
pub open spec fn separated(a: Seq<char>, b: Seq<char>) -> Seq<char> {
    a + "; "@ + b
}

/// Control codes: the characters of Unicode's general category Cc.
pub open spec fn control_char(c: char) -> bool {
    c as u32 <= 0x1f || 0x7f <= c as u32 <= 0x9f
}

/// Characters that have Unicode's White_Space property.
pub open spec fn white_char(c: char) -> bool {
    let code = c as u32;
    ||| 0x09 <= code <= 0x0d
    ||| code == 0x20
    ||| code == 0x85
    ||| code == 0xa0
    ||| code == 0x1680
    ||| 0x2000 <= code <= 0x200a
    ||| code == 0x2028
    ||| code == 0x2029
    ||| code == 0x202f
    ||| code == 0x205f
    ||| code == 0x3000
}

/// Whether a control code occurs in a text.
pub open spec fn holds_control(s: Seq<char>) -> bool {
    exists|i: int| 0 <= i < s.len() && control_char(#[trigger] s[i])
}

/// Whether a text consists of white space alone (the empty text does).
pub open spec fn blank(s: Seq<char>) -> bool {
    forall|i: int| 0 <= i < s.len() ==> white_char(#[trigger] s[i])
}

/// A text without its leading white space.
pub open spec fn without_leading_white(s: Seq<char>) -> Seq<char>
    decreases s.len(),
{
    if s.len() > 0 && white_char(s[0]) {
        without_leading_white(s.drop_first())
    } else {
        s
    }
}

/// A text without its trailing white space.
pub open spec fn without_trailing_white(s: Seq<char>) -> Seq<char>
    decreases s.len(),
{
    if s.len() > 0 && white_char(s.last()) {
        without_trailing_white(s.drop_last())
    } else {
        s
    }
}

/// A text without the white space at its two ends.
pub open spec fn trimmed(s: Seq<char>) -> Seq<char> {
    without_trailing_white(without_leading_white(s))
}

/// Whether the first `k` bytes agree and then `a` ends or has the smaller byte.
pub open spec fn parts_at(a: Seq<u8>, b: Seq<u8>, k: int) -> bool {
    &&& 0 <= k <= a.len()
    &&& k < b.len()
    &&& forall|i: int| 0 <= i < k ==> a[i] == b[i]
    &&& k == a.len() || a[k] < b[k]
}

/// Lexicographic order of byte strings.
pub open spec fn bytes_before(a: Seq<u8>, b: Seq<u8>) -> bool {
    exists|k: int| parts_at(a, b, k)
}

/// The order of texts: lexicographic by the bytes of their UTF-8 forms.
pub open spec fn text_before(a: Seq<char>, b: Seq<char>) -> bool {
    bytes_before(encode_utf8(a), encode_utf8(b))
}

/// Texts with the same UTF-8 form are the same text.
pub proof fn lemma_encoding_is_injective(a: Seq<char>, b: Seq<char>)
    requires
        encode_utf8(a) == encode_utf8(b),
    ensures
        a == b,
{
    encode_utf8_decode_utf8(a);
    encode_utf8_decode_utf8(b);
}

/// No byte string stands before itself.
pub proof fn lemma_bytes_before_irreflexive(a: Seq<u8>)
    ensures
        !bytes_before(a, a),
{
}

/// The order of byte strings is transitive.
pub proof fn lemma_bytes_before_transitive(a: Seq<u8>, b: Seq<u8>, c: Seq<u8>)
    requires
        bytes_before(a, b),
        bytes_before(b, c),
    ensures
        bytes_before(a, c),
{
    let k = choose|k: int| parts_at(a, b, k);
    let l = choose|l: int| parts_at(b, c, l);
    let m = if k < l {
        k
    } else {
        l
    };
    assert(parts_at(a, c, m));
}

/// Of two texts neither of which stands before the other, both are the same.
pub proof fn lemma_text_order_is_total(a: Seq<char>, b: Seq<char>)
    ensures
        text_before(a, b) || text_before(b, a) || a == b,
{
    let x = encode_utf8(a);
    let y = encode_utf8(b);
    let k = lemma_first_difference(x, y);
    if k < x.len() && k < y.len() {
        if x[k] < y[k] {
            assert(parts_at(x, y, k));
        } else {
            assert(parts_at(y, x, k));
        }
    } else if k < y.len() {
        assert(parts_at(x, y, k));
    } else if k < x.len() {
        assert(parts_at(y, x, k));
    } else {
        assert(x =~= y);
        lemma_encoding_is_injective(a, b);
    }
}

/// The length of the longest common prefix of two byte strings.
proof fn lemma_first_difference(x: Seq<u8>, y: Seq<u8>) -> (k: int)
    ensures
        0 <= k <= x.len(),
        k <= y.len(),
        forall|i: int| 0 <= i < k ==> x[i] == y[i],
        k < x.len() && k < y.len() ==> x[k] != y[k],
    decreases x.len(),
{
    if x.len() == 0 || y.len() == 0 || x[0] != y[0] {
        0
    } else {
        let k = lemma_first_difference(x.drop_first(), y.drop_first());
        assert forall|i: int| 0 <= i < k + 1 implies x[i] == y[i] by {
            if i > 0 {
                assert(x.drop_first()[i - 1] == y.drop_first()[i - 1]);
            }
        }
        k + 1
    }
}

/// The order of texts is a strict order.
pub proof fn lemma_text_order_is_strict(a: Seq<char>, b: Seq<char>, c: Seq<char>)
    ensures
        !text_before(a, a),
        text_before(a, b) && text_before(b, c) ==> text_before(a, c),
        text_before(a, b) ==> !text_before(b, a),
{
    lemma_bytes_before_irreflexive(encode_utf8(a));
    if text_before(a, b) && text_before(b, c) {
        lemma_bytes_before_transitive(encode_utf8(a), encode_utf8(b), encode_utf8(c));
    }
    if text_before(a, b) && text_before(b, a) {
        lemma_bytes_before_transitive(encode_utf8(a), encode_utf8(b), encode_utf8(a));
    }
}

/// A text that trims to nothing is blank, and the other way round.
pub proof fn lemma_trimmed_blank(s: Seq<char>)
    ensures
        trimmed(s).len() == 0 <==> blank(s),
    decreases s.len(),
{
    if s.len() > 0 && white_char(s[0]) {
        lemma_trimmed_blank(s.drop_first());
        let rest = s.drop_first();
        if blank(rest) {
            assert forall|i: int| 0 <= i < s.len() implies white_char(#[trigger] s[i]) by {
                if i > 0 {
                    assert(white_char(rest[i - 1]));
                }
            }
        }
        if blank(s) {
            assert forall|i: int| 0 <= i < rest.len() implies white_char(#[trigger] rest[i]) by {
                assert(white_char(s[i + 1]));
            }
        }
    } else if s.len() > 0 {
        assert(!blank(s));
        lemma_trailing_keeps_first(s);
    }
}

/// Dropping trailing white space keeps a first character that is none.
proof fn lemma_trailing_keeps_first(s: Seq<char>)
    requires
        s.len() > 0,
        !white_char(s[0]),
    ensures
        without_trailing_white(s).len() > 0,
    decreases s.len(),
{
    if white_char(s.last()) {
        assert(s.len() > 1);
        lemma_trailing_keeps_first(s.drop_last());
    }
}

/// The UTF-8 form of two texts in a row is that of the one and then of the other.
pub proof fn lemma_encoding_concatenates(a: Seq<char>, b: Seq<char>)
    ensures
        encode_utf8(a + b) == encode_utf8(a) + encode_utf8(b),
    decreases a.len(),
{
    if a.len() == 0 {
        assert(a + b =~= b);
        assert(encode_utf8(a) + encode_utf8(b) =~= encode_utf8(b));
    } else {
        lemma_encoding_concatenates(a.drop_first(), b);
        assert((a + b).drop_first() =~= a.drop_first() + b);
        assert((a + b)[0] == a[0]);
        assert(encode_utf8(a + b) =~= encode_utf8(a) + encode_utf8(b));
    }
}

/// Trimming a text makes it no longer in bytes, brings no control code into it,
/// and leaves something of a text that is not blank.
pub proof fn lemma_trimmed_is_fit(s: Seq<char>)
    ensures
        byte_count(trimmed(s)) <= byte_count(s),
        holds_control(trimmed(s)) ==> holds_control(s),
        blank(trimmed(s)) ==> blank(s),
{
    lemma_leading_is_fit(s);
    lemma_trailing_is_fit(without_leading_white(s));
    let t = trimmed(s);
    if blank(t) && t.len() > 0 {
        assert(white_char(t[0]));
        assert(t[0] == without_leading_white(s)[0]);
    }
    lemma_trimmed_blank(s);
}

proof fn lemma_leading_is_fit(s: Seq<char>)
    ensures
        byte_count(without_leading_white(s)) <= byte_count(s),
        holds_control(without_leading_white(s)) ==> holds_control(s),
        without_leading_white(s).len() > 0 ==> !white_char(without_leading_white(s)[0]),
    decreases s.len(),
{
    if s.len() > 0 && white_char(s[0]) {
        let rest = s.drop_first();
        lemma_leading_is_fit(rest);
        assert(seq![s[0]] + rest =~= s);
        lemma_encoding_concatenates(seq![s[0]], rest);
        if holds_control(rest) {
            let i = choose|i: int| 0 <= i < rest.len() && control_char(#[trigger] rest[i]);
            assert(control_char(s[i + 1]));
        }
    }
}

proof fn lemma_trailing_is_fit(s: Seq<char>)
    ensures
        byte_count(without_trailing_white(s)) <= byte_count(s),
        holds_control(without_trailing_white(s)) ==> holds_control(s),
        without_trailing_white(s).len() > 0 ==> s.len() > 0 && without_trailing_white(s)[0] == s[0],
    decreases s.len(),
{
    if s.len() > 0 && white_char(s.last()) {
        let rest = s.drop_last();
        lemma_trailing_is_fit(rest);
        assert(rest + seq![s.last()] =~= s);
        lemma_encoding_concatenates(rest, seq![s.last()]);
        if holds_control(rest) {
            let i = choose|i: int| 0 <= i < rest.len() && control_char(#[trigger] rest[i]);
            assert(control_char(s[i]));
        }
    }
}

/// The length of a text in bytes.
pub fn byte_len(s: &str) -> (n: usize)
    ensures
        n == byte_count(s@),
{
    s.as_bytes().len()
}

/// Whether two texts are the same.
pub fn same_text(a: &str, b: &str) -> (same: bool)
    ensures
        same == (a@ == b@),
{
    let x = a.as_bytes();
    let y = b.as_bytes();
    if x.len() != y.len() {
        return false;
    }
    let n: usize = x.len();
    for i in 0..n
        invariant
            n == x@.len(),
            n == y@.len(),
            x@ == encode_utf8(a@),
            y@ == encode_utf8(b@),
            forall|j: int| 0 <= j < i ==> x@[j] == y@[j],
    {
        if x[i] != y[i] {
            return false;
        }
    }
    assert(x@ =~= y@);
    proof {
        lemma_encoding_is_injective(a@, b@);
    }
    true
}

/// Whether one text stands before another.
pub fn stands_before(a: &str, b: &str) -> (before: bool)
    ensures
        before == text_before(a@, b@),
{
    let x = a.as_bytes();
    let y = b.as_bytes();
    let n: usize = if x.len() < y.len() {
        x.len()
    } else {
        y.len()
    };
    for i in 0..n
        invariant
            n <= x@.len(),
            n <= y@.len(),
            x@ == encode_utf8(a@),
            y@ == encode_utf8(b@),
            forall|j: int| 0 <= j < i ==> x@[j] == y@[j],
    {
        if x[i] < y[i] {
            assert(parts_at(x@, y@, i as int));
            return true;
        }
        if x[i] > y[i] {
            assert(parts_at(y@, x@, i as int));
            proof {
                lemma_text_order_is_strict(b@, a@, b@);
            }
            return false;
        }
    }
    if x.len() < y.len() {
        assert(parts_at(x@, y@, n as int));
        true
    } else {
        proof {
            if bytes_before(x@, y@) {
                let k = choose|k: int| parts_at(x@, y@, k);
                assert(k < n);
                assert(false);
            }
        }
        false
    }
}

/// Whether a character is a control code.
pub fn is_control(c: char) -> (r: bool)
    ensures
        r == control_char(c),
{
    let code: u32 = c as u32;
    code <= 0x1f || (0x7f <= code && code <= 0x9f)
}

/// Whether a character is white space.
pub fn is_white(c: char) -> (r: bool)
    ensures
        r == white_char(c),
{
    let code: u32 = c as u32;
    (0x09 <= code && code <= 0x0d) || code == 0x20 || code == 0x85 || code == 0xa0 || code == 0x1680
        || (0x2000 <= code && code <= 0x200a) || code == 0x2028 || code == 0x2029 || code == 0x202f
        || code == 0x205f || code == 0x3000
}

/// Whether a control code occurs in a text.
pub fn has_control(s: &str) -> (r: bool)
    ensures
        r == holds_control(s@),
{
    for c in it: s.chars()
        invariant
            it.seq() == s@,
            forall|i: int| 0 <= i < it.index() ==> !control_char(#[trigger] s@[i]),
    {
        if is_control(c) {
            assert(control_char(s@[it.index() as int]));
            return true;
        }
    }
    false
}

/// Whether a text consists of white space alone.
pub fn is_blank(s: &str) -> (r: bool)
    ensures
        r == blank(s@),
{
    for c in it: s.chars()
        invariant
            it.seq() == s@,
            forall|i: int| 0 <= i < it.index() ==> white_char(#[trigger] s@[i]),
    {
        if !is_white(c) {
            assert(!white_char(s@[it.index() as int]));
            return false;
        }
    }
    true
}

/// The characters of a text.
pub fn chars_of(s: &str) -> (v: Vec<char>)
    ensures
        v@ == s@,
{
    let mut v: Vec<char> = Vec::new();
    for c in it: s.chars()
        invariant
            it.seq() == s@,
            v@ == s@.take(it.index() as int),
    {
        v.push(c);
        assert(s@.take(it.index() as int).push(c) =~= s@.take(it.index() as int + 1));
    }
    assert(s@.take(s@.len() as int) =~= s@);
    v
}

/// A text without the white space at its two ends.
pub fn trim(s: &str) -> (t: String)
    ensures
        t@ == trimmed(s@),
{
    let v = chars_of(s);
    let n: usize = v.len();
    let mut from: usize = 0;
    assert(s@.skip(0) =~= s@);
    while from < n && is_white(v[from])
        invariant
            n == v@.len(),
            v@ == s@,
            from <= n,
            without_leading_white(s@) == without_leading_white(s@.skip(from as int)),
        decreases n - from,
    {
        assert(s@.skip(from as int).drop_first() =~= s@.skip(from as int + 1));
        from = from + 1;
    }
    let ghost head = s@.skip(from as int);
    assert(without_leading_white(s@) == head);
    let mut to: usize = n;
    assert(head.take(to - from) =~= head);
    while to > from && is_white(v[to - 1])
        invariant
            n == v@.len(),
            v@ == s@,
            from <= to <= n,
            head == s@.skip(from as int),
            without_trailing_white(head) == without_trailing_white(head.take(to - from)),
        decreases to - from,
    {
        assert(head.take(to - from).drop_last() =~= head.take(to - from - 1));
        assert(head.take(to - from).last() == v@[to - 1]);
        to = to - 1;
    }
    assert(head.take(to - from) =~= s@.subrange(from as int, to as int));
    s.substring_char(from, to).to_owned()
}

/// One text behind another.
pub fn joined(a: &str, b: &str) -> (t: String)
    ensures
        t@ == a@ + b@,
{
    let mut t = a.to_owned();
    t.append(b);
    t
}

/// Two texts with a separator between them.
pub fn separated_text(a: &str, b: &str) -> (t: String)
    ensures
        t@ == separated(a@, b@),
{
    let head = joined(a, "; ");
    joined(head.as_str(), b)
}

/// Byte strings stand in the order of their first difference, and one that is the beginning
/// of another stands before it.
pub proof fn law_first_differences_decide(
    head: Seq<u8>,
    x: u8,
    y: u8,
    rest: Seq<u8>,
    other: Seq<u8>,
)
    ensures
        x < y <==> bytes_before(head + seq![x] + rest, head + seq![y] + other) && x != y,
        bytes_before(head, head + seq![y] + other),
        !bytes_before(head + seq![y] + other, head),
{
    let a = head + seq![x] + rest;
    let b = head + seq![y] + other;
    let k = head.len() as int;
    assert(a[k] == x && b[k] == y);
    assert forall|i: int| 0 <= i < k implies a[i] == head[i] && b[i] == head[i] by {}
    if x < y {
        assert(parts_at(a, b, k));
    }
    if y < x {
        assert(parts_at(b, a, k));
        if bytes_before(a, b) {
            lemma_bytes_before_transitive(a, b, a);
            lemma_bytes_before_irreflexive(a);
        }
    }
    assert(parts_at(head, b, k));
    if bytes_before(b, head) {
        lemma_bytes_before_transitive(b, head, b);
        lemma_bytes_before_irreflexive(b);
    }
}

/// Texts are measured, told apart, put in order, trimmed and joined by their characters and
/// by the bytes of their UTF-8 form.
pub proof fn law_texts_are_handled_as_they_are(
    a: &str,
    b: &str,
    n: usize,
    same: bool,
    before: bool,
    control: bool,
    empty: bool,
    list: Vec<char>,
    cut: String,
    both: String,
    apart: String,
)
    requires
        call_ensures(byte_len, (a,), n),
        call_ensures(same_text, (a, b), same),
        call_ensures(stands_before, (a, b), before),
        call_ensures(has_control, (a,), control),
        call_ensures(is_blank, (a,), empty),
        call_ensures(chars_of, (a,), list),
        call_ensures(trim, (a,), cut),
        call_ensures(joined, (a, b), both),
        call_ensures(separated_text, (a, b), apart),
    ensures
        n == encode_utf8(a@).len(),
        same <==> a@ == b@,
        before <==> bytes_before(encode_utf8(a@), encode_utf8(b@)),
        control <==> exists|i: int| 0 <= i < a@.len() && control_char(#[trigger] a@[i]),
        empty <==> forall|i: int| 0 <= i < a@.len() ==> white_char(#[trigger] a@[i]),
        list@ == a@,
        cut@ == trimmed(a@),
        both@ == a@ + b@,
        apart@ == a@ + "; "@ + b@,
{
}

} // verus!
