//! Decimal text as stored in the control and backup nodes.
use vstd::prelude::*;

verus! {

/// Whether `c` is one of the ASCII digits.
pub open spec fn is_digit(c: char) -> bool {
    '0' <= c && c <= '9'
}

/// The value of an ASCII digit.
pub open spec fn digit_value(c: char) -> int {
    (c as u32) as int - ('0' as u32) as int
}

/// The character that writes the digit `d` (for `0 <= d < 10`).
pub open spec fn digit_char(d: int) -> char {
    if d == 0 { '0' }
    else if d == 1 { '1' }
    else if d == 2 { '2' }
    else if d == 3 { '3' }
    else if d == 4 { '4' }
    else if d == 5 { '5' }
    else if d == 6 { '6' }
    else if d == 7 { '7' }
    else if d == 8 { '8' }
    else { '9' }
}

/// Whether `s` is one or more ASCII digits.
pub open spec fn is_numeral(s: Seq<char>) -> bool {
    s.len() > 0 && forall|i: int| 0 <= i < s.len() ==> is_digit(#[trigger] s[i])
}

/// The number that a run of digits writes, most significant digit first.
pub open spec fn digits_value(s: Seq<char>) -> int
    decreases s.len(),
{
    if s.len() == 0 {
        0
    } else {
        10 * digits_value(s.drop_last()) + digit_value(s.last())
    }
}

/// The integer a decimal text denotes: an optional `-` or `+`, then one or more digits.
pub open spec fn decimal_value(s: Seq<char>) -> Option<int> {
    if s.len() > 0 && s[0] == '-' && is_numeral(s.skip(1)) {
        Some(-digits_value(s.skip(1)))
    } else if s.len() > 0 && s[0] == '+' && is_numeral(s.skip(1)) {
        Some(digits_value(s.skip(1)))
    } else if is_numeral(s) {
        Some(digits_value(s))
    } else {
        None
    }
}

/// The `i16` a text denotes, if it is decimal and the value fits.
pub open spec fn i16_of(s: Seq<char>) -> Option<i16> {
    match decimal_value(s) {
        Some(v) => if i16::MIN <= v <= i16::MAX { Some(v as i16) } else { None },
        None => None,
    }
}

/// The text with one trailing newline, if there is one, removed.
pub open spec fn strip_newline(s: Seq<char>) -> Seq<char> {
    if s.len() > 0 && s.last() == '\n' { s.drop_last() } else { s }
}

/// The value held by the contents of a stored node.
pub open spec fn stored_value(s: Seq<char>) -> Option<i16> {
    i16_of(strip_newline(s))
}

/// The digits of `n`, with no leading zero.
pub open spec fn digits_of(n: nat) -> Seq<char>
    decreases n,
{
    if n < 10 {
        seq![digit_char(n as int)]
    } else {
        digits_of(n / 10).push(digit_char((n % 10) as int))
    }
}

/// The shortest decimal text of `v`.
pub open spec fn decimal_text(v: int) -> Seq<char> {
    if v < 0 { seq!['-'] + digits_of((-v) as nat) } else { digits_of(v as nat) }
}

proof fn lemma_digits_value_nonneg(s: Seq<char>)
    requires
        forall|i: int| 0 <= i < s.len() ==> is_digit(#[trigger] s[i]),
    ensures
        digits_value(s) >= 0,
    decreases s.len(),
{
    if s.len() > 0 {
        lemma_digits_value_nonneg(s.drop_last());
    }
}

/// A run of digits is worth at least as much as any of its prefixes.
proof fn lemma_digits_value_prefix(s: Seq<char>, k: int)
    requires
        0 <= k <= s.len(),
        forall|i: int| 0 <= i < s.len() ==> is_digit(#[trigger] s[i]),
    ensures
        digits_value(s.subrange(0, k)) <= digits_value(s),
    decreases s.len() - k,
{
    if k < s.len() {
        lemma_digits_value_prefix(s.drop_last(), k);
        assert(s.drop_last().subrange(0, k) =~= s.subrange(0, k));
        lemma_digits_value_nonneg(s.drop_last());
    } else {
        assert(s.subrange(0, k) =~= s);
    }
}

proof fn lemma_digit_char(d: int)
    requires
        0 <= d < 10,
    ensures
        is_digit(digit_char(d)),
        digit_value(digit_char(d)) == d,
{
}

proof fn lemma_digits_of(n: nat)
    ensures
        is_numeral(digits_of(n)),
        digits_value(digits_of(n)) == n,
    decreases n,
{
    if n < 10 {
        lemma_digit_char(n as int);
        assert(digits_of(n).drop_last() =~= Seq::<char>::empty());
        assert(digits_value(Seq::<char>::empty()) == 0);
    } else {
        lemma_digits_of(n / 10);
        lemma_digit_char((n % 10) as int);
        let d = digits_of(n);
        assert(d.drop_last() =~= digits_of(n / 10));
        assert forall|i: int| 0 <= i < d.len() implies is_digit(#[trigger] d[i]) by {
            if i < d.len() - 1 {
                assert(d[i] == digits_of(n / 10)[i]);
            }
        }
    }
}

/// Reading back the decimal text of a value gives that value, with or without
/// a trailing newline.
pub proof fn lemma_text_round_trip(v: i16)
    ensures
        i16_of(decimal_text(v as int)) == Some(v),
        stored_value(decimal_text(v as int)) == Some(v),
        stored_value(decimal_text(v as int).push('\n')) == Some(v),
{
    let t = decimal_text(v as int);
    if v < 0 {
        let m: nat = (-v) as nat;
        lemma_digits_of(m);
        assert(t.skip(1) =~= digits_of(m));
        assert(t.last() == digits_of(m).last());
    } else {
        lemma_digits_of(v as nat);
        assert(is_digit(t[0]));
        assert(is_digit(t.last()));
    }
    assert(t.push('\n').drop_last() =~= t);
}

/// Parses the first `len` characters of `s` as a decimal `i16`, as `i16::from_str` does.
pub fn parse_i16_prefix(s: &str, len: usize) -> (r: Option<i16>)
    requires
        len <= s@.len(),
    ensures
        r == i16_of(s@.subrange(0, len as int)),
{
    let ghost t = s@.subrange(0, len as int);
    let mut i: usize = 0;
    let mut negative = false;
    if len > 0 {
        let c = s.get_char(0);
        if c == '-' {
            negative = true;
            i = 1;
        } else if c == '+' {
            i = 1;
        }
    }
    if i == len {
        proof {
            if len == 1 {
                assert(t[0] == s@[0]);
                assert(t.skip(1).len() == 0);
            }
        }
        return None;
    }
    assert(t[0] == s@[0]);
    let start = i;
    let ghost body = t.subrange(start as int, len as int);
    assert(start == 1 ==> body =~= t.skip(1));
    assert(start == 0 ==> body =~= t);
    let mut acc: i32 = 0;
    while i < len
        invariant
            start <= i <= len,
            start <= 1,
            len <= s@.len(),
            t == s@.subrange(0, len as int),
            body == t.subrange(start as int, len as int),
            start == 1 ==> body == t.skip(1),
            start == 0 ==> body == t,
            start == 0 ==> t[0] != '-' && t[0] != '+',
            start == 1 ==> (t[0] == '-' || t[0] == '+') && (negative <==> t[0] == '-'),
            start == 0 ==> !negative,
            forall|j: int| start <= j < i ==> is_digit(#[trigger] s@[j]),
            acc == digits_value(s@.subrange(start as int, i as int)),
            0 <= acc <= 32768,
        decreases len - i,
    {
        let c = s.get_char(i);
        if !('0' <= c && c <= '9') {
            proof {
                assert(body[i - start] == c);
                assert(!is_numeral(body));
                if start == 1 {
                    assert(!is_digit(t[0]));
                }
            }
            return None;
        }
        let d: i32 = (c as u32 - '0' as u32) as i32;
        let next: i32 = acc * 10 + d;
        assert(s@.subrange(start as int, i + 1).drop_last() =~= s@.subrange(start as int, i as int));
        if next > 32768 {
            proof {
                if is_numeral(body) {
                    lemma_digits_value_prefix(body, i + 1 - start);
                    assert(body.subrange(0, i + 1 - start) =~= s@.subrange(start as int, i + 1));
                }
            }
            return None;
        }
        acc = next;
        i = i + 1;
    }
    assert(body =~= s@.subrange(start as int, i as int));
    if negative {
        Some((-acc) as i16)
    } else if acc <= 32767 {
        Some(acc as i16)
    } else {
        None
    }
}

/// Parses the whole of `s` as a decimal `i16`.
pub fn parse_i16(s: &str) -> (r: Option<i16>)
    ensures
        r == i16_of(s@),
{
    let len = s.unicode_len();
    assert(s@.subrange(0, len as int) =~= s@);
    parse_i16_prefix(s, len)
}

/// Reads the value held by the contents of a stored node: decimal text with
/// an optional trailing newline. `None` where the text holds no `i16`.
pub fn stored_brightness(text: &str) -> (r: Option<i16>)
    ensures
        r == stored_value(text@),
{
    let len = text.unicode_len();
    if len > 0 && text.get_char(len - 1) == '\n' {
        assert(text@.subrange(0, len - 1) =~= text@.drop_last());
        parse_i16_prefix(text, len - 1)
    } else {
        assert(text@.subrange(0, len as int) =~= text@);
        parse_i16_prefix(text, len)
    }
}

fn digit_of(d: u32) -> (c: char)
    requires
        d < 10,
    ensures
        c == digit_char(d as int),
{
    match d {
        0 => '0',
        1 => '1',
        2 => '2',
        3 => '3',
        4 => '4',
        5 => '5',
        6 => '6',
        7 => '7',
        8 => '8',
        _ => '9',
    }
}

fn push_digits(n: u32, out: &mut Vec<char>)
    ensures
        final(out)@ == old(out)@ + digits_of(n as nat),
    decreases n,
{
    if n >= 10 {
        push_digits(n / 10, out);
    }
    out.push(digit_of(n % 10));
    assert(out@ =~= old(out)@ + digits_of(n as nat));
}

/// The decimal text of `v`, as written to a node: a `-` for negative values,
/// then the digits, with no leading zero and no newline.
pub fn decimal_chars(v: i16) -> (r: Vec<char>)
    ensures
        r@ == decimal_text(v as int),
{
    let mut out: Vec<char> = Vec::new();
    let magnitude: u32;
    if v < 0 {
        out.push('-');
        magnitude = (-(v as i32)) as u32;
    } else {
        magnitude = v as u32;
    }
    push_digits(magnitude, &mut out);
    assert(out@ =~= decimal_text(v as int));
    out
}

} // verus!
