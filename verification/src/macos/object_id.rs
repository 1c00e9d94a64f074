//! The public text of a CoreAudio object identifier: its decimal digits.

use vstd::prelude::*;
use crate::text::{chars_of, push_char};

verus! {

/// The character of the decimal digit `d` (for `d < 10`).
pub open spec fn digit_char(d: nat) -> char {
    (d + 48) as char
}

/// Whether `c` is one of the ASCII digits `'0'..='9'`.
pub open spec fn is_digit(c: char) -> bool {
    '0' <= c && c <= '9'
}

/// The value of the ASCII digit `c`.
pub open spec fn digit_value(c: char) -> int {
    c as int - 48
}

/// Every character of `s` is an ASCII digit.
pub open spec fn all_digits(s: Seq<char>) -> bool {
    forall|i: int| 0 <= i < s.len() ==> #[trigger] is_digit(s[i])
}

/// The number that the digits of `s` spell in base ten (most significant first).
pub open spec fn digits_value(s: Seq<char>) -> int
    decreases s.len(),
{
    if s.len() == 0 {
        0
    } else {
        digits_value(s.drop_last()) * 10 + digit_value(s.last())
    }
}

/// The shortest decimal text of `n`: no sign, no leading zero (but `"0"` for zero).
pub open spec fn decimal_text(n: nat) -> Seq<char>
    decreases n,
{
    if n < 10 {
        seq![digit_char(n)]
    } else {
        decimal_text(n / 10).push(digit_char(n % 10))
    }
}

/// The part of `s` that must be digits: `s` without one leading `'+'`.
pub open spec fn unsigned_digits(s: Seq<char>) -> Seq<char> {
    if s.len() > 0 && s[0] == '+' {
        s.drop_first()
    } else {
        s
    }
}

/// What `s` means as a `u32` in the syntax that std's `u32::from_str` accepts:
/// an optional `'+'`, then one or more ASCII digits whose value fits in 32 bits.
pub open spec fn parse_u32(s: Seq<char>) -> Option<u32> {
    let body = unsigned_digits(s);
    if body.len() > 0 && all_digits(body) && digits_value(body) <= u32::MAX {
        Some(digits_value(body) as u32)
    } else {
        None
    }
}

/// Appends the decimal text of `n` to `out`.
fn push_decimal(n: u32, out: &mut String)
    ensures
        final(out)@ == old(out)@ + decimal_text(n as nat),
    decreases n,
{
    if n >= 10 {
        push_decimal(n / 10, out);
    }
    let d: u32 = n % 10;
    let c: char = ((d as u8) + 48u8) as char;
    assert(c == digit_char(d as nat));
    push_char(out, c);
    assert(decimal_text(n as nat) == if n < 10 {
        seq![digit_char(n as nat)]
    } else {
        decimal_text((n / 10) as nat).push(digit_char((n % 10) as nat))
    });
}

/// The decimal text of a CoreAudio object identifier.
pub fn object_id_text(n: u32) -> (s: String)
    ensures
        s@ == decimal_text(n as nat),
{
    let mut s = String::new();
    push_decimal(n, &mut s);
    s
}

/// The value of a prefix of a digit sequence lies between zero and the value
/// of the whole sequence.
proof fn lemma_prefix_value_bounded(s: Seq<char>, j: int)
    requires
        all_digits(s),
        0 <= j <= s.len(),
    ensures
        0 <= digits_value(s.take(j)) <= digits_value(s),
    decreases s.len(),
{
    if s.len() == 0 {
        assert(s.take(j) =~= s);
    } else if j == s.len() {
        assert(s.take(j) =~= s);
        lemma_prefix_value_bounded(s.drop_last(), j - 1);
        assert(s.drop_last().take(j - 1) =~= s.drop_last());
        assert(is_digit(s[s.len() - 1]));
    } else {
        lemma_prefix_value_bounded(s.drop_last(), j);
        assert(s.drop_last().take(j) =~= s.take(j));
        assert(s.drop_last().take(s.len() - 1) =~= s.drop_last());
        lemma_prefix_value_bounded(s.drop_last(), s.len() - 1);
        assert(is_digit(s[s.len() - 1]));
    }
}

/// The decimal text of `n` is a non-empty run of digits that spells `n`.
proof fn lemma_decimal_text_digits(n: nat)
    ensures
        decimal_text(n).len() > 0,
        all_digits(decimal_text(n)),
        digits_value(decimal_text(n)) == n,
    decreases n,
{
    let d = n % 10;
    assert(digit_value(digit_char(d)) == d);
    if n < 10 {
        assert(decimal_text(n).drop_last() =~= Seq::<char>::empty());
        assert(digits_value(Seq::<char>::empty()) == 0);
        assert(digits_value(decimal_text(n)) == d);
    } else {
        lemma_decimal_text_digits(n / 10);
        assert(decimal_text(n).drop_last() =~= decimal_text(n / 10));
        assert(decimal_text(n).last() == digit_char(d));
        assert(digits_value(decimal_text(n)) == (n / 10) * 10 + d);
        assert((n / 10) * 10 + n % 10 == n) by (nonlinear_arith);
    }
}

/// Reading back the decimal text of a 32-bit number gives the number: the
/// identifier text that a CoreAudio device carries names its object again.
pub proof fn lemma_object_id_text_round_trip(n: u32)
    ensures
        parse_u32(decimal_text(n as nat)) == Some(n),
{
    lemma_decimal_text_digits(n as nat);
    let t = decimal_text(n as nat);
    assert(is_digit(t[0]));
    assert(unsigned_digits(t) == t);
}

/// Reads a CoreAudio object identifier back from its text, with the syntax and
/// range of std's `u32::from_str`.
pub fn parse_object_id(s: &str) -> (r: Option<u32>)
    ensures
        r == parse_u32(s@),
{
    let cs = chars_of(s);
    let len = cs.len();
    let mut start: usize = 0;
    if len > 0 && cs[0] == '+' {
        start = 1;
    }
    let ghost body = unsigned_digits(s@);
    assert(body =~= cs@.subrange(start as int, len as int));
    if start >= len {
        return None;
    }
    let mut acc: u32 = 0;
    let mut i: usize = start;
    while i < len
        invariant
            cs@ == s@,
            len == cs.len(),
            start <= i <= len,
            start < len,
            body == cs@.subrange(start as int, len as int),
            body == unsigned_digits(s@),
            all_digits(body.take(i - start)),
            acc == digits_value(body.take(i - start)),
        decreases len - i,
    {
        let c = cs[i];
        assert(body[i - start] == c);
        if !('0' <= c && c <= '9') {
            assert(!is_digit(body[i - start]));
            return None;
        }
        let d: u32 = (c as u32) - 48;
        assert(body.take(i - start + 1).drop_last() =~= body.take(i - start));
        assert(digits_value(body.take(i - start + 1)) == acc * 10 + d);
        assert(all_digits(body.take(i - start + 1)));
        if acc > (u32::MAX - d) / 10 {
            assert(acc * 10 + d > u32::MAX) by (nonlinear_arith)
                requires
                    acc > (u32::MAX - d) / 10,
                    d <= 9,
            ;
            proof {
                if all_digits(body) {
                    lemma_prefix_value_bounded(body, i - start + 1);
                }
            }
            return None;
        }
        assert(acc * 10 + d <= u32::MAX) by (nonlinear_arith)
            requires
                acc <= (u32::MAX - d) / 10,
                d <= 9,
        ;
        acc = acc * 10 + d;
        i = i + 1;
    }
    assert(body.take(len - start) =~= body);
    Some(acc)
}

/// The text of a number below ten is its one digit.
pub proof fn law_decimal_text_single_digit(d: nat)
    requires
        d < 10,
    ensures
        decimal_text(d) == seq![(d + 48) as char],
{
}

/// Appending a digit to the text of a positive number gives the text of ten
/// times the number plus the digit.
pub proof fn law_decimal_text_append_digit(n: nat, d: nat)
    requires
        0 < n,
        d < 10,
    ensures
        decimal_text(10 * n + d) == decimal_text(n).push((d + 48) as char),
{
    let m: nat = 10 * n + d;
    assert(m / 10 == n);
    assert(m % 10 == d);
}

/// A text of ten digits or more whose value exceeds 32 bits names no object.
pub proof fn law_parse_rejects_too_large(n: nat)
    requires
        n > u32::MAX,
    ensures
        parse_u32(decimal_text(n)) is None,
{
    lemma_decimal_text_digits(n);
    let t = decimal_text(n);
    assert(is_digit(t[0]));
    assert(unsigned_digits(t) == t);
}

/// A leading `'+'` changes nothing (before a text that does not itself start
/// with `'+'`).
pub proof fn law_parse_plus_sign(t: Seq<char>)
    requires
        t.len() > 0,
        t[0] != '+',
    ensures
        parse_u32(seq!['+'] + t) == parse_u32(t),
{
    assert((seq!['+'] + t).drop_first() =~= t);
}

/// The value of a run of digits is unchanged by a leading zero.
proof fn lemma_leading_zero_value(t: Seq<char>)
    ensures
        digits_value(seq!['0'] + t) == digits_value(t),
    decreases t.len(),
{
    assert(digit_value('0') == 0);
    assert(digits_value(Seq::<char>::empty()) == 0);
    if t.len() == 0 {
        assert((seq!['0'] + t).drop_last() =~= Seq::<char>::empty());
        assert((seq!['0'] + t).last() == '0');
    } else {
        lemma_leading_zero_value(t.drop_last());
        assert((seq!['0'] + t).drop_last() =~= seq!['0'] + t.drop_last());
        assert((seq!['0'] + t).last() == t.last());
    }
}

/// A leading zero changes nothing (before a non-empty text that does not
/// start with `'+'`).
pub proof fn law_parse_leading_zero(t: Seq<char>)
    requires
        t.len() > 0,
        t[0] != '+',
    ensures
        parse_u32(seq!['0'] + t) == parse_u32(t),
{
    let z = seq!['0'] + t;
    assert(z[0] == '0');
    assert(unsigned_digits(z) == z);
    assert(unsigned_digits(t) == t);
    lemma_leading_zero_value(t);
    if all_digits(t) {
        assert forall|i: int| 0 <= i < z.len() implies #[trigger] is_digit(z[i]) by {
            if i > 0 {
                assert(z[i] == t[i - 1]);
            }
        }
    }
    if all_digits(z) {
        assert forall|i: int| 0 <= i < t.len() implies #[trigger] is_digit(t[i]) by {
            assert(z[i + 1] == t[i]);
        }
    }
}

/// A character that is not a digit, anywhere but a leading `'+'`, makes the
/// text name no object; so does an empty text or a lone `'+'`.
pub proof fn law_parse_rejects_non_digit(s: Seq<char>, i: int)
    requires
        0 <= i < s.len(),
        !(48 <= (s[i] as u32) <= 57),
        !(i == 0 && s[i] == '+'),
    ensures
        parse_u32(s) is None,
        parse_u32(Seq::<char>::empty()) is None,
        parse_u32(seq!['+']) is None,
{
    let body = unsigned_digits(s);
    if s[0] == '+' {
        assert(body[i - 1] == s[i]);
        assert(!is_digit(body[i - 1]));
    } else {
        assert(!is_digit(body[i]));
    }
    assert(seq!['+'].drop_first() =~= Seq::<char>::empty());
}

} // verus!
