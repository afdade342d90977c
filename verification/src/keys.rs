//! Simulated key presses: the text form of an input word.
//!
//! A key is written as `D` for a draw or as a number: `1` to `9` play hand
//! slots 0 to 8 and `0` plays slot 9.  White space around the key is ignored, a
//! number may carry a leading `+` and leading zeros, and `d` is read as `D`.
//! Anything else presses nothing.

use vstd::prelude::*;
use crate::input::{
    slot_flag, INPUT_CARD_1, INPUT_CARD_10, INPUT_CARD_2, INPUT_CARD_3, INPUT_CARD_4, INPUT_CARD_5,
    INPUT_CARD_6, INPUT_CARD_7, INPUT_CARD_8, INPUT_CARD_9, INPUT_DRAW,
};

verus! {

/// The characters with the Unicode property `White_Space`.
pub open spec fn is_space(c: char) -> bool {
    let u = c as u32;
    (0x09 <= u <= 0x0D) || u == 0x20 || u == 0x85 || u == 0xA0 || u == 0x1680 || (0x2000 <= u
        <= 0x200A) || u == 0x2028 || u == 0x2029 || u == 0x202F || u == 0x205F || u == 0x3000
}

/// The ASCII decimal digits.
pub open spec fn is_digit(c: char) -> bool {
    0x30 <= c as u32 <= 0x39
}

/// How many white-space characters `s` starts with.
pub open spec fn leading_spaces(s: Seq<char>) -> nat
    decreases s.len(),
{
    if s.len() > 0 && is_space(s[0]) {
        1 + leading_spaces(s.drop_first())
    } else {
        0
    }
}

/// How many white-space characters `s` ends with.
pub open spec fn trailing_spaces(s: Seq<char>) -> nat
    decreases s.len(),
{
    if s.len() > 0 && is_space(s.last()) {
        1 + trailing_spaces(s.drop_last())
    } else {
        0
    }
}

/// `s` without the white space at its two ends.
pub open spec fn trimmed(s: Seq<char>) -> Seq<char> {
    let rest = s.skip(leading_spaces(s) as int);
    rest.take(rest.len() - trailing_spaces(rest))
}

/// The number that a sequence of decimal digits writes.
pub open spec fn digits_value(s: Seq<char>) -> nat
    decreases s.len(),
{
    if s.len() == 0 {
        0
    } else {
        (digits_value(s.drop_last()) * 10 + (s.last() as u32 - 0x30)) as nat
    }
}

/// Whether every character of `s` is a decimal digit.
pub open spec fn all_digits(s: Seq<char>) -> bool {
    forall|i: int| 0 <= i < s.len() ==> is_digit(#[trigger] s[i])
}

/// The number that `t` writes: an optional `+`, then one or more digits.
pub open spec fn parsed_number(t: Seq<char>) -> Option<nat> {
    let body = if t.len() > 0 && t[0] == '+' {
        t.drop_first()
    } else {
        t
    };
    if body.len() > 0 && all_digits(body) {
        Some(digits_value(body))
    } else {
        None
    }
}

/// The flag of the number key `n`.
pub open spec fn number_key_flag(n: nat) -> u16 {
    if n == 0 {
        INPUT_CARD_10
    } else if n <= 9 {
        slot_flag(n - 1)
    } else {
        0
    }
}

/// The input word that the key `key` presses.
pub open spec fn key_flags(key: Seq<char>) -> u16 {
    let t = trimmed(key);
    if t.len() == 1 && (t[0] == 'D' || t[0] == 'd') {
        INPUT_DRAW
    } else {
        match parsed_number(t) {
            Some(n) => number_key_flag(n),
            None => 0,
        }
    }
}

/// If `s` holds white space up to `n` and not at `n`, it starts with exactly
/// `n` white-space characters.
pub proof fn lemma_leading_spaces(s: Seq<char>, n: int)
    requires
        0 <= n <= s.len(),
        forall|k: int| 0 <= k < n ==> is_space(#[trigger] s[k]),
        n < s.len() ==> !is_space(s[n]),
    ensures
        leading_spaces(s) == n,
    decreases n,
{
    if n > 0 {
        let rest = s.drop_first();
        assert forall|k: int| 0 <= k < n - 1 implies is_space(#[trigger] rest[k]) by {
            assert(rest[k] == s[k + 1]);
        }
        if n - 1 < rest.len() {
            assert(rest[n - 1] == s[n]);
        }
        lemma_leading_spaces(rest, n - 1);
    }
}

/// If `s` holds white space from `n` on and not just before `n`, it ends with
/// exactly `s.len() - n` white-space characters.
pub proof fn lemma_trailing_spaces(s: Seq<char>, n: int)
    requires
        0 <= n <= s.len(),
        forall|k: int| n <= k < s.len() ==> is_space(#[trigger] s[k]),
        n > 0 ==> !is_space(s[n - 1]),
    ensures
        trailing_spaces(s) == s.len() - n,
    decreases s.len() - n,
{
    if n < s.len() {
        let rest = s.drop_last();
        assert forall|k: int| n <= k < rest.len() implies is_space(#[trigger] rest[k]) by {
            assert(rest[k] == s[k]);
        }
        if n > 0 {
            assert(rest[n - 1] == s[n - 1]);
        }
        lemma_trailing_spaces(rest, n);
    }
}

/// Appending a digit multiplies the value by ten and adds the digit.
proof fn lemma_digits_value_step(s: Seq<char>, n: int)
    requires
        0 < n <= s.len(),
        is_digit(s[n - 1]),
    ensures
        digits_value(s.take(n)) == digits_value(s.take(n - 1)) * 10 + (s[n - 1] as u32 - 0x30),
{
    assert(s.take(n).drop_last() =~= s.take(n - 1));
}

fn is_whitespace(c: char) -> (r: bool)
    ensures
        r == is_space(c),
{
    let u: u32 = c as u32;
    (0x09 <= u && u <= 0x0D) || u == 0x20 || u == 0x85 || u == 0xA0 || u == 0x1680 || (0x2000 <= u
        && u <= 0x200A) || u == 0x2028 || u == 0x2029 || u == 0x202F || u == 0x205F || u
        == 0x3000
}

fn number_key(value: u8) -> (r: u16)
    ensures
        r == number_key_flag(value as nat),
{
    match value {
        0 => INPUT_CARD_10,
        1 => INPUT_CARD_1,
        2 => INPUT_CARD_2,
        3 => INPUT_CARD_3,
        4 => INPUT_CARD_4,
        5 => INPUT_CARD_5,
        6 => INPUT_CARD_6,
        7 => INPUT_CARD_7,
        8 => INPUT_CARD_8,
        9 => INPUT_CARD_9,
        _ => 0,
    }
}

/// The characters of `text`, in order.
pub fn characters(text: &str) -> (chars: Vec<char>)
    ensures
        chars@ == text@,
{
    let mut chars: Vec<char> = Vec::new();
    for c in it: text.chars()
        invariant
            chars@ == it.seq().take(it.index()),
            it.seq() == text@,
    {
        chars.push(c);
        assert(it.seq().take(it.index() + 1) =~= it.seq().take(it.index()).push(c));
    }
    assert(chars@ =~= text@);
    chars
}

/// Build input flags from a simulated key string (e.g., "D", "1"-"9", "0").
pub fn flags_from_key_string(key: &str) -> (r: u16)
    ensures
        r == key_flags(key@),
{
    let chars = characters(key);
    let len = chars.len();
    let mut start: usize = 0;
    while start < len && is_whitespace(chars[start])
        invariant
            start <= len == key@.len(),
            chars@ == key@,
            forall|k: int| 0 <= k < start ==> is_space(#[trigger] key@[k]),
        decreases len - start,
    {
        start = start + 1;
    }
    let mut end: usize = len;
    while end > start && is_whitespace(chars[end - 1])
        invariant
            start <= end <= len == key@.len(),
            chars@ == key@,
            forall|k: int| end <= k < len ==> is_space(#[trigger] key@[k]),
        decreases end,
    {
        end = end - 1;
    }
    let ghost rest = key@.skip(start as int);
    let ghost t = key@.subrange(start as int, end as int);
    proof {
        lemma_leading_spaces(key@, start as int);
        assert forall|k: int| end - start <= k < rest.len() implies is_space(
            #[trigger] rest[k],
        ) by {
            assert(rest[k] == key@[k + start]);
        }
        if end > start {
            assert(rest[end - start - 1] == key@[end - 1]);
        }
        lemma_trailing_spaces(rest, end - start);
        assert(trimmed(key@) =~= t);
    }
    if end - start == 1 {
        let c = chars[start];
        if c == 'D' || c == 'd' {
            return INPUT_DRAW;
        }
    }
    let mut i: usize = start;
    if i < end && chars[i] == '+' {
        i = i + 1;
    }
    let ghost body = key@.subrange(i as int, end as int);
    proof {
        if t.len() > 0 && t[0] == '+' {
            assert(t.drop_first() =~= body);
        } else {
            assert(t =~= body);
        }
    }
    assert(key_flags(key@) == if body.len() > 0 && all_digits(body) {
        number_key_flag(digits_value(body))
    } else {
        0
    });
    if i == end {
        return 0;
    }
    let first: usize = i;
    let mut value: u8 = 0;
    while i < end
        invariant
            first <= i <= end <= len == key@.len(),
            chars@ == key@,
            body == key@.subrange(first as int, end as int),
            key_flags(key@) == if body.len() > 0 && all_digits(body) {
                number_key_flag(digits_value(body))
            } else {
                0
            },
            forall|k: int| 0 <= k < i - first ==> is_digit(#[trigger] body[k]),
            value <= 10,
            value < 10 ==> digits_value(body.take(i - first)) == value,
            value == 10 ==> digits_value(body.take(i - first)) >= 10,
        decreases end - i,
    {
        let c = chars[i];
        let u: u32 = c as u32;
        assert(body[i - first] == c);
        if u < 0x30 || u > 0x39 {
            return 0;
        }
        let digit: u8 = (u - 0x30) as u8;
        proof {
            lemma_digits_value_step(body, i - first + 1);
        }
        if value < 10 {
            let next: u8 = value * 10 + digit;
            value = if next >= 10 {
                10
            } else {
                next
            };
        }
        i = i + 1;
    }
    assert(body.take(end - first) =~= body);
    number_key(value)
}

} // verus!
