//! Decimal rendering of version numbers.
//!
//! Download URLs, archive file names and extracted-directory names are all
//! derived from a semantic version triple. This module renders a `u32` as its
//! decimal digit string and proves the rendering against a spec-level model,
//! so every derived name can be pinned down exactly.

use vstd::prelude::*;
use vstd::string::StrSliceExecFns;
use vstd::string::StringExecFns;

verus! {

/// The character standing for one decimal digit.
pub open spec fn digit_char(d: int) -> char {
    if d == 0 {
        '0'
    } else if d == 1 {
        '1'
    } else if d == 2 {
        '2'
    } else if d == 3 {
        '3'
    } else if d == 4 {
        '4'
    } else if d == 5 {
        '5'
    } else if d == 6 {
        '6'
    } else if d == 7 {
        '7'
    } else if d == 8 {
        '8'
    } else {
        '9'
    }
}

/// Decimal rendering of a natural number, most significant digit first,
/// without leading zeros (a lone zero renders as "0").
pub open spec fn dec_chars(n: nat) -> Seq<char>
    decreases n,
{
    if n < 10 {
        seq![digit_char(n as int)]
    } else {
        dec_chars(n / 10) + seq![digit_char((n % 10) as int)]
    }
}

fn digit_str(d: u32) -> (r: &'static str)
    requires
        d < 10,
    ensures
        r@ == seq![digit_char(d as int)],
{
    proof {
        reveal_strlit("0");
        reveal_strlit("1");
        reveal_strlit("2");
        reveal_strlit("3");
        reveal_strlit("4");
        reveal_strlit("5");
        reveal_strlit("6");
        reveal_strlit("7");
        reveal_strlit("8");
        reveal_strlit("9");
    }
    let r: &'static str = if d == 0 {
        "0"
    } else if d == 1 {
        "1"
    } else if d == 2 {
        "2"
    } else if d == 3 {
        "3"
    } else if d == 4 {
        "4"
    } else if d == 5 {
        "5"
    } else if d == 6 {
        "6"
    } else if d == 7 {
        "7"
    } else if d == 8 {
        "8"
    } else {
        "9"
    };
    proof {
        assert(r@ =~= seq![digit_char(d as int)]);
    }
    r
}

/// Whether a character is a decimal digit.
pub open spec fn is_digit(c: char) -> bool {
    48 <= c as u32 <= 57
}

/// The numeric value of a digit character.
pub open spec fn digit_value(c: char) -> int {
    c as u32 - 48
}

/// The number a digit string denotes: `None` when the string is empty or
/// holds any non-digit character. There is no size limit here; the bounded
/// parser compares against the `u32` range.
pub open spec fn dec_value(s: Seq<char>) -> Option<nat>
    decreases s.len(),
{
    if s.len() == 0 {
        None
    } else if !is_digit(s.last()) {
        None
    } else if s.len() == 1 {
        Some(digit_value(s.last()) as nat)
    } else {
        match dec_value(s.drop_last()) {
            None => None,
            Some(v) => Some((v * 10 + digit_value(s.last())) as nat),
        }
    }
}

/// A non-digit anywhere makes the whole string denote nothing.
pub proof fn lemma_dec_value_none(s: Seq<char>, i: int)
    requires
        0 <= i < s.len(),
        !is_digit(s[i]),
    ensures
        dec_value(s) is None,
    decreases s.len(),
{
    if i < s.len() - 1 {
        lemma_dec_value_none(s.drop_last(), i);
    }
}

/// The digits a number word presents: one optional leading plus sign is
/// dropped, exactly as the standard unsigned parse accepts it.
pub open spec fn plus_stripped(s: Seq<char>) -> Seq<char> {
    if s.len() > 0 && s[0] == '+' {
        s.subrange(1, s.len() as int)
    } else {
        s
    }
}

/// What the bounded decimal parser yields: the denoted number when there is
/// one and it fits in a `u32`, and nothing otherwise.
pub open spec fn parse_u32_spec(s: Seq<char>) -> Option<u32> {
    match dec_value(plus_stripped(s)) {
        None => None,
        Some(v) => if v <= u32::MAX {
            Some(v as u32)
        } else {
            None
        },
    }
}

/// Parses a number word into a `u32`; `None` exactly when the word — after
/// one optional leading plus sign — is empty, holds a non-digit, or denotes
/// a number too large.
pub fn parse_u32(s: &str) -> (r: Option<u32>)
    ensures
        r == parse_u32_spec(s@),
{
    let n = s.unicode_len();
    if n == 0 {
        return None;
    }
    let start: usize = if s.get_char(0) == '+' {
        1
    } else {
        0
    };
    let ghost t = plus_stripped(s@);
    proof {
        assert(t =~= s@.subrange(start as int, n as int));
    }
    if n == start {
        return None;
    }
    let mut acc: u64 = 0;
    let ghost mut gv: nat = 0nat;
    let mut overflowed = false;
    let mut i: usize = start;
    while i < n
        invariant
            n == s@.len(),
            start <= i <= n,
            start < n,
            start <= 1,
            t == plus_stripped(s@),
            t == s@.subrange(start as int, n as int),
            i > start ==> dec_value(s@.subrange(start as int, i as int)) == Some(gv),
            i == start ==> gv == 0,
            !overflowed ==> acc == gv && gv <= u32::MAX,
            overflowed ==> gv > u32::MAX,
        decreases n - i,
    {
        let c = s.get_char(i);
        let cu = c as u32;
        if cu < 48 || cu > 57 {
            proof {
                assert(t[i - start as int] == s@[i as int]);
                lemma_dec_value_none(t, i - start as int);
            }
            return None;
        }
        let d: u64 = (cu - 48) as u64;
        proof {
            assert(s@.subrange(start as int, i as int + 1).drop_last() =~= s@.subrange(
                start as int,
                i as int,
            ));
            assert(s@.subrange(start as int, i as int + 1).last() == s@[i as int]);
        }
        if !overflowed {
            let next = acc * 10 + d;
            if next > u32::MAX as u64 {
                overflowed = true;
            } else {
                acc = next;
            }
        }
        proof {
            gv = (gv * 10 + digit_value(s@[i as int])) as nat;
        }
        i = i + 1;
    }
    if overflowed {
        None
    } else {
        Some(acc as u32)
    }
}

/// The denoted number when in range, the default otherwise.
pub open spec fn parse_u32_or_spec(s: Seq<char>, default: u32) -> u32 {
    match parse_u32_spec(s) {
        Some(v) => v,
        None => default,
    }
}

/// Parses a digit string into a `u32`, falling back to a default when the
/// string does not denote a number in range.
pub fn parse_u32_or(s: &str, default: u32) -> (r: u32)
    ensures
        r == parse_u32_or_spec(s@, default),
{
    match parse_u32(s) {
        Some(v) => v,
        None => default,
    }
}

/// What the boolean parser yields: exactly the words `true` and `false`.
pub open spec fn parse_bool_spec(s: Seq<char>) -> Option<bool> {
    if s == "true"@ {
        Some(true)
    } else if s == "false"@ {
        Some(false)
    } else {
        None
    }
}

/// Parses `true` or `false`; `None` on anything else.
pub fn parse_bool(s: &str) -> (r: Option<bool>)
    ensures
        r == parse_bool_spec(s@),
{
    if crate::utils::str_eq(s, "true") {
        Some(true)
    } else if crate::utils::str_eq(s, "false") {
        Some(false)
    } else {
        None
    }
}

/// The denoted boolean, the default on anything else.
pub open spec fn parse_bool_or_spec(s: Seq<char>, default: bool) -> bool {
    match parse_bool_spec(s) {
        Some(v) => v,
        None => default,
    }
}

/// Parses a boolean, falling back to a default on anything else.
pub fn parse_bool_or(s: &str, default: bool) -> (r: bool)
    ensures
        r == parse_bool_or_spec(s@, default),
{
    match parse_bool(s) {
        Some(v) => v,
        None => default,
    }
}

/// Renders `n` in decimal, e.g. `17` as `"17"`.
pub fn u32_to_string(n: u32) -> (r: String)
    ensures
        r@ == dec_chars(n as nat),
    decreases n,
{
    if n < 10 {
        let r = digit_str(n).to_owned();
        r
    } else {
        let mut r = u32_to_string(n / 10);
        r.append(digit_str(n % 10));
        proof {
            assert(r@ =~= dec_chars(n as nat));
        }
        r
    }
}

} // verus!
