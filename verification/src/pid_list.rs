//! Reading the process identifiers that a port lookup prints.
//!
//! The lookup tool prints one identifier per line. The text is taken apart the
//! way a reader of whitespace-separated words would: maximal runs of
//! non-whitespace characters are tokens. A token names a process where it is
//! a decimal number from 1 to `i32::MAX`, with or without a `+` before it.
//! Zero and negative numbers name no process: as signal targets they would
//! address a process group or every process, so they are passed over like any
//! other token that is no identifier.

use vstd::prelude::*;

verus! {

/// Unicode white space: the characters at which a text is split into tokens.
pub open spec fn is_space(c: char) -> bool {
    let u = c as u32;
    ||| 0x09 <= u <= 0x0D
    ||| u == 0x20
    ||| u == 0x85
    ||| u == 0xA0
    ||| u == 0x1680
    ||| 0x2000 <= u <= 0x200A
    ||| u == 0x2028
    ||| u == 0x2029
    ||| u == 0x202F
    ||| u == 0x205F
    ||| u == 0x3000
}

/// ASCII decimal digit.
pub open spec fn is_digit(c: char) -> bool {
    0x30 <= c as u32 <= 0x39
}

/// Value of an ASCII decimal digit.
pub open spec fn digit_value(c: char) -> int {
    c as u32 - 0x30
}

pub open spec fn all_digits(s: Seq<char>) -> bool {
    forall|i: int| 0 <= i < s.len() ==> is_digit(#[trigger] s[i])
}

/// The number that a run of decimal digits denotes; leading zeros are allowed.
pub open spec fn decimal_value(s: Seq<char>) -> int
    decreases s.len(),
{
    if s.len() == 0 {
        0
    } else {
        10 * decimal_value(s.drop_last()) + digit_value(s.last())
    }
}

/// The digits of a token: what follows a leading `+`, or the whole token
/// where there is none.
pub open spec fn digits_of(token: Seq<char>) -> Seq<char> {
    if token.len() > 0 && token[0] == '+' {
        token.skip(1)
    } else {
        token
    }
}

/// The process identifier that a token denotes, if it denotes one: an optional
/// `+`, then one or more decimal digits, with a value from 1 to `i32::MAX`.
pub open spec fn pid_of_token(token: Seq<char>) -> Option<i32> {
    let digits = digits_of(token);
    let value = decimal_value(digits);
    if digits.len() > 0 && all_digits(digits) && 1 <= value <= i32::MAX {
        Some(value as i32)
    } else {
        None
    }
}

/// Length of the run of non-space characters at the start of `s`.
pub open spec fn token_len(s: Seq<char>) -> nat
    decreases s.len(),
{
    if s.len() == 0 || is_space(s[0]) {
        0
    } else {
        1 + token_len(s.skip(1))
    }
}

/// A token is no longer than the text, and not empty where the text begins
/// with a character that is no space.
pub proof fn lemma_token_len_bounds(s: Seq<char>)
    ensures
        token_len(s) <= s.len(),
        s.len() > 0 && !is_space(s[0]) ==> token_len(s) >= 1,
    decreases s.len(),
{
    if s.len() > 0 && !is_space(s[0]) {
        lemma_token_len_bounds(s.skip(1));
    }
}

/// The tokens of a text, in order: its maximal runs of non-space characters.
pub open spec fn tokens(s: Seq<char>) -> Seq<Seq<char>>
    decreases s.len(),
    via tokens_decreases
{
    if s.len() == 0 {
        Seq::empty()
    } else if is_space(s[0]) {
        tokens(s.skip(1))
    } else {
        let n = token_len(s) as int;
        seq![s.take(n)] + tokens(s.skip(n))
    }
}

#[via_fn]
proof fn tokens_decreases(s: Seq<char>) {
    lemma_token_len_bounds(s);
}

/// The identifiers among a list of tokens, in order; tokens that denote none
/// are passed over.
pub open spec fn pids_of(toks: Seq<Seq<char>>) -> Seq<i32>
    decreases toks.len(),
{
    if toks.len() == 0 {
        Seq::empty()
    } else {
        match pid_of_token(toks.last()) {
            Some(pid) => pids_of(toks.drop_last()).push(pid),
            None => pids_of(toks.drop_last()),
        }
    }
}

/// The process identifiers that a text lists.
pub open spec fn pids_in(text: Seq<char>) -> Seq<i32> {
    pids_of(tokens(text))
}

pub fn is_space_char(c: char) -> (r: bool)
    ensures
        r == is_space(c),
{
    let u: u32 = c as u32;
    (0x09 <= u && u <= 0x0D) || u == 0x20 || u == 0x85 || u == 0xA0 || u == 0x1680 || (0x2000 <= u
        && u <= 0x200A) || u == 0x2028 || u == 0x2029 || u == 0x202F || u == 0x205F || u == 0x3000
}

/// Upper bound kept while digits are summed: one more than the largest
/// process identifier.
const VALUE_CAP: u64 = 0x8000_0000;

spec fn capped(value: int) -> int {
    if value < VALUE_CAP { value } else { VALUE_CAP as int }
}

proof fn lemma_decimal_value_nonnegative(s: Seq<char>)
    requires
        all_digits(s),
    ensures
        decimal_value(s) >= 0,
    decreases s.len(),
{
    if s.len() > 0 {
        lemma_decimal_value_nonnegative(s.drop_last());
    }
}

/// Every identifier among a list of tokens is at least 1.
pub proof fn lemma_pids_of_positive(toks: Seq<Seq<char>>)
    ensures
        forall|i: int| 0 <= i < pids_of(toks).len() ==> #[trigger] pids_of(toks)[i] >= 1,
    decreases toks.len(),
{
    if toks.len() > 0 {
        let earlier = pids_of(toks.drop_last());
        lemma_pids_of_positive(toks.drop_last());
        assert forall|i: int| 0 <= i < pids_of(toks).len() implies #[trigger] pids_of(toks)[i]
            >= 1 by {
            if i < earlier.len() {
                assert(pids_of(toks)[i] == earlier[i]);
            }
        }
    }
}

/// Reads the token `chars[start..end]` as a process identifier.
pub fn parse_pid(chars: &[char], start: usize, end: usize) -> (r: Option<i32>)
    requires
        start <= end <= chars.len(),
    ensures
        r == pid_of_token(chars@.subrange(start as int, end as int)),
        r matches Some(pid) ==> pid >= 1,
{
    let ghost token = chars@.subrange(start as int, end as int);
    if start == end {
        return None;
    }
    let first: char = chars[start];
    let from: usize = if first == '+' { start + 1 } else { start };
    let ghost digits = chars@.subrange(from as int, end as int);
    assert(digits =~= digits_of(token));
    if from == end {
        return None;
    }
    let mut value: u64 = 0;
    let mut i: usize = from;
    while i < end
        invariant
            start <= from <= i <= end <= chars.len(),
            token == chars@.subrange(start as int, end as int),
            digits == chars@.subrange(from as int, end as int),
            digits == digits_of(token),
            all_digits(digits.take(i - from)),
            value == capped(decimal_value(digits.take(i - from))),
        decreases end - i,
    {
        let c: char = chars[i];
        let u: u32 = c as u32;
        let ghost seen = digits.take(i - from);
        let ghost next = digits.take(i + 1 - from);
        if u < 0x30 || u > 0x39 {
            assert(!is_digit(digits[i - from]));
            return None;
        }
        proof {
            assert(next.drop_last() =~= seen);
            assert(next.last() == chars@[i as int]);
            lemma_decimal_value_nonnegative(seen);
        }
        if value < VALUE_CAP {
            let sum: u64 = value * 10 + (u - 0x30) as u64;
            value = if sum < VALUE_CAP { sum } else { VALUE_CAP };
        }
        i = i + 1;
    }
    assert(digits.take(end - from) =~= digits);
    if 1 <= value && value < VALUE_CAP {
        Some(value as i32)
    } else {
        None
    }
}

/// A run of `n` non-space characters that ends the text or is followed by a
/// space is the first token.
proof fn lemma_token_len(s: Seq<char>, n: int)
    requires
        0 <= n <= s.len(),
        forall|k: int| 0 <= k < n ==> !is_space(#[trigger] s[k]),
        n == s.len() || is_space(s[n]),
    ensures
        token_len(s) == n,
    decreases n,
{
    if n > 0 {
        lemma_token_len(s.skip(1), n - 1);
    }
}

/// The process identifiers listed in a text that is given character by
/// character.
pub fn pids_in_chars(chars: &[char]) -> (pids: Vec<i32>)
    ensures
        pids@ == pids_in(chars@),
        forall|i: int| 0 <= i < pids@.len() ==> #[trigger] pids@[i] >= 1,
{
    let n = chars.len();
    let mut pids: Vec<i32> = Vec::new();
    let ghost mut done: Seq<Seq<char>> = Seq::empty();
    let mut i: usize = 0;
    assert(chars@.skip(0) =~= chars@);
    while i < n
        invariant
            i <= n == chars.len(),
            tokens(chars@) == done + tokens(chars@.skip(i as int)),
            pids@ == pids_of(done),
        decreases n - i,
    {
        let ghost rest = chars@.skip(i as int);
        if is_space_char(chars[i]) {
            assert(rest.skip(1) =~= chars@.skip(i + 1));
            i = i + 1;
        } else {
            let start = i;
            i = i + 1;
            while i < n && !is_space_char(chars[i])
                invariant
                    start < i <= n == chars.len(),
                    forall|k: int| start <= k < i ==> !is_space(#[trigger] chars@[k]),
                decreases n - i,
            {
                i = i + 1;
            }
            let pid = parse_pid(chars, start, i);
            proof {
                let token = chars@.subrange(start as int, i as int);
                lemma_token_len(rest, i - start);
                assert(rest.take(i - start) =~= token);
                assert(rest.skip(i - start) =~= chars@.skip(i as int));
                assert(done + (seq![token] + tokens(chars@.skip(i as int))) =~= done.push(token)
                    + tokens(chars@.skip(i as int)));
                assert(done.push(token).drop_last() =~= done);
                done = done.push(token);
            }
            match pid {
                Some(p) => {
                    pids.push(p);
                },
                None => {},
            }
        }
    }
    assert(done + tokens(chars@.skip(n as int)) =~= done);
    proof {
        lemma_pids_of_positive(done);
    }
    pids
}

/// The process identifiers listed in a text.
pub fn pids_in_text(text: &str) -> (pids: Vec<i32>)
    ensures
        pids@ == pids_in(text@),
        forall|i: int| 0 <= i < pids@.len() ==> #[trigger] pids@[i] >= 1,
{
    let mut chars: Vec<char> = Vec::new();
    for c in it: text.chars()
        invariant
            it.seq() == text@,
            chars@ == text@.take(it.index()),
    {
        chars.push(c);
    }
    assert(chars@ =~= text@);
    pids_in_chars(chars.as_slice())
}

} // verus!
