//! Decimal integers as text: reading them, writing them, and the
//! whitespace that may surround them.

use vstd::prelude::*;
use vstd::std_specs::iter::IteratorSpec;
use vstd::string::*;

verus! {

/// Why a piece of text is not a decimal integer of the wanted width.
#[derive(Clone, Copy, Debug, PartialEq, Eq, Structural)]
pub enum IntFault {
    /// The text has no characters at all.
    Empty,
    /// A character is not a decimal digit, or a sign stands alone.
    InvalidDigit,
    /// The digits denote a number above the largest of the type.
    PosOverflow,
    /// The digits denote a number below the smallest of the type.
    NegOverflow,
}

pub open spec fn is_digit(c: char) -> bool {
    0x30 <= (c as u32) <= 0x39
}

pub open spec fn digit_value(c: char) -> nat {
    ((c as u32) - 0x30) as nat
}

/// The number that a run of decimal digits denotes, most significant first.
pub open spec fn digits_value(s: Seq<char>) -> nat
    decreases s.len(),
{
    if s.len() == 0 {
        0
    } else {
        digits_value(s.drop_last()) * 10 + digit_value(s.last())
    }
}

pub open spec fn all_digits(s: Seq<char>) -> bool {
    forall|i: int| 0 <= i < s.len() ==> is_digit(#[trigger] s[i])
}

/// Some prefix made of digits alone already denotes more than `max`.
pub open spec fn exceeds(body: Seq<char>, max: nat) -> bool {
    exists|k: int|
        0 <= k <= body.len() && all_digits(#[trigger] body.take(k)) && digits_value(body.take(k))
            > max
}

/// What reading `body` as an unsigned magnitude of at most `max` gives.
/// Reading goes left to right and stops at the first fault, so a magnitude
/// that grows too large is reported before a bad character that follows it.
pub open spec fn magnitude_outcome(body: Seq<char>, max: nat, overflow: IntFault) -> Result<
    nat,
    IntFault,
> {
    if body.len() == 0 {
        Err(IntFault::InvalidDigit)
    } else if exceeds(body, max) {
        Err(overflow)
    } else if !all_digits(body) {
        Err(IntFault::InvalidDigit)
    } else {
        Ok(digits_value(body))
    }
}

/// The text after one leading `+`, if there is one.
pub open spec fn without_plus(s: Seq<char>) -> Seq<char> {
    if s.len() > 0 && s[0] == '+' {
        s.skip(1)
    } else {
        s
    }
}

/// The grammar of an unsigned 64-bit decimal: an optional `+`, then digits.
pub open spec fn spec_parse_u64(s: Seq<char>) -> Result<u64, IntFault> {
    if s.len() == 0 {
        Err(IntFault::Empty)
    } else {
        match magnitude_outcome(without_plus(s), u64::MAX as nat, IntFault::PosOverflow) {
            Ok(n) => Ok(n as u64),
            Err(e) => Err(e),
        }
    }
}

/// The grammar of a signed 32-bit decimal: an optional `+` or `-`, then digits.
pub open spec fn spec_parse_i32(s: Seq<char>) -> Result<i32, IntFault> {
    if s.len() == 0 {
        Err(IntFault::Empty)
    } else if s[0] == '-' {
        match magnitude_outcome(s.skip(1), 0x8000_0000, IntFault::NegOverflow) {
            Ok(n) => Ok((-(n as int)) as i32),
            Err(e) => Err(e),
        }
    } else {
        match magnitude_outcome(without_plus(s), 0x7fff_ffff, IntFault::PosOverflow) {
            Ok(n) => Ok(n as i32),
            Err(e) => Err(e),
        }
    }
}

/// A longer run of digits never denotes less than one of its prefixes.
pub proof fn lemma_prefix_value_grows(s: Seq<char>, k: int)
    requires
        0 <= k <= s.len(),
    ensures
        digits_value(s.take(k)) <= digits_value(s),
    decreases s.len(),
{
    if k == s.len() {
        assert(s.take(k) =~= s);
    } else {
        assert(s.drop_last().take(k) =~= s.take(k));
        lemma_prefix_value_grows(s.drop_last(), k);
    }
}

/// The characters of `s`, in order.
pub fn chars_of(s: &str) -> (v: Vec<char>)
    ensures
        v@ == s@,
{
    let mut v: Vec<char> = Vec::new();
    let mut rest = s.chars();
    loop
        invariant
            rest.obeys_prophetic_iter_laws(),
            rest.decrease() is Some,
            v@ + rest.remaining() == s@,
        ensures
            v@ == s@,
        decreases rest.decrease()->0,
    {
        let ghost before = rest.remaining();
        match rest.next() {
            Some(c) => {
                v.push(c);
                assert(v@ + rest.remaining() =~= (v@.drop_last() + before));
            },
            None => {
                assert(v@ + before =~= v@);
                break;
            },
        }
    }
    v
}

fn is_digit_char(c: char) -> (b: bool)
    ensures
        b == is_digit(c),
{
    let u: u32 = c as u32;
    0x30 <= u && u <= 0x39
}

/// Reads `chars[start..end]` as a magnitude of at most `max`.
fn scan_magnitude(chars: &Vec<char>, start: usize, end: usize, max: u64, overflow: IntFault) -> (r:
    Result<u64, IntFault>)
    requires
        start <= end <= chars.len(),
    ensures
        match magnitude_outcome(chars@.subrange(start as int, end as int), max as nat, overflow) {
            Ok(n) => r == Ok::<u64, IntFault>(n as u64) && n <= max,
            Err(e) => r == Err::<u64, IntFault>(e),
        },
{
    let ghost body = chars@.subrange(start as int, end as int);
    if start == end {
        return Err(IntFault::InvalidDigit);
    }
    let mut acc: u64 = 0;
    let mut i: usize = start;
    while i < end
        invariant
            start <= i <= end <= chars.len(),
            body == chars@.subrange(start as int, end as int),
            all_digits(body.take(i - start)),
            acc == digits_value(body.take(i - start)),
            acc <= max,
        decreases end - i,
    {
        let c = chars[i];
        let ghost k = i - start;
        assert(body[k] == c);
        if !is_digit_char(c) {
            proof {
                assert(!all_digits(body));
                assert forall|j: int|
                    0 <= j <= body.len() && all_digits(#[trigger] body.take(j)) implies digits_value(
                    body.take(j),
                ) <= max by {
                    if j > k {
                        assert(body.take(j)[k] == c);
                    } else {
                        assert(body.take(k).take(j) =~= body.take(j));
                        lemma_prefix_value_grows(body.take(k), j);
                    }
                }
            }
            return Err(IntFault::InvalidDigit);
        }
        let d: u128 = (c as u32 - 0x30) as u128;
        let next: u128 = (acc as u128) * 10 + d;
        proof {
            assert(body.take(k + 1).drop_last() =~= body.take(k));
            assert(body.take(k + 1).last() == c);
            assert(next == digits_value(body.take(k + 1)));
            assert forall|j: int| 0 <= j < body.take(k + 1).len() implies is_digit(
                #[trigger] body.take(k + 1)[j],
            ) by {
                if j < k {
                    assert(body.take(k)[j] == body.take(k + 1)[j]);
                }
            }
        }
        if next > max as u128 {
            return Err(overflow);
        }
        acc = next as u64;
        i += 1;
    }
    proof {
        assert(body.take(end - start) =~= body);
        assert forall|j: int|
            0 <= j <= body.len() && all_digits(#[trigger] body.take(j)) implies digits_value(
            body.take(j),
        ) <= max by {
            lemma_prefix_value_grows(body, j);
        }
    }
    Ok(acc)
}

/// Reads an unsigned 64-bit decimal.
pub fn parse_u64(s: &str) -> (r: Result<u64, IntFault>)
    ensures
        r == spec_parse_u64(s@),
{
    let chars = chars_of(s);
    let n = chars.len();
    if n == 0 {
        return Err(IntFault::Empty);
    }
    let start: usize = if chars[0] == '+' {
        1
    } else {
        0
    };
    assert(chars@.subrange(start as int, n as int) =~= without_plus(s@));
    scan_magnitude(&chars, start, n, u64::MAX, IntFault::PosOverflow)
}

/// Reads `chars[start..end]` as a signed 32-bit decimal.
fn scan_i32(chars: &Vec<char>, start: usize, end: usize) -> (r: Result<i32, IntFault>)
    requires
        start <= end <= chars.len(),
    ensures
        r == spec_parse_i32(chars@.subrange(start as int, end as int)),
{
    let ghost text = chars@.subrange(start as int, end as int);
    if start == end {
        return Err(IntFault::Empty);
    }
    assert(text[0] == chars@[start as int]);
    if chars[start] == '-' {
        assert(chars@.subrange(start + 1, end as int) =~= text.skip(1));
        match scan_magnitude(chars, start + 1, end, 0x8000_0000, IntFault::NegOverflow) {
            Ok(n) => {
                let wide: i64 = -(n as i64);
                Ok(wide as i32)
            },
            Err(e) => Err(e),
        }
    } else {
        let from: usize = if chars[start] == '+' {
            start + 1
        } else {
            start
        };
        assert(chars@.subrange(from as int, end as int) =~= without_plus(text));
        match scan_magnitude(chars, from, end, 0x7fff_ffff, IntFault::PosOverflow) {
            Ok(n) => Ok(n as i32),
            Err(e) => Err(e),
        }
    }
}

/// Reads a signed 32-bit decimal.
pub fn parse_i32(s: &str) -> (r: Result<i32, IntFault>)
    ensures
        r == spec_parse_i32(s@),
{
    let chars = chars_of(s);
    assert(chars@.subrange(0, chars@.len() as int) =~= s@);
    scan_i32(&chars, 0, chars.len())
}

/// The characters with the Unicode property `White_Space`.
pub open spec fn is_whitespace(c: char) -> bool {
    let u = c as u32;
    ||| 0x09 <= u <= 0x0D
    ||| u == 0x20
    ||| u == 0x85
    ||| u == 0xA0
    ||| u == 0x1680
    ||| 0x2000 <= u <= 0x200A
    ||| u == 0x2028
    ||| u == 0x2029
    ||| u == 0x202F
    ||| u == 0x205F
    ||| u == 0x3000
}

/// How many whitespace characters `s` starts with.
pub open spec fn leading_whitespace(s: Seq<char>) -> nat
    decreases s.len(),
{
    if s.len() > 0 && is_whitespace(s[0]) {
        1 + leading_whitespace(s.drop_first())
    } else {
        0
    }
}

/// How many whitespace characters `s` ends with.
pub open spec fn trailing_whitespace(s: Seq<char>) -> nat
    decreases s.len(),
{
    if s.len() > 0 && is_whitespace(s.last()) {
        1 + trailing_whitespace(s.drop_last())
    } else {
        0
    }
}

/// `s` without the whitespace at its two ends.
pub open spec fn trimmed(s: Seq<char>) -> Seq<char> {
    let rest = s.skip(leading_whitespace(s) as int);
    rest.take(rest.len() - trailing_whitespace(rest))
}

proof fn lemma_leading_whitespace(s: Seq<char>, k: int)
    requires
        0 <= k <= s.len(),
        forall|j: int| 0 <= j < k ==> is_whitespace(#[trigger] s[j]),
        k < s.len() ==> !is_whitespace(s[k]),
    ensures
        leading_whitespace(s) == k,
    decreases k,
{
    if k > 0 {
        let t = s.drop_first();
        assert forall|j: int| 0 <= j < k - 1 implies is_whitespace(#[trigger] t[j]) by {
            assert(t[j] == s[j + 1]);
        }
        if k - 1 < t.len() {
            assert(t[k - 1] == s[k]);
        }
        lemma_leading_whitespace(t, k - 1);
    }
}

proof fn lemma_trailing_whitespace(s: Seq<char>, k: int)
    requires
        0 <= k <= s.len(),
        forall|j: int| s.len() - k <= j < s.len() ==> is_whitespace(#[trigger] s[j]),
        k < s.len() ==> !is_whitespace(s[s.len() - k - 1]),
    ensures
        trailing_whitespace(s) == k,
    decreases k,
{
    if k > 0 {
        let t = s.drop_last();
        assert forall|j: int| t.len() - (k - 1) <= j < t.len() implies is_whitespace(
            #[trigger] t[j],
        ) by {
            assert(t[j] == s[j]);
        }
        if k - 1 < t.len() {
            assert(t[t.len() - (k - 1) - 1] == s[s.len() - k - 1]);
        }
        lemma_trailing_whitespace(t, k - 1);
    }
}

fn is_whitespace_char(c: char) -> (b: bool)
    ensures
        b == is_whitespace(c),
{
    let u: u32 = c as u32;
    (0x09 <= u && u <= 0x0D) || u == 0x20 || u == 0x85 || u == 0xA0 || u == 0x1680 || (0x2000 <= u
        && u <= 0x200A) || u == 0x2028 || u == 0x2029 || u == 0x202F || u == 0x205F || u == 0x3000
}

/// Reads a signed 32-bit decimal that whitespace may surround.
pub fn parse_trimmed_i32(s: &str) -> (r: Result<i32, IntFault>)
    ensures
        r == spec_parse_i32(trimmed(s@)),
{
    let chars = chars_of(s);
    let n = chars.len();
    let mut a: usize = 0;
    while a < n && is_whitespace_char(chars[a])
        invariant
            a <= n == chars.len(),
            forall|j: int| 0 <= j < a ==> is_whitespace(#[trigger] chars@[j]),
        decreases n - a,
    {
        a += 1;
    }
    let mut b: usize = n;
    while b > a && is_whitespace_char(chars[b - 1])
        invariant
            a <= b <= n == chars.len(),
            forall|j: int| b <= j < n ==> is_whitespace(#[trigger] chars@[j]),
        decreases b,
    {
        b -= 1;
    }
    proof {
        lemma_leading_whitespace(chars@, a as int);
        let rest = chars@.skip(a as int);
        assert forall|j: int| rest.len() - (n - b) <= j < rest.len() implies is_whitespace(
            #[trigger] rest[j],
        ) by {
            assert(rest[j] == chars@[j + a]);
        }
        if n - b < rest.len() {
            assert(rest[rest.len() - (n - b) - 1] == chars@[b - 1]);
        }
        lemma_trailing_whitespace(rest, (n - b) as int);
        assert(chars@.subrange(a as int, b as int) =~= trimmed(s@));
    }
    scan_i32(&chars, a, b)
}

/// The character that writes the digit `d`.
pub open spec fn digit_char(d: nat) -> char {
    if d == 0 {
        '0'
    } else if d == 1 {
        '1'
    } else if d == 2 {
        '2'
    } else if d == 3 {
        '3'
    } else if d == 4 {
        '4'
    } else if d == 5 {
        '5'
    } else if d == 6 {
        '6'
    } else if d == 7 {
        '7'
    } else if d == 8 {
        '8'
    } else {
        '9'
    }
}

/// `n` written in decimal, without leading zeros.
pub open spec fn decimal_text(n: nat) -> Seq<char>
    decreases n,
{
    if n < 10 {
        seq![digit_char(n)]
    } else {
        decimal_text(n / 10).push(digit_char(n % 10))
    }
}

/// `v` written in decimal, with a `-` in front where it is negative.
pub open spec fn signed_decimal_text(v: int) -> Seq<char> {
    if v < 0 {
        seq!['-'] + decimal_text((-v) as nat)
    } else {
        decimal_text(v as nat)
    }
}

fn digit_str(d: u64) -> (s: &'static str)
    requires
        d < 10,
    ensures
        s@ == seq![digit_char(d as nat)],
{
    proof {
        reveal_strlit("0");
        reveal_strlit("1");
        reveal_strlit("2");
        reveal_strlit("3");
        reveal_strlit("4");
        reveal_strlit("5");
        reveal_strlit("6");
        reveal_strlit("7");
        reveal_strlit("8");
        reveal_strlit("9");
    }
    let s = if d == 0 {
        "0"
    } else if d == 1 {
        "1"
    } else if d == 2 {
        "2"
    } else if d == 3 {
        "3"
    } else if d == 4 {
        "4"
    } else if d == 5 {
        "5"
    } else if d == 6 {
        "6"
    } else if d == 7 {
        "7"
    } else if d == 8 {
        "8"
    } else {
        "9"
    };
    assert(s@ =~= seq![digit_char(d as nat)]);
    s
}

/// Writes `n` in decimal.
pub fn render_u64(n: u64) -> (s: String)
    ensures
        s@ == decimal_text(n as nat),
    decreases n,
{
    if n < 10 {
        String::from_str(digit_str(n))
    } else {
        let mut s = render_u64(n / 10);
        s.append(digit_str(n % 10));
        assert(s@ =~= decimal_text(n as nat));
        s
    }
}

/// Writes `v` in decimal.
pub fn render_i32(v: i32) -> (s: String)
    ensures
        s@ == signed_decimal_text(v as int),
{
    if v < 0 {
        let magnitude: u64 = (-(v as i64)) as u64;
        let digits = render_u64(magnitude);
        let mut s = String::from_str("-");
        proof {
            reveal_strlit("-");
            assert("-"@ =~= seq!['-']);
        }
        s.append(digits.as_str());
        s
    } else {
        render_u64(v as u64)
    }
}

} // verus!
