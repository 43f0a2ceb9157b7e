use vstd::prelude::*;
use vstd::string::*;
use crate::text::chars_of;

verus! {

/// Why reading an unsigned integer from text failed; the kinds of
/// `core::num::ParseIntError` that an unsigned type can give.
#[derive(Clone, Copy, Debug, PartialEq, Eq, Structural)]
pub enum IntErrorKind {
    Empty,
    InvalidDigit,
    PosOverflow,
}

impl IntErrorKind {
    /// The text of the error as `ParseIntError` displays it.
    pub open spec fn spec_message(self) -> Seq<char> {
        match self {
            IntErrorKind::Empty => "cannot parse integer from empty string"@,
            IntErrorKind::InvalidDigit => "invalid digit found in string"@,
            IntErrorKind::PosOverflow => "number too large to fit in target type"@,
        }
    }

    pub fn message(&self) -> (r: String)
        ensures
            r@ == self.spec_message(),
    {
        match self {
            IntErrorKind::Empty => String::from_str("cannot parse integer from empty string"),
            IntErrorKind::InvalidDigit => String::from_str("invalid digit found in string"),
            IntErrorKind::PosOverflow => String::from_str("number too large to fit in target type"),
        }
    }
}

pub open spec fn is_digit(c: char) -> bool {
    '0' <= c <= '9'
}

pub open spec fn digit_value(c: char) -> nat {
    (c as int - '0' as int) as nat
}

/// Reading the digits `d[i..]` left to right after the value `acc`: the
/// first character that is no digit fails, and so does the first digit after
/// which the value passes `max`.
pub open spec fn scan_digits(d: Seq<char>, i: int, acc: nat, max: nat) -> Result<nat, IntErrorKind>
    decreases d.len() - i,
{
    if i < 0 || i >= d.len() {
        Ok(acc)
    } else if !is_digit(d[i]) {
        Err(IntErrorKind::InvalidDigit)
    } else if acc * 10 + digit_value(d[i]) > max {
        Err(IntErrorKind::PosOverflow)
    } else {
        scan_digits(d, i + 1, acc * 10 + digit_value(d[i]), max)
    }
}

/// `str::parse` for an unsigned integer type whose largest value is `max`:
/// an optional `+`, then decimal digits.
pub open spec fn parse_unsigned(s: Seq<char>, max: nat) -> Result<nat, IntErrorKind> {
    if s.len() == 0 {
        Err(IntErrorKind::Empty)
    } else if s.len() == 1 && (s[0] == '+' || s[0] == '-') {
        Err(IntErrorKind::InvalidDigit)
    } else if s[0] == '+' {
        scan_digits(s.drop_first(), 0, 0, max)
    } else {
        scan_digits(s, 0, 0, max)
    }
}

/// `str::parse` for an unsigned type whose largest value is `max`.
pub fn parse_unsigned_max(s: &str, max: u64) -> (r: Result<u64, IntErrorKind>)
    ensures
        match r {
            Ok(n) => parse_unsigned(s@, max as nat) == Ok::<nat, IntErrorKind>(n as nat),
            Err(e) => parse_unsigned(s@, max as nat) == Err::<nat, IntErrorKind>(e),
        },
        r matches Ok(n) ==> n <= max,
{
    let v = chars_of(s);
    let n = v.len();
    if n == 0 {
        return Err(IntErrorKind::Empty);
    }
    if n == 1 && (v[0] == '+' || v[0] == '-') {
        return Err(IntErrorKind::InvalidDigit);
    }
    let start: usize = if v[0] == '+' { 1 } else { 0 };
    let ghost d = v@.subrange(start as int, n as int);
    assert(start == 1 ==> d =~= v@.drop_first());
    assert(start == 0 ==> d =~= v@);
    assert(parse_unsigned(s@, max as nat) == scan_digits(d, 0, 0, max as nat));
    let mut acc: u64 = 0;
    let mut i: usize = start;
    while i < n
        invariant
            n == v@.len(),
            v@ == s@,
            parse_unsigned(s@, max as nat) == scan_digits(d, 0, 0, max as nat),
            start <= i <= n,
            d == v@.subrange(start as int, n as int),
            acc <= max,
            scan_digits(d, i - start, acc as nat, max as nat) == scan_digits(d, 0, 0, max as nat),
        decreases n - i,
    {
        let c = v[i];
        assert(d[i - start] == c);
        if !('0' <= c && c <= '9') {
            return Err(IntErrorKind::InvalidDigit);
        }
        let dv = (c as u32 - '0' as u32) as u64;
        let next: u128 = acc as u128 * 10 + dv as u128;
        if next > max as u128 {
            return Err(IntErrorKind::PosOverflow);
        }
        acc = next as u64;
        i = i + 1;
    }
    Ok(acc)
}

/// `str::parse::<u64>`.
pub fn parse_u64(s: &str) -> (r: Result<u64, IntErrorKind>)
    ensures
        match r {
            Ok(n) => parse_unsigned(s@, u64::MAX as nat) == Ok::<nat, IntErrorKind>(n as nat),
            Err(e) => parse_unsigned(s@, u64::MAX as nat) == Err::<nat, IntErrorKind>(e),
        },
{
    parse_unsigned_max(s, u64::MAX)
}

/// `str::parse::<u32>`.
pub fn parse_u32(s: &str) -> (r: Result<u32, IntErrorKind>)
    ensures
        match r {
            Ok(n) => parse_unsigned(s@, u32::MAX as nat) == Ok::<nat, IntErrorKind>(n as nat),
            Err(e) => parse_unsigned(s@, u32::MAX as nat) == Err::<nat, IntErrorKind>(e),
        },
{
    match parse_unsigned_max(s, u32::MAX as u64) {
        Ok(n) => Ok(n as u32),
        Err(e) => Err(e),
    }
}

/// `str::parse::<usize>`.
pub fn parse_usize(s: &str) -> (r: Result<usize, IntErrorKind>)
    ensures
        match r {
            Ok(n) => parse_unsigned(s@, usize::MAX as nat) == Ok::<nat, IntErrorKind>(n as nat),
            Err(e) => parse_unsigned(s@, usize::MAX as nat) == Err::<nat, IntErrorKind>(e),
        },
{
    match parse_unsigned_max(s, usize::MAX as u64) {
        Ok(n) => Ok(n as usize),
        Err(e) => Err(e),
    }
}

/// The decimal digit for `d < 10`.
pub open spec fn digit_char(d: nat) -> char {
    (('0' as nat) + d) as char
}

/// `n` written in decimal, as `Display` writes an unsigned integer.
pub open spec fn decimal(n: nat) -> Seq<char>
    decreases n,
{
    if n < 10 {
        seq![digit_char(n)]
    } else {
        decimal(n / 10).push(digit_char(n % 10))
    }
}

/// `n.to_string()` for a `u64`.
pub fn u64_to_text(n: u64) -> (r: String)
    ensures
        r@ == decimal(n as nat),
    decreases n,
{
    let digits = "0123456789";
    proof {
        reveal_strlit("0123456789");
    }
    if n < 10 {
        let d = n as usize;
        String::from_str(digits.substring_char(d, d + 1))
    } else {
        let d = (n % 10) as usize;
        let head = u64_to_text(n / 10);
        let r = head.concat(digits.substring_char(d, d + 1));
        assert(r@ =~= decimal(n as nat));
        r
    }
}


/// One more character `c` read after the value `v`.
pub open spec fn scan_step(v: nat, c: char, max: nat) -> Result<nat, IntErrorKind> {
    if !is_digit(c) {
        Err(IntErrorKind::InvalidDigit)
    } else if v * 10 + digit_value(c) > max {
        Err(IntErrorKind::PosOverflow)
    } else {
        Ok(v * 10 + digit_value(c))
    }
}

proof fn lemma_scan_push(d: Seq<char>, c: char, i: int, acc: nat, max: nat, v: nat)
    requires
        0 <= i <= d.len(),
        scan_digits(d, i, acc, max) == Ok::<nat, IntErrorKind>(v),
    ensures
        scan_digits(d.push(c), i, acc, max) == scan_step(v, c, max),
    decreases d.len() - i,
{
    let e = d.push(c);
    assert(e[i] == (if i < d.len() { d[i] } else { c }));
    if i < d.len() {
        lemma_scan_push(d, c, i + 1, acc * 10 + digit_value(d[i]), max, v);
    } else {
        assert(scan_digits(e, i + 1, acc * 10 + digit_value(c), max) == Ok::<nat, IntErrorKind>(
            acc * 10 + digit_value(c),
        ));
    }
}

proof fn lemma_digit_char(d: nat)
    requires
        d < 10,
    ensures
        is_digit(digit_char(d)),
        digit_value(digit_char(d)) == d,
{
}

proof fn lemma_decimal_digits(n: nat)
    ensures
        decimal(n).len() >= 1,
        forall|k: int| 0 <= k < decimal(n).len() ==> is_digit(#[trigger] decimal(n)[k]),
    decreases n,
{
    if n < 10 {
        lemma_digit_char(n);
    } else {
        lemma_decimal_digits(n / 10);
        lemma_digit_char(n % 10);
    }
}

proof fn lemma_scan_decimal(n: nat, max: nat)
    requires
        n <= max,
    ensures
        scan_digits(decimal(n), 0, 0, max) == Ok::<nat, IntErrorKind>(n),
    decreases n,
{
    lemma_digit_char(n % 10);
    if n < 10 {
        assert(scan_digits(decimal(n), 1, n, max) == Ok::<nat, IntErrorKind>(n));
    } else {
        lemma_scan_decimal(n / 10, max);
        lemma_decimal_digits(n / 10);
        lemma_scan_push(decimal(n / 10), digit_char(n % 10), 0, 0, max, n / 10);
    }
}

/// Reading back what `u64_to_text` writes gives the number again: for every
/// `n` that fits the type, `parse_unsigned(decimal(n)) == Ok(n)`.
pub proof fn law_decimal_roundtrip(n: nat, max: nat)
    requires
        n <= max,
    ensures
        parse_unsigned(decimal(n), max) == Ok::<nat, IntErrorKind>(n),
{
    lemma_decimal_digits(n);
    lemma_scan_decimal(n, max);
    assert(is_digit(decimal(n)[0]));
}

} // verus!
