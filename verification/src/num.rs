//! Decimal formatting and the integer grammar of `str::parse` for the
//! integer types the commands read.
use vstd::prelude::*;
use crate::text::{chars_of, push_char};

verus! {

/// Why an integer could not be read, as `std::num::IntErrorKind` reports it.
#[derive(Clone, Copy, Debug, PartialEq, Eq, Structural)]
pub enum IntErrorKind {
    Empty,
    InvalidDigit,
    PosOverflow,
    NegOverflow,
}

/// The decimal digit character for `d` in `0..10`.
pub open spec fn digit_char(d: int) -> char {
    if d == 0 { '0' } else if d == 1 { '1' } else if d == 2 { '2' } else if d == 3 { '3' }
    else if d == 4 { '4' } else if d == 5 { '5' } else if d == 6 { '6' } else if d == 7 { '7' }
    else if d == 8 { '8' } else { '9' }
}

/// Whether `c` is an ASCII decimal digit.
pub open spec fn is_digit(c: char) -> bool {
    '0' <= c && c <= '9'
}

/// The value of a decimal digit character.
pub open spec fn digit_value(c: char) -> int {
    (c as int) - ('0' as int)
}

/// Decimal digits of a natural number, most significant first, without
/// leading zeros ("0" for zero).
pub open spec fn nat_digits(n: nat) -> Seq<char>
    decreases n,
{
    if n < 10 {
        seq![digit_char(n as int)]
    } else {
        nat_digits(n / 10).push(digit_char((n % 10) as int))
    }
}

/// `Display` of an integer: an optional minus sign and its decimal digits.
pub open spec fn decimal(n: int) -> Seq<char> {
    if n < 0 {
        seq!['-'] + nat_digits((-n) as nat)
    } else {
        nat_digits(n as nat)
    }
}

/// The digit character for `d < 10`.
pub fn digit_to_char(d: u64) -> (c: char)
    requires
        d < 10,
    ensures
        c == digit_char(d as int),
{
    if d == 0 { '0' } else if d == 1 { '1' } else if d == 2 { '2' } else if d == 3 { '3' }
    else if d == 4 { '4' } else if d == 5 { '5' } else if d == 6 { '6' } else if d == 7 { '7' }
    else if d == 8 { '8' } else { '9' }
}

/// Decimal text of an unsigned integer.
pub fn u64_to_string(n: u64) -> (s: String)
    ensures
        s@ == nat_digits(n as nat),
{
    // Collect the digits least significant first, then emit them reversed.
    let mut rev: Vec<char> = Vec::new();
    let mut m = n;
    while m >= 10
        invariant
            nat_digits(n as nat) == nat_digits(m as nat) + rev@.reverse(),
        decreases m,
    {
        let d = m % 10;
        rev.push(digit_to_char(d));
        proof {
            let q = (m / 10) as nat;
            assert(nat_digits(m as nat) == nat_digits(q).push(digit_char((m % 10) as int)));
            assert(rev@.reverse() =~= seq![digit_char((m % 10) as int)] + rev@.drop_last().reverse());
        }
        m = m / 10;
    }
    rev.push(digit_to_char(m));
    assert(rev@.reverse() =~= seq![digit_char(m as int)] + rev@.drop_last().reverse());
    let mut s = String::new();
    let mut i = rev.len();
    while i > 0
        invariant
            i <= rev.len(),
            s@ =~= rev@.reverse().subrange(0, (rev.len() - i) as int),
        decreases i,
    {
        i = i - 1;
        push_char(&mut s, rev[i]);
    }
    assert(s@ =~= rev@.reverse());
    s
}

/// Decimal text of a signed integer, as `i64::to_string` writes it.
pub fn i64_to_string(n: i64) -> (s: String)
    ensures
        s@ == decimal(n as int),
{
    if n < 0 {
        let mag: u64 = if n == i64::MIN { 9223372036854775808u64 } else { (-n) as u64 };
        let digits = u64_to_string(mag);
        let mut s = String::new();
        push_char(&mut s, '-');
        s.append(digits.as_str());
        s
    } else {
        u64_to_string(n as u64)
    }
}


/// The digits after the sign, accumulated from `acc`, within `[lo, hi]`.
/// Reading stops at the first character that is not a digit or at the first
/// digit that leaves the range, whichever comes first, as `from_str` does.
pub open spec fn accumulate_digits(s: Seq<char>, acc: int, neg: bool, lo: int, hi: int) -> Result<int, IntErrorKind>
    decreases s.len(),
{
    if s.len() == 0 {
        Ok(acc)
    } else if !is_digit(s[0]) {
        Err(IntErrorKind::InvalidDigit)
    } else {
        let a = if neg { acc * 10 - digit_value(s[0]) } else { acc * 10 + digit_value(s[0]) };
        if a > hi {
            Err(IntErrorKind::PosOverflow)
        } else if a < lo {
            Err(IntErrorKind::NegOverflow)
        } else {
            accumulate_digits(s.drop_first(), a, neg, lo, hi)
        }
    }
}

/// The result of `str::parse` for an integer type with range `[lo, hi]`;
/// `signed` tells whether the type accepts a leading minus sign.
pub open spec fn parse_int(s: Seq<char>, lo: int, hi: int, signed: bool) -> Result<int, IntErrorKind> {
    if s.len() == 0 {
        Err(IntErrorKind::Empty)
    } else if s.len() == 1 && (s[0] == '+' || s[0] == '-') {
        Err(IntErrorKind::InvalidDigit)
    } else if s[0] == '+' {
        accumulate_digits(s.drop_first(), 0, false, lo, hi)
    } else if s[0] == '-' && signed {
        accumulate_digits(s.drop_first(), 0, true, lo, hi)
    } else {
        accumulate_digits(s, 0, false, lo, hi)
    }
}

/// A successful accumulation stays within its range.
pub proof fn lemma_accumulate_in_range(s: Seq<char>, acc: int, neg: bool, lo: int, hi: int)
    requires
        lo <= acc <= hi,
    ensures
        accumulate_digits(s, acc, neg, lo, hi) matches Ok(x) ==> lo <= x <= hi,
    decreases s.len(),
{
    if s.len() > 0 && is_digit(s[0]) {
        let a = if neg { acc * 10 - digit_value(s[0]) } else { acc * 10 + digit_value(s[0]) };
        if lo <= a <= hi {
            lemma_accumulate_in_range(s.drop_first(), a, neg, lo, hi);
        }
    }
}

/// A successful parse lies within the type's range.
pub proof fn lemma_parse_in_range(s: Seq<char>, lo: int, hi: int, signed: bool)
    requires
        lo <= 0 <= hi,
    ensures
        parse_int(s, lo, hi, signed) matches Ok(x) ==> lo <= x <= hi,
{
    if s.len() > 0 {
        lemma_accumulate_in_range(s.drop_first(), 0, false, lo, hi);
        lemma_accumulate_in_range(s.drop_first(), 0, true, lo, hi);
        lemma_accumulate_in_range(s, 0, false, lo, hi);
    }
}

/// One more digit read after a prefix.
pub open spec fn accumulate_step(r: Result<int, IntErrorKind>, c: char, neg: bool, lo: int, hi: int) -> Result<int, IntErrorKind> {
    match r {
        Err(e) => Err(e),
        Ok(acc) => if !is_digit(c) {
            Err(IntErrorKind::InvalidDigit)
        } else {
            let a = if neg { acc * 10 - digit_value(c) } else { acc * 10 + digit_value(c) };
            if a > hi {
                Err(IntErrorKind::PosOverflow)
            } else if a < lo {
                Err(IntErrorKind::NegOverflow)
            } else {
                Ok(a)
            }
        },
    }
}

/// Reading a sequence extended by one character reads the prefix, then one step.
pub proof fn lemma_accumulate_push(s: Seq<char>, c: char, acc: int, neg: bool, lo: int, hi: int)
    ensures
        accumulate_digits(s.push(c), acc, neg, lo, hi) == accumulate_step(accumulate_digits(s, acc, neg, lo, hi), c, neg, lo, hi),
    decreases s.len(),
{
    if s.len() == 0 {
        assert(s.push(c).drop_first() =~= Seq::<char>::empty());
        reveal_with_fuel(accumulate_digits, 2);
    } else {
        assert(s.push(c)[0] == s[0]);
        assert(s.push(c).drop_first() =~= s.drop_first().push(c));
        if is_digit(s[0]) {
            let a = if neg { acc * 10 - digit_value(s[0]) } else { acc * 10 + digit_value(s[0]) };
            lemma_accumulate_push(s.drop_first(), c, a, neg, lo, hi);
        }
    }
}

/// Digit characters are digits and read back as their value.
pub proof fn lemma_digit_char(d: int)
    requires
        0 <= d < 10,
    ensures
        is_digit(digit_char(d)),
        digit_value(digit_char(d)) == d,
{
}

/// The first character of a decimal expansion is a digit.
pub proof fn lemma_nat_digits_first(n: nat)
    ensures
        nat_digits(n).len() >= 1,
        is_digit(nat_digits(n)[0]),
    decreases n,
{
    if n < 10 {
        lemma_digit_char(n as int);
    } else {
        lemma_nat_digits_first(n / 10);
    }
}

/// Reading the decimal digits of `n` (with or without a leading minus) gives
/// back `n`, or `-n`.
pub proof fn lemma_accumulate_nat_digits(n: nat, neg: bool, lo: int, hi: int)
    requires
        lo <= 0 <= hi,
        neg ==> lo <= -n,
        !neg ==> n <= hi,
    ensures
        accumulate_digits(nat_digits(n), 0, neg, lo, hi) == Ok::<int, IntErrorKind>(if neg { -n } else { n as int }),
    decreases n,
{
    if n < 10 {
        lemma_digit_char(n as int);
        lemma_accumulate_push(Seq::<char>::empty(), digit_char(n as int), 0, neg, lo, hi);
        assert(seq![digit_char(n as int)] =~= Seq::<char>::empty().push(digit_char(n as int)));
    } else {
        let q = n / 10;
        let d = (n % 10) as int;
        lemma_digit_char(d);
        lemma_accumulate_nat_digits(q, neg, lo, hi);
        lemma_accumulate_push(nat_digits(q), digit_char(d), 0, neg, lo, hi);
    }
}

/// Parsing the decimal text of a value of an integer type gives the value back.
pub proof fn lemma_parse_decimal(n: int, lo: int, hi: int)
    requires
        lo <= n <= hi,
        lo <= 0 <= hi,
    ensures
        parse_int(decimal(n), lo, hi, lo < 0) == Ok::<int, IntErrorKind>(n),
{
    if n < 0 {
        let m = (-n) as nat;
        lemma_accumulate_nat_digits(m, true, lo, hi);
        lemma_nat_digits_first(m);
        assert((seq!['-'] + nat_digits(m)).drop_first() =~= nat_digits(m));
    } else {
        lemma_accumulate_nat_digits(n as nat, false, lo, hi);
        lemma_nat_digits_first(n as nat);
    }
}

/// The message `ParseIntError` displays for each kind.
pub open spec fn int_error_message(k: IntErrorKind) -> Seq<char> {
    match k {
        IntErrorKind::Empty => "cannot parse integer from empty string"@,
        IntErrorKind::InvalidDigit => "invalid digit found in string"@,
        IntErrorKind::PosOverflow => "number too large to fit in target type"@,
        IntErrorKind::NegOverflow => "number too small to fit in target type"@,
    }
}

/// The message of a parse error, as `ParseIntError::to_string` gives it.
pub fn int_error_text(k: IntErrorKind) -> (s: String)
    ensures
        s@ == int_error_message(k),
{
    match k {
        IntErrorKind::Empty => String::from_str("cannot parse integer from empty string"),
        IntErrorKind::InvalidDigit => String::from_str("invalid digit found in string"),
        IntErrorKind::PosOverflow => String::from_str("number too large to fit in target type"),
        IntErrorKind::NegOverflow => String::from_str("number too small to fit in target type"),
    }
}

/// Reads digits `v[start..]` into a value within `[lo, hi]`.
fn accumulate(v: &Vec<char>, start: usize, neg: bool, lo: i128, hi: i128) -> (r: Result<i128, IntErrorKind>)
    requires
        start <= v.len(),
        -0x1_0000_0000_0000_0000 <= lo <= 0 <= hi <= 0x1_0000_0000_0000_0000,
    ensures
        match r {
            Ok(x) => accumulate_digits(v@.subrange(start as int, v.len() as int), 0, neg, lo as int, hi as int) == Ok::<int, IntErrorKind>(x as int),
            Err(e) => accumulate_digits(v@.subrange(start as int, v.len() as int), 0, neg, lo as int, hi as int) == Err::<int, IntErrorKind>(e),
        },
{
    let ghost whole = v@.subrange(start as int, v.len() as int);
    let mut acc: i128 = 0;
    let mut i = start;
    while i < v.len()
        invariant
            start <= i <= v.len(),
            whole == v@.subrange(start as int, v.len() as int),
            lo <= acc <= hi,
            -0x1_0000_0000_0000_0000 <= lo <= 0 <= hi <= 0x1_0000_0000_0000_0000,
            accumulate_digits(whole, 0, neg, lo as int, hi as int)
                == accumulate_digits(v@.subrange(i as int, v.len() as int), acc as int, neg, lo as int, hi as int),
        decreases v.len() - i,
    {
        let ghost rest = v@.subrange(i as int, v.len() as int);
        assert(rest.len() > 0);
        assert(rest[0] == v@[i as int]);
        assert(rest.drop_first() =~= v@.subrange(i + 1, v.len() as int));
        let c = v[i];
        if !('0' <= c && c <= '9') {
            assert(!is_digit(rest[0]));
            return Err(IntErrorKind::InvalidDigit);
        }
        let d = (c as u32 - '0' as u32) as i128;
        assert(d == digit_value(rest[0]));
        let a = if neg { acc * 10 - d } else { acc * 10 + d };
        if a > hi {
            return Err(IntErrorKind::PosOverflow);
        }
        if a < lo {
            assert(accumulate_digits(rest, acc as int, neg, lo as int, hi as int) == Err::<int, IntErrorKind>(IntErrorKind::NegOverflow));
            return Err(IntErrorKind::NegOverflow);
        }
        acc = a;
        i = i + 1;
    }
    assert(v@.subrange(i as int, v.len() as int).len() == 0);
    Ok(acc)
}

/// `str::parse` for an integer type with range `[lo, hi]`.
pub fn parse_int_in(s: &str, lo: i128, hi: i128, signed: bool) -> (r: Result<i128, IntErrorKind>)
    requires
        -0x1_0000_0000_0000_0000 <= lo <= 0 <= hi <= 0x1_0000_0000_0000_0000,
    ensures
        match r {
            Ok(x) => parse_int(s@, lo as int, hi as int, signed) == Ok::<int, IntErrorKind>(x as int),
            Err(e) => parse_int(s@, lo as int, hi as int, signed) == Err::<int, IntErrorKind>(e),
        },
{
    let v = chars_of(s);
    let n = v.len();
    if n == 0 {
        return Err(IntErrorKind::Empty);
    }
    if n == 1 && (v[0] == '+' || v[0] == '-') {
        return Err(IntErrorKind::InvalidDigit);
    }
    if v[0] == '+' {
        assert(v@.subrange(1, n as int) =~= v@.drop_first());
        accumulate(&v, 1, false, lo, hi)
    } else if v[0] == '-' && signed {
        assert(v@.subrange(1, n as int) =~= v@.drop_first());
        accumulate(&v, 1, true, lo, hi)
    } else {
        assert(v@.subrange(0, n as int) =~= v@);
        accumulate(&v, 0, false, lo, hi)
    }
}

/// `str::parse::<i64>`.
pub fn parse_i64(s: &str) -> (r: Result<i64, IntErrorKind>)
    ensures
        match r {
            Ok(x) => parse_int(s@, i64::MIN as int, i64::MAX as int, true) == Ok::<int, IntErrorKind>(x as int),
            Err(e) => parse_int(s@, i64::MIN as int, i64::MAX as int, true) == Err::<int, IntErrorKind>(e),
        },
{
    match parse_int_in(s, i64::MIN as i128, i64::MAX as i128, true) {
        Ok(x) => {
            proof {
                lemma_parse_in_range(s@, i64::MIN as int, i64::MAX as int, true);
            }
            Ok(x as i64)
        },
        Err(e) => Err(e),
    }
}

/// `str::parse::<i32>`.
pub fn parse_i32(s: &str) -> (r: Result<i32, IntErrorKind>)
    ensures
        match r {
            Ok(x) => parse_int(s@, i32::MIN as int, i32::MAX as int, true) == Ok::<int, IntErrorKind>(x as int),
            Err(e) => parse_int(s@, i32::MIN as int, i32::MAX as int, true) == Err::<int, IntErrorKind>(e),
        },
{
    match parse_int_in(s, i32::MIN as i128, i32::MAX as i128, true) {
        Ok(x) => {
            proof {
                lemma_parse_in_range(s@, i32::MIN as int, i32::MAX as int, true);
            }
            Ok(x as i32)
        },
        Err(e) => Err(e),
    }
}

/// `str::parse::<u64>`.
pub fn parse_u64(s: &str) -> (r: Result<u64, IntErrorKind>)
    ensures
        match r {
            Ok(x) => parse_int(s@, 0, u64::MAX as int, false) == Ok::<int, IntErrorKind>(x as int),
            Err(e) => parse_int(s@, 0, u64::MAX as int, false) == Err::<int, IntErrorKind>(e),
        },
{
    match parse_int_in(s, 0, u64::MAX as i128, false) {
        Ok(x) => {
            proof {
                lemma_parse_in_range(s@, 0, u64::MAX as int, false);
            }
            Ok(x as u64)
        },
        Err(e) => Err(e),
    }
}

} // verus!
