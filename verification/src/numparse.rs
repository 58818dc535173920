//! Decimal reading and writing of unsigned integers, with the semantics of
//! `str::parse::<u16>()` / `str::parse::<u64>()` from the standard library.
use vstd::prelude::*;
use vstd::string::*;

verus! {

/// Why a string is not an unsigned decimal number (the standard library's
/// `IntErrorKind` restricted to the cases an unsigned parse can produce).
#[derive(Debug, Clone, Copy, PartialEq, Eq, Structural)]
pub enum IntErrorKind {
    /// The string is empty.
    Empty,
    /// The string holds a byte that is not an ASCII digit (or is a lone sign).
    InvalidDigit,
    /// The number does not fit in the target type.
    PosOverflow,
}

pub open spec fn is_digit(b: u8) -> bool {
    48 <= b <= 57
}

/// Reads `digits` left to right onto the value `acc`, as the standard
/// library does: the first byte that is no digit, or the first digit after
/// which the value exceeds `max`, decides the error.
pub open spec fn fold_digits(digits: Seq<u8>, acc: nat, max: nat) -> Result<nat, IntErrorKind>
    decreases digits.len(),
{
    if digits.len() == 0 {
        Ok(acc)
    } else if !is_digit(digits[0]) {
        Err(IntErrorKind::InvalidDigit)
    } else if acc * 10 + (digits[0] - 48) > max {
        Err(IntErrorKind::PosOverflow)
    } else {
        fold_digits(digits.drop_first(), (acc * 10 + (digits[0] - 48)) as nat, max)
    }
}

/// The result of parsing the bytes `src` as an unsigned decimal number no
/// larger than `max`: an optional leading `+`, then one or more digits.
pub open spec fn parse_unsigned(src: Seq<u8>, max: nat) -> Result<nat, IntErrorKind> {
    if src.len() == 0 {
        Err(IntErrorKind::Empty)
    } else if src.len() == 1 && (src[0] == 43 || src[0] == 45) {
        Err(IntErrorKind::InvalidDigit)
    } else if src[0] == 43 {
        fold_digits(src.drop_first(), 0, max)
    } else {
        fold_digits(src, 0, max)
    }
}

/// The decimal digits of `n`, most significant first, without leading zeros.
pub open spec fn decimal(n: nat) -> Seq<u8>
    decreases n,
{
    if n < 10 {
        seq![(n + 48) as u8]
    } else {
        decimal(n / 10).push((n % 10 + 48) as u8)
    }
}

/// Parses `bytes` as `parse_unsigned(bytes@, max)` does.
fn parse_bounded(bytes: &[u8], max: u64) -> (r: Result<u64, IntErrorKind>)
    ensures
        match r {
            Ok(v) => parse_unsigned(bytes@, max as nat) == Ok::<nat, IntErrorKind>(v as nat),
            Err(e) => parse_unsigned(bytes@, max as nat) == Err::<nat, IntErrorKind>(e),
        },
{
    let len = bytes.len();
    if len == 0 {
        return Err(IntErrorKind::Empty);
    }
    if len == 1 && (bytes[0] == 43 || bytes[0] == 45) {
        return Err(IntErrorKind::InvalidDigit);
    }
    let start: usize = if bytes[0] == 43 { 1 } else { 0 };
    let ghost digits = bytes@.skip(start as int);
    assert(start == 1 ==> digits =~= bytes@.drop_first());
    assert(start == 0 ==> digits =~= bytes@);
    assert(parse_unsigned(bytes@, max as nat) == fold_digits(digits, 0, max as nat));
    let mut acc: u64 = 0;
    let mut i: usize = start;
    while i < len
        invariant
            start <= i <= len,
            len == bytes@.len(),
            digits == bytes@.skip(start as int),
            parse_unsigned(bytes@, max as nat) == fold_digits(digits, 0, max as nat),
            acc <= max,
            fold_digits(digits, 0, max as nat) == fold_digits(
                bytes@.skip(i as int),
                acc as nat,
                max as nat,
            ),
        decreases len - i,
    {
        let b = bytes[i];
        assert(bytes@.skip(i as int)[0] == b);
        assert(bytes@.skip(i as int).drop_first() =~= bytes@.skip(i + 1));
        assert(bytes@.skip(i as int).len() > 0);
        if b < 48 || b > 57 {
            return Err(IntErrorKind::InvalidDigit);
        }
        let d: u64 = (b - 48) as u64;
        if d > max || acc > (max - d) / 10 {
            assert(acc * 10 + d > max) by (nonlinear_arith)
                requires
                    d > max || acc > (max - d) / 10,
                    d <= 9,
            ;
            return Err(IntErrorKind::PosOverflow);
        }
        assert(acc * 10 + d <= max) by (nonlinear_arith)
            requires
                acc <= (max - d) / 10,
                d <= 9,
        ;
        acc = acc * 10 + d;
        i = i + 1;
    }
    assert(bytes@.skip(i as int).len() == 0);
    Ok(acc)
}


/// One step of `fold_digits`: the value after reading the byte `c` onto `acc`.
pub open spec fn digit_step(acc: nat, c: u8, max: nat) -> Result<nat, IntErrorKind> {
    if !is_digit(c) {
        Err(IntErrorKind::InvalidDigit)
    } else if acc * 10 + (c - 48) > max {
        Err(IntErrorKind::PosOverflow)
    } else {
        Ok((acc * 10 + (c - 48)) as nat)
    }
}

proof fn lemma_fold_bounded(digits: Seq<u8>, acc: nat, max: nat)
    requires
        acc <= max,
    ensures
        fold_digits(digits, acc, max) matches Ok(v) ==> v <= max,
    decreases digits.len(),
{
    if digits.len() > 0 && is_digit(digits[0]) && acc * 10 + (digits[0] - 48) <= max {
        lemma_fold_bounded(digits.drop_first(), (acc * 10 + (digits[0] - 48)) as nat, max);
    }
}

/// Reading one more byte continues the fold from where it stood.
proof fn lemma_fold_push(digits: Seq<u8>, c: u8, acc: nat, max: nat)
    ensures
        fold_digits(digits.push(c), acc, max) == (match fold_digits(digits, acc, max) {
            Ok(v) => digit_step(v, c, max),
            Err(e) => Err(e),
        }),
    decreases digits.len(),
{
    if digits.len() == 0 {
        reveal_with_fuel(fold_digits, 2);
        assert(digits.push(c).drop_first() =~= Seq::<u8>::empty());
    } else {
        assert(digits.push(c).drop_first() =~= digits.drop_first().push(c));
        if is_digit(digits[0]) && acc * 10 + (digits[0] - 48) <= max {
            lemma_fold_push(digits.drop_first(), c, (acc * 10 + (digits[0] - 48)) as nat, max);
        }
    }
}

proof fn lemma_decimal_shape(n: nat)
    ensures
        decimal(n).len() >= 1,
        decimal(n)[0] != 43,
        decimal(n)[0] != 45,
        forall|i: int| 0 <= i < decimal(n).len() ==> is_digit(#[trigger] decimal(n)[i]),
    decreases n,
{
    if n >= 10 {
        lemma_decimal_shape(n / 10);
    }
}

proof fn lemma_fold_decimal(n: nat, max: nat)
    requires
        n <= max,
    ensures
        fold_digits(decimal(n), 0, max) == Ok::<nat, IntErrorKind>(n),
    decreases n,
{
    if n < 10 {
        reveal_with_fuel(fold_digits, 2);
        assert(decimal(n).drop_first() =~= Seq::<u8>::empty());
    } else {
        let q = n / 10;
        assert(q <= max);
        lemma_fold_decimal(q, max);
        lemma_fold_push(decimal(q), (n % 10 + 48) as u8, 0, max);
        assert(q * 10 + n % 10 == n);
    }
}

/// Writing a number in decimal and reading it back gives the number again:
/// an identifier printed by the library parses to the same identifier, for
/// every bound `max` the number fits under.
pub proof fn law_decimal_round_trip(n: nat, max: nat)
    requires
        n <= max,
    ensures
        parse_unsigned(decimal(n), max) == Ok::<nat, IntErrorKind>(n),
{
    lemma_decimal_shape(n);
    lemma_fold_decimal(n, max);
    if decimal(n).len() == 1 {
        assert(is_digit(decimal(n)[0]));
    }
}

proof fn lemma_fold_non_digit(digits: Seq<u8>, acc: nat, max: nat, j: int)
    requires
        0 <= j < digits.len(),
        !is_digit(digits[j]),
    ensures
        fold_digits(digits, acc, max) is Err,
    decreases digits.len(),
{
    if j > 0 && is_digit(digits[0]) && acc * 10 + (digits[0] - 48) <= max {
        lemma_fold_non_digit(digits.drop_first(), (acc * 10 + (digits[0] - 48)) as nat, max, j - 1);
    }
}

proof fn lemma_fold_decimal_overflow(n: nat, max: nat)
    requires
        n > max,
    ensures
        fold_digits(decimal(n), 0, max) == Err::<nat, IntErrorKind>(IntErrorKind::PosOverflow),
    decreases n,
{
    if n < 10 {
        assert(decimal(n).drop_first() =~= Seq::<u8>::empty());
    } else {
        let q = n / 10;
        lemma_fold_push(decimal(q), (n % 10 + 48) as u8, 0, max);
        assert(q * 10 + n % 10 == n);
        if q > max {
            lemma_fold_decimal_overflow(q, max);
        } else {
            lemma_fold_decimal(q, max);
        }
    }
}

/// A string holding any byte that is not a digit (other than a leading `+`
/// before at least one more byte) is refused.
pub proof fn law_parse_rejects_non_digits(src: Seq<u8>, max: nat, i: int)
    requires
        0 <= i < src.len(),
        !is_digit(src[i]),
        !(i == 0 && src[0] == 43 && src.len() > 1),
    ensures
        parse_unsigned(src, max) is Err,
{
    if src.len() >= 2 && src[0] == 43 {
        lemma_fold_non_digit(src.drop_first(), 0, max, i - 1);
    } else if src.len() >= 2 {
        lemma_fold_non_digit(src, 0, max, i);
    }
}

/// The empty string is refused as empty.
pub proof fn law_parse_empty(max: nat)
    ensures
        parse_unsigned(Seq::<u8>::empty(), max) == Err::<nat, IntErrorKind>(IntErrorKind::Empty),
{
}

/// A number above the bound is refused as an overflow.
pub proof fn law_parse_overflow(n: nat, max: nat)
    requires
        n > max,
    ensures
        parse_unsigned(decimal(n), max) == Err::<nat, IntErrorKind>(IntErrorKind::PosOverflow),
{
    lemma_decimal_shape(n);
    lemma_fold_decimal_overflow(n, max);
    if decimal(n).len() == 1 {
        assert(is_digit(decimal(n)[0]));
    }
}

/// A leading `+` or a leading zero does not change the number read.
pub proof fn law_parse_sign_and_zero(n: nat, max: nat)
    requires
        n <= max,
    ensures
        parse_unsigned(seq![43u8] + decimal(n), max) == Ok::<nat, IntErrorKind>(n),
        parse_unsigned(seq![48u8] + decimal(n), max) == Ok::<nat, IntErrorKind>(n),
{
    lemma_decimal_shape(n);
    lemma_fold_decimal(n, max);
    assert((seq![43u8] + decimal(n)).drop_first() =~= decimal(n));
    assert((seq![48u8] + decimal(n)).drop_first() =~= decimal(n));
    assert((seq![48u8] + decimal(n))[0] == 48u8);
}

/// Decimal digits are written without leading zeros: only zero itself
/// starts with the digit `0`.
pub proof fn law_decimal_canonical(n: nat)
    ensures
        decimal(n).len() >= 1,
        forall|i: int| 0 <= i < decimal(n).len() ==> is_digit(#[trigger] decimal(n)[i]),
        decimal(n)[0] == 48 <==> n == 0,
    decreases n,
{
    lemma_decimal_shape(n);
    if n >= 10 {
        law_decimal_canonical(n / 10);
        assert(decimal(n)[0] == decimal(n / 10)[0]);
    }
}

/// A parsed number never exceeds the bound it was parsed under.
pub proof fn law_parse_within_bound(src: Seq<u8>, max: nat)
    ensures
        parse_unsigned(src, max) matches Ok(v) ==> v <= max,
{
    if src.len() >= 1 && src[0] == 43 {
        lemma_fold_bounded(src.drop_first(), 0, max);
    } else {
        lemma_fold_bounded(src, 0, max);
    }
}

/// `s.parse::<u16>()`: an optional `+` followed by decimal digits whose
/// value is at most 65535.
pub fn parse_u16(s: &str) -> (r: Result<u16, IntErrorKind>)
    ensures
        match r {
            Ok(v) => parse_unsigned(s.spec_bytes(), 0xffff) == Ok::<nat, IntErrorKind>(v as nat),
            Err(e) => parse_unsigned(s.spec_bytes(), 0xffff) == Err::<nat, IntErrorKind>(e),
        },
{
    let bytes = s.as_bytes();
    match parse_bounded(bytes, 0xffff) {
        Ok(v) => {
            proof {
                let src = bytes@;
                if src.len() >= 1 && src[0] == 43 {
                    lemma_fold_bounded(src.drop_first(), 0, 0xffff);
                } else {
                    lemma_fold_bounded(src, 0, 0xffff);
                }
            }
            Ok(v as u16)
        },
        Err(e) => Err(e),
    }
}

/// `s.parse::<u64>()`: an optional `+` followed by decimal digits whose
/// value is at most `u64::MAX`.
pub fn parse_u64(s: &str) -> (r: Result<u64, IntErrorKind>)
    ensures
        match r {
            Ok(v) => parse_unsigned(s.spec_bytes(), u64::MAX as nat) == Ok::<nat, IntErrorKind>(v as nat),
            Err(e) => parse_unsigned(s.spec_bytes(), u64::MAX as nat) == Err::<nat, IntErrorKind>(e),
        },
{
    parse_bounded(s.as_bytes(), u64::MAX)
}

/// The decimal digits of `n` as ASCII bytes, as `n.to_string()` writes them.
pub fn decimal_bytes(n: u64) -> (r: Vec<u8>)
    ensures
        r@ == decimal(n as nat),
    decreases n,
{
    if n < 10 {
        let mut v: Vec<u8> = Vec::new();
        v.push((n as u8) + 48);
        v
    } else {
        let mut v = decimal_bytes(n / 10);
        v.push(((n % 10) as u8) + 48);
        v
    }
}

} // verus!
