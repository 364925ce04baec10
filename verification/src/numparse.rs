//! Parsing numbers out of command-line text: decimal by default, hexadecimal
//! behind a `0x` prefix, with an exact account of which strings parse and to
//! what value.

use vstd::prelude::*;
use vstd::string::StringSliceAdditionalSpecFns;

verus! {

/// A failure to parse a number.
#[derive(Clone, Copy, PartialEq, Eq, Structural, Debug)]
pub enum ParseError {
    /// There were no digits at all.
    Empty,
    /// A byte that is not a digit of the radix in use.
    InvalidDigit,
    /// The value does not fit the requested type.
    Overflow,
}

/// The value of one digit byte in the given radix, or none.
pub open spec fn digit_value(b: u8, radix: int) -> Option<int> {
    if 48 <= b <= 57 && b - 48 < radix {
        Some((b - 48) as int)
    } else if radix == 16 && 97 <= b <= 102 {
        Some(b - 97 + 10)
    } else if radix == 16 && 65 <= b <= 70 {
        Some(b - 65 + 10)
    } else {
        None
    }
}

/// Scan digits left to right from index `i`, accumulating a value no larger
/// than `max`: the first non-digit fails the parse, as does the first step
/// that would exceed `max`.
pub open spec fn scan_digits(bs: Seq<u8>, i: int, acc: int, radix: int, max: int) -> Result<
    int,
    ParseError,
>
    decreases bs.len() - i,
{
    if i < 0 || i >= bs.len() {
        Ok(acc)
    } else {
        match digit_value(bs[i], radix) {
            Some(d) => {
                if acc * radix + d > max {
                    Err(ParseError::Overflow)
                } else {
                    scan_digits(bs, i + 1, acc * radix + d, radix, max)
                }
            },
            None => Err(ParseError::InvalidDigit),
        }
    }
}

/// Parse a whole digit string (after any radix prefix): one optional leading
/// `+`, then at least one digit.
pub open spec fn parse_digits_spec(bs: Seq<u8>, radix: int, max: int) -> Result<int, ParseError> {
    if bs.len() == 0 {
        Err(ParseError::Empty)
    } else if bs[0] == 43 {
        if bs.len() == 1 {
            Err(ParseError::InvalidDigit)
        } else {
            scan_digits(bs, 1, 0, radix, max)
        }
    } else {
        scan_digits(bs, 0, 0, radix, max)
    }
}

/// What a numeric command-line argument means: hexadecimal when it starts
/// with `0x`, decimal otherwise, never larger than `max`.
pub open spec fn parse_number_spec(bs: Seq<u8>, max: int) -> Result<int, ParseError> {
    if bs.len() >= 2 && bs[0] == 48 && bs[1] == 120 {
        parse_digits_spec(bs.skip(2), 16, max)
    } else {
        parse_digits_spec(bs, 10, max)
    }
}

/// Scan the digits of `bs` from index `from` in the given radix, up to `max`.
fn scan_digits_exec(bs: &[u8], from: usize, radix: u64, max: u64) -> (r: Result<u64, ParseError>)
    requires
        from <= bs@.len(),
        radix == 10 || radix == 16,
    ensures
        match r {
            Ok(v) => v <= max && scan_digits(bs@, from as int, 0, radix as int, max as int)
                == Ok::<int, ParseError>(v as int),
            Err(e) => scan_digits(bs@, from as int, 0, radix as int, max as int) == Err::<
                int,
                ParseError,
            >(e),
        },
{
    let n = bs.len();
    let mut acc: u64 = 0;
    let mut i: usize = from;
    while i < n
        invariant
            from <= i <= n,
            n == bs@.len(),
            radix == 10 || radix == 16,
            acc <= max,
            scan_digits(bs@, from as int, 0, radix as int, max as int) == scan_digits(
                bs@,
                i as int,
                acc as int,
                radix as int,
                max as int,
            ),
        decreases n - i,
    {
        let b = bs[i];
        let dv: Option<u64> = if 48 <= b && b <= 57 && ((b - 48) as u64) < radix {
            Some((b - 48) as u64)
        } else if radix == 16 && 97 <= b && b <= 102 {
            Some((b - 97 + 10) as u64)
        } else if radix == 16 && 65 <= b && b <= 70 {
            Some((b - 65 + 10) as u64)
        } else {
            None
        };
        match dv {
            Some(d) => {
                let next: u128 = acc as u128 * radix as u128 + d as u128;
                if next > max as u128 {
                    return Err(ParseError::Overflow);
                }
                acc = next as u64;
            },
            None => {
                return Err(ParseError::InvalidDigit);
            },
        }
        i = i + 1;
    }
    Ok(acc)
}

/// Parse one digit string starting at `from`, with an optional leading `+`.
fn parse_digits_exec(bs: &[u8], from: usize, radix: u64, max: u64) -> (r: Result<u64, ParseError>)
    requires
        from <= bs@.len(),
        radix == 10 || radix == 16,
    ensures
        match r {
            Ok(v) => v <= max && parse_digits_spec(bs@.skip(from as int), radix as int, max as int)
                == Ok::<int, ParseError>(v as int),
            Err(e) => parse_digits_spec(bs@.skip(from as int), radix as int, max as int) == Err::<
                int,
                ParseError,
            >(e),
        },
{
    let ghost sq = bs@.skip(from as int);
    let n = bs.len();
    if n - from == 0 {
        return Err(ParseError::Empty);
    }
    proof {
        assert(sq[0] == bs@[from as int]);
    }
    if bs[from] == 43 {
        if n - from == 1 {
            return Err(ParseError::InvalidDigit);
        }
        let r = scan_digits_exec(bs, from + 1, radix, max);
        proof {
            lemma_scan_digits_shift(bs@, from as int, 1, 0, radix as int, max as int);
        }
        r
    } else {
        let r = scan_digits_exec(bs, from, radix, max);
        proof {
            lemma_scan_digits_shift(bs@, from as int, 0, 0, radix as int, max as int);
        }
        r
    }
}

/// Scanning a suffix is the same whether the bytes before it are dropped or
/// skipped by starting further along.
proof fn lemma_scan_digits_shift(bs: Seq<u8>, from: int, j: int, acc: int, radix: int, max: int)
    requires
        0 <= from,
        0 <= j,
        from + j <= bs.len(),
    ensures
        scan_digits(bs.skip(from), j, acc, radix, max) == scan_digits(
            bs,
            from + j,
            acc,
            radix,
            max,
        ),
    decreases bs.len() - from - j,
{
    let sq = bs.skip(from);
    if from + j >= bs.len() {
    } else {
        assert(sq[j] == bs[from + j]);
        match digit_value(bs[from + j], radix) {
            Some(d) => {
                if acc * radix + d > max {
                } else {
                    lemma_scan_digits_shift(bs, from, j + 1, acc * radix + d, radix, max);
                }
            },
            None => {},
        }
    }
}

/// Parse a byte string as a number no larger than `max`: hexadecimal behind
/// a `0x` prefix, decimal otherwise.
fn parse_number(bs: &[u8], max: u64) -> (r: Result<u64, ParseError>)
    ensures
        match r {
            Ok(v) => v <= max && parse_number_spec(bs@, max as int) == Ok::<int, ParseError>(
                v as int,
            ),
            Err(e) => parse_number_spec(bs@, max as int) == Err::<int, ParseError>(e),
        },
{
    let n = bs.len();
    if n >= 2 && bs[0] == 48 && bs[1] == 120 {
        parse_digits_exec(bs, 2, 16, max)
    } else {
        proof {
            assert(bs@.skip(0) =~= bs@);
        }
        parse_digits_exec(bs, 0, 10, max)
    }
}

/// Parse a string into a `usize`.
///
/// Numbers like `0x123` are hexadecimal; numbers like `123` are decimal.
pub fn parse_usize(input: &str) -> (r: Result<usize, ParseError>)
    ensures
        match r {
            Ok(v) => parse_number_spec(input.spec_bytes(), usize::MAX as int) == Ok::<
                int,
                ParseError,
            >(v as int),
            Err(e) => parse_number_spec(input.spec_bytes(), usize::MAX as int) == Err::<
                int,
                ParseError,
            >(e),
        },
{
    match parse_number(input.as_bytes(), usize::MAX as u64) {
        Ok(v) => Ok(v as usize),
        Err(e) => Err(e),
    }
}

/// Parse a string into a `u8`.
///
/// Numbers like `0x12` are hexadecimal; numbers like `12` are decimal.
pub fn parse_u8(input: &str) -> (r: Result<u8, ParseError>)
    ensures
        match r {
            Ok(v) => parse_number_spec(input.spec_bytes(), u8::MAX as int) == Ok::<
                int,
                ParseError,
            >(v as int),
            Err(e) => parse_number_spec(input.spec_bytes(), u8::MAX as int) == Err::<
                int,
                ParseError,
            >(e),
        },
{
    match parse_number(input.as_bytes(), u8::MAX as u64) {
        Ok(v) => Ok(v as u8),
        Err(e) => Err(e),
    }
}

/// Parse a string into a `u64`.
///
/// Numbers like `0x123` are hexadecimal; numbers like `123` are decimal.
pub fn parse_u64(input: &str) -> (r: Result<u64, ParseError>)
    ensures
        match r {
            Ok(v) => parse_number_spec(input.spec_bytes(), u64::MAX as int) == Ok::<
                int,
                ParseError,
            >(v as int),
            Err(e) => parse_number_spec(input.spec_bytes(), u64::MAX as int) == Err::<
                int,
                ParseError,
            >(e),
        },
{
    match parse_number(input.as_bytes(), u64::MAX) {
        Ok(v) => Ok(v),
        Err(e) => Err(e),
    }
}

/// The value of an ASCII hexadecimal digit.
pub open spec fn hex_digit_spec(b: u8) -> Option<u8> {
    if 48 <= b <= 57 {
        Some((b - 48) as u8)
    } else if 97 <= b <= 102 {
        Some((b - 87) as u8)
    } else if 65 <= b <= 70 {
        Some((b - 55) as u8)
    } else {
        None
    }
}

/// Convert an ASCII hexadecimal digit into a number.
pub fn hex_digit(input: u8) -> (r: Option<u8>)
    ensures
        r == hex_digit_spec(input),
{
    if 48 <= input && input <= 57 {
        Some(input - 48)
    } else if 97 <= input && input <= 102 {
        Some(input - 87)
    } else if 65 <= input && input <= 70 {
        Some(input - 55)
    } else {
        None
    }
}

} // verus!
