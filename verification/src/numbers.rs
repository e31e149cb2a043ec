//! Decimal fields of the wire protocol: parsing unsigned integers from bytes
//! and rendering them back as ASCII digit strings.
use vstd::prelude::*;

verus! {

use vstd::string::StringExecFns;
use crate::error::ParseIntError;

/// True for an ASCII decimal digit.
pub open spec fn is_digit(b: u8) -> bool {
    0x30 <= b <= 0x39
}

/// True when every byte of `s` is an ASCII decimal digit.
pub open spec fn all_digits(s: Seq<u8>) -> bool {
    forall|i: int| 0 <= i < s.len() ==> is_digit(s[i])
}

/// Value of `s` read as big-endian decimal digits.
pub open spec fn dec_value(s: Seq<u8>) -> int
    recommends
        all_digits(s),
    decreases s.len(),
{
    if s.len() == 0 {
        0
    } else {
        dec_value(s.drop_last()) * 10 + (s.last() - 0x30)
    }
}

/// What parsing `s` as an unsigned decimal integer bounded by `max` yields: an
/// optional leading `+`, then at least one digit, and a value of at most `max`.
pub open spec fn dec_result(s: Seq<u8>, max: int) -> Result<int, ParseIntError> {
    if s.len() == 0 {
        Err(ParseIntError::Empty)
    } else {
        let t = if s[0] == 0x2b {
            s.drop_first()
        } else {
            s
        };
        if t.len() == 0 || !all_digits(t) {
            Err(ParseIntError::InvalidDigit)
        } else if dec_value(t) > max {
            Err(ParseIntError::PosOverflow)
        } else {
            Ok(dec_value(t))
        }
    }
}

/// The value of all digits is never negative.
proof fn lemma_dec_value_nonneg(s: Seq<u8>)
    requires
        all_digits(s),
    ensures
        dec_value(s) >= 0,
    decreases s.len(),
{
    if s.len() > 0 {
        assert(all_digits(s.drop_last()));
        lemma_dec_value_nonneg(s.drop_last());
    }
}

/// One digit extends the value of a prefix by a factor of ten.
proof fn lemma_dec_value_take_step(s: Seq<u8>, j: int)
    requires
        0 <= j < s.len(),
    ensures
        dec_value(s.take(j + 1)) == dec_value(s.take(j)) * 10 + (s[j] - 0x30),
{
    assert(s.take(j + 1).drop_last() =~= s.take(j));
    assert(s.take(j + 1).last() == s[j]);
}

/// Parses `s` as a decimal `u64`: an optional leading `+`, then decimal digits.
pub fn parse_u64(s: &[u8]) -> (r: Result<u64, ParseIntError>)
    ensures
        match r {
            Ok(v) => dec_result(s@, u64::MAX as int) == Ok::<int, ParseIntError>(v as int),
            Err(e) => dec_result(s@, u64::MAX as int) == Err::<int, ParseIntError>(e),
        },
{
    let n: usize = s.len();
    if n == 0 {
        return Err(ParseIntError::Empty);
    }
    let start: usize = if s[0] == 0x2b {
        1
    } else {
        0
    };
    let ghost t: Seq<u8> = if s@[0] == 0x2b {
        s@.drop_first()
    } else {
        s@
    };
    proof {
        assert(t =~= s@.skip(start as int));
    }
    if n == start {
        return Err(ParseIntError::InvalidDigit);
    }
    let mut acc: u64 = 0;
    let mut too_big: bool = false;
    let mut i: usize = start;
    while i < n
        invariant
            n == s@.len(),
            start <= i <= n,
            start < n,
            start == 0 || start == 1,
            (s@[0] == 0x2b) <==> start == 1,
            t =~= s@.skip(start as int),
            forall|j: int| 0 <= j < i - start ==> is_digit(t[j]),
            !too_big ==> acc == dec_value(t.take(i - start)),
            too_big ==> dec_value(t.take(i - start)) > u64::MAX,
        decreases n - i,
    {
        let b: u8 = s[i];
        proof {
            assert(t[i - start] == s@[i as int]);
        }
        if !(0x30 <= b && b <= 0x39) {
            proof {
                assert(!is_digit(t[i - start]));
                assert(!all_digits(t));
            }
            return Err(ParseIntError::InvalidDigit);
        }
        proof {
            lemma_dec_value_take_step(t, i - start);
        }
        let d: u64 = (b - 0x30) as u64;
        if too_big {
            proof {
                assert(forall|j: int| 0 <= j < i + 1 - start ==> is_digit(t[j]));
                assert(all_digits(t.take(i + 1 - start)));
                lemma_dec_value_nonneg(t.take(i - start));
            }
        } else {
            let shifted: Option<u64> = acc.checked_mul(10);
            match shifted {
                Some(sh) => {
                    let summed: Option<u64> = sh.checked_add(d);
                    match summed {
                        Some(v) => {
                            acc = v;
                        },
                        None => {
                            too_big = true;
                        },
                    }
                },
                None => {
                    too_big = true;
                },
            }
        }
        i += 1;
    }
    proof {
        assert(t.take(n - start) =~= t);
        assert(all_digits(t));
    }
    if too_big {
        Err(ParseIntError::PosOverflow)
    } else {
        Ok(acc)
    }
}

/// Parses `s` as a decimal `usize`: an optional leading `+`, then decimal digits.
pub fn parse_usize(s: &[u8]) -> (r: Result<usize, ParseIntError>)
    ensures
        match r {
            Ok(v) => dec_result(s@, usize::MAX as int) == Ok::<int, ParseIntError>(v as int),
            Err(e) => dec_result(s@, usize::MAX as int) == Err::<int, ParseIntError>(e),
        },
{
    let n: usize = s.len();
    if n == 0 {
        return Err(ParseIntError::Empty);
    }
    let start: usize = if s[0] == 0x2b {
        1
    } else {
        0
    };
    let ghost t: Seq<u8> = if s@[0] == 0x2b {
        s@.drop_first()
    } else {
        s@
    };
    proof {
        assert(t =~= s@.skip(start as int));
    }
    if n == start {
        return Err(ParseIntError::InvalidDigit);
    }
    let mut acc: usize = 0;
    let mut too_big: bool = false;
    let mut i: usize = start;
    while i < n
        invariant
            n == s@.len(),
            start <= i <= n,
            start < n,
            start == 0 || start == 1,
            (s@[0] == 0x2b) <==> start == 1,
            t =~= s@.skip(start as int),
            forall|j: int| 0 <= j < i - start ==> is_digit(t[j]),
            !too_big ==> acc == dec_value(t.take(i - start)),
            too_big ==> dec_value(t.take(i - start)) > usize::MAX,
        decreases n - i,
    {
        let b: u8 = s[i];
        proof {
            assert(t[i - start] == s@[i as int]);
        }
        if !(0x30 <= b && b <= 0x39) {
            proof {
                assert(!is_digit(t[i - start]));
                assert(!all_digits(t));
            }
            return Err(ParseIntError::InvalidDigit);
        }
        proof {
            lemma_dec_value_take_step(t, i - start);
        }
        let d: usize = (b - 0x30) as usize;
        if too_big {
            proof {
                assert(forall|j: int| 0 <= j < i + 1 - start ==> is_digit(t[j]));
                assert(all_digits(t.take(i + 1 - start)));
                lemma_dec_value_nonneg(t.take(i - start));
            }
        } else {
            let shifted: Option<usize> = acc.checked_mul(10);
            match shifted {
                Some(sh) => {
                    let summed: Option<usize> = sh.checked_add(d);
                    match summed {
                        Some(v) => {
                            acc = v;
                        },
                        None => {
                            too_big = true;
                        },
                    }
                },
                None => {
                    too_big = true;
                },
            }
        }
        i += 1;
    }
    proof {
        assert(t.take(n - start) =~= t);
        assert(all_digits(t));
    }
    if too_big {
        Err(ParseIntError::PosOverflow)
    } else {
        Ok(acc)
    }
}

/// The ASCII character of a single decimal digit.
pub open spec fn digit_char(d: int) -> char
    recommends
        0 <= d <= 9,
{
    ((0x30 + d) as u8) as char
}

/// The decimal digit characters of `n`, most significant first, no leading zeros
/// (a single `0` for zero).
pub open spec fn dec_digits(n: int) -> Seq<char>
    recommends
        n >= 0,
    decreases n,
{
    if n < 10 {
        seq![digit_char(n)]
    } else {
        dec_digits(n / 10).push(digit_char(n % 10))
    }
}

/// The one-character string of a single decimal digit.
fn digit_str(d: u64) -> (r: &'static str)
    requires
        d <= 9,
    ensures
        r@ =~= seq![digit_char(d as int)],
{
    proof {
        reveal_strlit("0");
        reveal_strlit("1");
        reveal_strlit("2");
        reveal_strlit("3");
        reveal_strlit("4");
        reveal_strlit("5");
        reveal_strlit("6");
        reveal_strlit("7");
        reveal_strlit("8");
        reveal_strlit("9");
    }
    if d == 0 {
        "0"
    } else if d == 1 {
        "1"
    } else if d == 2 {
        "2"
    } else if d == 3 {
        "3"
    } else if d == 4 {
        "4"
    } else if d == 5 {
        "5"
    } else if d == 6 {
        "6"
    } else if d == 7 {
        "7"
    } else if d == 8 {
        "8"
    } else {
        "9"
    }
}

/// Renders `n` as its decimal digit string.
pub fn u64_to_dec(n: u64) -> (r: String)
    ensures
        r@ == dec_digits(n as int),
    decreases n,
{
    if n < 10 {
        String::from_str(digit_str(n))
    } else {
        let mut s = u64_to_dec(n / 10);
        s.append(digit_str(n % 10));
        proof {
            assert(s@ =~= dec_digits(n as int));
        }
        s
    }
}

} // verus!
