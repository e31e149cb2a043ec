//! Text fields of the wire protocol: checking byte sequences for UTF-8
//! validity against vstd's UTF-8 model and converting them into strings.
use vstd::prelude::*;

verus! {

use vstd::utf8::valid_utf8;
use vstd::utf8::decode_utf8;
use vstd::utf8::valid_first_scalar;
use vstd::utf8::decode_first_codepoint;
use vstd::utf8::length_of_first_scalar;
use vstd::utf8::pop_first_scalar;
use vstd::utf8::partial_valid_utf8;
use vstd::utf8::partial_valid_utf8_extend;
use vstd::utf8::partial_valid_partial_invalid_utf8;
use crate::error::Utf8Error;

/// Number of bytes of the longest prefix of `s` that is valid UTF-8 and ends on
/// a scalar boundary; equals `s.len()` when `s` is valid UTF-8.
pub open spec fn utf8_failure_offset(s: Seq<u8>) -> int
    decreases s.len(),
{
    if valid_first_scalar(s) {
        length_of_first_scalar(s) + utf8_failure_offset(pop_first_scalar(s))
    } else {
        0
    }
}

/// What converting `s` to a string yields: its decoded characters when `s` is
/// valid UTF-8, else the offset of the first ill-formed scalar encoding.
pub open spec fn utf8_result(s: Seq<u8>) -> Result<Seq<char>, Utf8Error> {
    if valid_utf8(s) {
        Ok(decode_utf8(s))
    } else {
        Err(Utf8Error { valid_up_to: utf8_failure_offset(s) as usize })
    }
}

/// Length in bytes of the scalar encoding starting at `s[i]`: zero when no
/// well-formed scalar encoding starts there.
fn scalar_len_at(s: &[u8], i: usize) -> (r: usize)
    requires
        i < s@.len(),
    ensures
        r == 0 ==> !valid_first_scalar(s@.skip(i as int)),
        r > 0 ==> valid_first_scalar(s@.skip(i as int)) && r == length_of_first_scalar(
            s@.skip(i as int),
        ) && i + r <= s@.len(),
{
    let ghost tail: Seq<u8> = s@.skip(i as int);
    let n: usize = s.len();
    let b0: u8 = s[i];
    proof {
        assert(tail[0] == s@[i as int]);
    }
    if b0 <= 0x7f {
        // one-byte encoding: always well-formed, and never a surrogate
        proof {
            assert((b0 & 0x7f) <= 0x7f) by (bit_vector);
        }
        1
    } else if 0xc0 <= b0 && b0 <= 0xdf {
        if n - i < 2 || !(0x80 <= s[i + 1] && s[i + 1] <= 0xbf) {
            proof {
                if i + 1 < n {
                    assert(tail[1] == s@[i + 1]);
                }
            }
            return 0;
        }
        let b1: u8 = s[i + 1];
        proof {
            assert(tail[1] == s@[i + 1]);
        }
        let cp: u32 = (((b0 & 0x1f) as u32) << 6u32) | ((b1 & 0x3f) as u32);
        proof {
            assert(cp == decode_first_codepoint(tail));
        }
        if 0x80 <= cp {
            // a two-byte codepoint is at most 0x7ff, below the surrogate range
            proof {
                assert((((b0 & 0x1f) as u32) << 6u32) | ((b1 & 0x3f) as u32) <= 0x7ff)
                    by (bit_vector);
            }
            2
        } else {
            0
        }
    } else if 0xe0 <= b0 && b0 <= 0xef {
        if n - i < 3 || !(0x80 <= s[i + 1] && s[i + 1] <= 0xbf) || !(0x80 <= s[i + 2] && s[i + 2]
            <= 0xbf) {
            proof {
                if i + 1 < n {
                    assert(tail[1] == s@[i + 1]);
                }
                if i + 2 < n {
                    assert(tail[2] == s@[i + 2]);
                }
            }
            return 0;
        }
        let b1: u8 = s[i + 1];
        let b2: u8 = s[i + 2];
        proof {
            assert(tail[1] == s@[i + 1]);
            assert(tail[2] == s@[i + 2]);
        }
        let cp: u32 = (((b0 & 0x0f) as u32) << 12u32) | (((b1 & 0x3f) as u32) << 6u32) | ((b2
            & 0x3f) as u32);
        proof {
            assert(cp == decode_first_codepoint(tail));
        }
        if 0x800 <= cp && !(0xd800 <= cp && cp <= 0xdfff) {
            3
        } else {
            0
        }
    } else if 0xf0 <= b0 && b0 <= 0xf7 {
        if n - i < 4 || !(0x80 <= s[i + 1] && s[i + 1] <= 0xbf) || !(0x80 <= s[i + 2] && s[i + 2]
            <= 0xbf) || !(0x80 <= s[i + 3] && s[i + 3] <= 0xbf) {
            proof {
                if i + 1 < n {
                    assert(tail[1] == s@[i + 1]);
                }
                if i + 2 < n {
                    assert(tail[2] == s@[i + 2]);
                }
                if i + 3 < n {
                    assert(tail[3] == s@[i + 3]);
                }
            }
            return 0;
        }
        let b1: u8 = s[i + 1];
        let b2: u8 = s[i + 2];
        let b3: u8 = s[i + 3];
        proof {
            assert(tail[1] == s@[i + 1]);
            assert(tail[2] == s@[i + 2]);
            assert(tail[3] == s@[i + 3]);
        }
        let cp: u32 = (((b0 & 0x07) as u32) << 18u32) | (((b1 & 0x3f) as u32) << 12u32) | (((b2
            & 0x3f) as u32) << 6u32) | ((b3 & 0x3f) as u32);
        proof {
            assert(cp == decode_first_codepoint(tail));
        }
        if 0x10000 <= cp && cp <= 0x10ffff {
            4
        } else {
            0
        }
    } else {
        // a stray continuation byte (0x80..=0xbf) or a byte no encoding uses
        0
    }
}

/// Checks `s` for UTF-8 validity: `None` when valid, else the offset of the
/// first ill-formed scalar encoding.
pub fn utf8_check(s: &[u8]) -> (r: Option<usize>)
    ensures
        match r {
            None => valid_utf8(s@),
            Some(i) => !valid_utf8(s@) && i == utf8_failure_offset(s@) && i < s@.len()
                && valid_utf8(s@.take(i as int)),
        },
{
    let n: usize = s.len();
    let mut i: usize = 0;
    proof {
        assert(s@.skip(0) =~= s@);
    }
    while i < n
        invariant
            n == s@.len(),
            0 <= i <= n,
            partial_valid_utf8(s@, i as int),
            utf8_failure_offset(s@) == i + utf8_failure_offset(s@.skip(i as int)),
        decreases n - i,
    {
        let k: usize = scalar_len_at(s, i);
        if k == 0 {
            proof {
                let tail = s@.skip(i as int);
                assert(tail.len() > 0);
                assert(!valid_utf8(tail));
                partial_valid_partial_invalid_utf8(s@, i as int);
                assert(utf8_failure_offset(tail) == 0);
            }
            return Some(i);
        }
        proof {
            let tail = s@.skip(i as int);
            partial_valid_utf8_extend(s@, i as int);
            assert(pop_first_scalar(tail) =~= s@.skip(i + k));
        }
        i += k;
    }
    proof {
        assert(s@.take(n as int) =~= s@);
    }
    None
}

/// Relies on `String::from_utf8`: bytes that satisfy vstd's `valid_utf8`
/// convert to the string holding exactly their decoded characters.
#[verifier::external_body]
fn utf8_to_string(b: &[u8]) -> (r: String)
    requires
        valid_utf8(b@),
    ensures
        r@ == decode_utf8(b@),
{
    match String::from_utf8(b.to_vec()) {
        Ok(s) => s,
        Err(_) => String::new(),
    }
}

/// The characters that lossy UTF-8 conversion yields for a byte sequence: a
/// function of the bytes alone.
pub uninterp spec fn decode_utf8_lossy(b: Seq<u8>) -> Seq<char>;

/// Relies on `String::from_utf8_lossy`: the result depends on the bytes alone,
/// and bytes that are valid UTF-8 decode to exactly their character sequence.
#[verifier::external_body]
fn utf8_to_string_lossy(b: &[u8]) -> (r: String)
    ensures
        r@ == decode_utf8_lossy(b@),
        valid_utf8(b@) ==> r@ == decode_utf8(b@),
{
    String::from_utf8_lossy(b).into_owned()
}

/// Converts a parameter field to a string, reporting where the bytes stop
/// being valid UTF-8.
pub fn utf8_field(s: &[u8]) -> (r: Result<String, Utf8Error>)
    ensures
        match r {
            Ok(st) => utf8_result(s@) == Ok::<Seq<char>, Utf8Error>(st@),
            Err(e) => utf8_result(s@) == Err::<Seq<char>, Utf8Error>(e),
        },
{
    match utf8_check(s) {
        None => Ok(utf8_to_string(s)),
        Some(i) => Err(Utf8Error { valid_up_to: i }),
    }
}

/// Converts arbitrary bytes to a string, substituting ill-formed sequences.
pub fn lossy_field(s: &[u8]) -> (r: String)
    ensures
        r@ == decode_utf8_lossy(s@),
        valid_utf8(s@) ==> r@ == decode_utf8(s@),
{
    utf8_to_string_lossy(s)
}

} // verus!
