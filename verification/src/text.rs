//! The text lifter: wire bytes to host text.
//!
//! The checked lift validates that the bytes are well-formed UTF-8 with a
//! verified decision procedure and then builds the string; the trusted lift
//! assumes upstream validation and states that assumption as a precondition.

use vstd::prelude::*;
use vstd::utf8::{
    decode_utf8, encode_utf8, encode_utf8_decode_utf8, length_of_first_scalar,
    partial_valid_partial_invalid_utf8, partial_valid_utf8, partial_valid_utf8_extend,
    valid_first_scalar, valid_utf8,
};
use crate::lift::CanonError;

verus! {

/// Relies on alloc's `String::from_utf8`: on bytes that are valid UTF-8 it
/// returns (rather than refuses) the string holding exactly those bytes.
#[verifier::external_body]
fn string_from_utf8(bytes: Vec<u8>) -> (r: String)
    requires
        valid_utf8(bytes@),
    ensures
        encode_utf8(r@) == bytes@,
{
    String::from_utf8(bytes).unwrap()
}

/// Checked text lift: well-formed UTF-8 decodes to the text it encodes;
/// anything else is rejected.
pub fn string_lift_checked(bytes: Vec<u8>) -> (r: Result<String, CanonError>)
    ensures
        r is Ok <==> valid_utf8(bytes@),
        r matches Ok(s) ==> s@ == decode_utf8(bytes@) && encode_utf8(s@) == bytes@,
        r matches Err(e) ==> e == CanonError::InvalidText,
{
    if utf8_is_valid(&bytes) {
        let s = string_from_utf8(bytes);
        proof {
            encode_utf8_decode_utf8(s@);
        }
        Ok(s)
    } else {
        Err(CanonError::InvalidText)
    }
}

/// Trusted text lift: the wire is assumed to carry only well-formed UTF-8,
/// and the caller must justify that assumption.
pub fn string_lift(bytes: Vec<u8>) -> (s: String)
    requires
        valid_utf8(bytes@),
    ensures
        s@ == decode_utf8(bytes@),
        encode_utf8(s@) == bytes@,
{
    let s = string_from_utf8(bytes);
    proof {
        encode_utf8_decode_utf8(s@);
    }
    s
}

/// Decides whether the bytes are a well-formed UTF-8 encoding: every scalar's
/// leading and continuation bytes follow the expected bit patterns, no
/// encoding is overlong, and no codepoint falls in the surrogate range.
pub fn utf8_is_valid(bytes: &Vec<u8>) -> (ok: bool)
    ensures
        ok == valid_utf8(bytes@),
{
    let n = bytes.len();
    let mut i: usize = 0;
    proof {
        assert(bytes@.subrange(0, 0) =~= Seq::<u8>::empty());
    }
    while i < n
        invariant
            n == bytes@.len(),
            i <= n,
            partial_valid_utf8(bytes@, i as int),
        decreases n - i,
    {
        let ghost suffix = bytes@.subrange(i as int, n as int);
        let b0 = bytes[i];
        proof {
            assert(suffix[0] == bytes@[i as int]);
        }
        if b0 < 0x80 {
            proof {
                assert(((b0 & 0x7f) as u32) < 0xd800) by (bit_vector);
                assert(valid_first_scalar(suffix));
                assert(length_of_first_scalar(suffix) == 1);
                partial_valid_utf8_extend(bytes@, i as int);
            }
            i = i + 1;
        } else if b0 < 0xC0 {
            // A continuation byte where a leading byte is expected.
            proof {
                assert(!valid_first_scalar(suffix));
                partial_valid_partial_invalid_utf8(bytes@, i as int);
            }
            return false;
        } else if b0 < 0xE0 {
            if n - i < 2 {
                proof {
                    assert(!valid_first_scalar(suffix));
                    partial_valid_partial_invalid_utf8(bytes@, i as int);
                }
                return false;
            }
            let b1 = bytes[i + 1];
            proof {
                assert(suffix[1] == bytes@[i + 1]);
            }
            if !(0x80 <= b1 && b1 <= 0xBF) {
                proof {
                    assert(!valid_first_scalar(suffix));
                    partial_valid_partial_invalid_utf8(bytes@, i as int);
                }
                return false;
            }
            let cp: u32 = (((b0 & 0x1F) as u32) << 6) | ((b1 & 0x3F) as u32);
            if cp < 0x80 {
                // Overlong two-byte encoding.
                proof {
                    assert(!valid_first_scalar(suffix));
                    partial_valid_partial_invalid_utf8(bytes@, i as int);
                }
                return false;
            }
            proof {
                assert((((b0 & 0x1F) as u32) << 6) | ((b1 & 0x3F) as u32) <= 0x7ff) by (bit_vector);
                assert(valid_first_scalar(suffix));
                assert(length_of_first_scalar(suffix) == 2);
                partial_valid_utf8_extend(bytes@, i as int);
            }
            i = i + 2;
        } else if b0 < 0xF0 {
            if n - i < 3 {
                proof {
                    assert(!valid_first_scalar(suffix));
                    partial_valid_partial_invalid_utf8(bytes@, i as int);
                }
                return false;
            }
            let b1 = bytes[i + 1];
            let b2 = bytes[i + 2];
            proof {
                assert(suffix[1] == bytes@[i + 1]);
                assert(suffix[2] == bytes@[i + 2]);
            }
            if !(0x80 <= b1 && b1 <= 0xBF) || !(0x80 <= b2 && b2 <= 0xBF) {
                proof {
                    assert(!valid_first_scalar(suffix));
                    partial_valid_partial_invalid_utf8(bytes@, i as int);
                }
                return false;
            }
            let cp: u32 = (((b0 & 0x0F) as u32) << 12) | (((b1 & 0x3F) as u32) << 6) | ((b2
                & 0x3F) as u32);
            if cp < 0x800 || (0xD800 <= cp && cp <= 0xDFFF) {
                // Overlong three-byte encoding, or a surrogate codepoint.
                proof {
                    assert(!valid_first_scalar(suffix));
                    partial_valid_partial_invalid_utf8(bytes@, i as int);
                }
                return false;
            }
            proof {
                assert(valid_first_scalar(suffix));
                assert(length_of_first_scalar(suffix) == 3);
                partial_valid_utf8_extend(bytes@, i as int);
            }
            i = i + 3;
        } else if b0 < 0xF8 {
            if n - i < 4 {
                proof {
                    assert(!valid_first_scalar(suffix));
                    partial_valid_partial_invalid_utf8(bytes@, i as int);
                }
                return false;
            }
            let b1 = bytes[i + 1];
            let b2 = bytes[i + 2];
            let b3 = bytes[i + 3];
            proof {
                assert(suffix[1] == bytes@[i + 1]);
                assert(suffix[2] == bytes@[i + 2]);
                assert(suffix[3] == bytes@[i + 3]);
            }
            if !(0x80 <= b1 && b1 <= 0xBF) || !(0x80 <= b2 && b2 <= 0xBF) || !(0x80 <= b3 && b3
                <= 0xBF) {
                proof {
                    assert(!valid_first_scalar(suffix));
                    partial_valid_partial_invalid_utf8(bytes@, i as int);
                }
                return false;
            }
            let cp: u32 = (((b0 & 0x07) as u32) << 18) | (((b1 & 0x3F) as u32) << 12) | (((b2
                & 0x3F) as u32) << 6) | ((b3 & 0x3F) as u32);
            if cp < 0x10000 || cp > 0x10FFFF {
                // Overlong four-byte encoding, or a codepoint past the
                // Unicode range.
                proof {
                    assert(!valid_first_scalar(suffix));
                    partial_valid_partial_invalid_utf8(bytes@, i as int);
                }
                return false;
            }
            proof {
                assert(valid_first_scalar(suffix));
                assert(length_of_first_scalar(suffix) == 4);
                partial_valid_utf8_extend(bytes@, i as int);
            }
            i = i + 4;
        } else {
            // No leading byte pattern reaches 0xF8 or above.
            proof {
                assert(!valid_first_scalar(suffix));
                partial_valid_partial_invalid_utf8(bytes@, i as int);
            }
            return false;
        }
    }
    proof {
        assert(bytes@.subrange(0, n as int) =~= bytes@);
    }
    true
}

} // verus!
