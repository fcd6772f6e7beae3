//! UTF-8 validation for AMF0 strings: script-data strings must be valid
//! UTF-8, otherwise the whole script record fails to parse.

use vstd::prelude::*;
use vstd::utf8::{
    valid_utf8, valid_first_scalar, pop_first_scalar, length_of_first_scalar,
    valid_leading_and_continuation_bytes_first_codepoint, decode_first_codepoint,
    length_of_first_codepoint, not_overlong_encoding, not_surrogate, is_leading_byte_width_1,
    is_leading_byte_width_2, is_leading_byte_width_3, is_leading_byte_width_4,
    is_continuation_byte,
};

verus! {

/// Whether `v[from..to]` is a valid UTF-8 encoding.
pub fn is_valid_utf8_range(v: &Vec<u8>, from: usize, to: usize) -> (r: bool)
    requires
        from <= to <= v.len(),
    ensures
        r == valid_utf8(v@.subrange(from as int, to as int)),
{
    let ghost whole = v@.subrange(from as int, to as int);
    let mut pos: usize = from;
    loop
        invariant
            from <= pos <= to <= v.len(),
            whole == v@.subrange(from as int, to as int),
            valid_utf8(whole) <==> valid_utf8(v@.subrange(pos as int, to as int)),
        decreases to - pos,
    {
        let ghost cur = v@.subrange(pos as int, to as int);
        if pos == to {
            proof {
                assert(cur =~= Seq::<u8>::empty());
                assert(valid_utf8(cur));
            }
            return true;
        }
        let rem = to - pos;
        let b0 = v[pos];
        proof {
            assert(cur[0] == b0);
        }
        let width: usize;
        if b0 <= 0x7f {
            // One-byte scalar: never overlong, never a surrogate.
            proof {
                assert(valid_first_scalar(cur));
                assert(length_of_first_scalar(cur) == 1);
            }
            width = 1;
        } else if 0xc0 <= b0 && b0 <= 0xdf {
            if rem < 2 {
                proof {
                    assert(!valid_leading_and_continuation_bytes_first_codepoint(cur));
                }
                return false;
            }
            let b1 = v[pos + 1];
            proof {
                assert(cur[1] == b1);
            }
            if !(0x80 <= b1 && b1 <= 0xbf) {
                proof {
                    assert(!valid_leading_and_continuation_bytes_first_codepoint(cur));
                }
                return false;
            }
            let cp: u32 = (((b0 & 0x1f) as u32) << 6u32) | ((b1 & 0x3f) as u32);
            proof {
                assert(cp == decode_first_codepoint(cur));
                assert(length_of_first_codepoint(cur) == 2);
            }
            if cp < 0x80 {
                proof {
                    assert(!not_overlong_encoding(decode_first_codepoint(cur), 2));
                }
                return false;
            }
            proof {
                assert(cp <= 0x7ff) by (bit_vector)
                    requires
                        cp == (((b0 & 0x1f) as u32) << 6u32) | ((b1 & 0x3f) as u32),
                ;
                assert(valid_first_scalar(cur));
                assert(length_of_first_scalar(cur) == 2);
            }
            width = 2;
        } else if 0xe0 <= b0 && b0 <= 0xef {
            if rem < 3 {
                proof {
                    assert(!valid_leading_and_continuation_bytes_first_codepoint(cur));
                }
                return false;
            }
            let b1 = v[pos + 1];
            let b2 = v[pos + 2];
            proof {
                assert(cur[1] == b1);
                assert(cur[2] == b2);
            }
            if !(0x80 <= b1 && b1 <= 0xbf) || !(0x80 <= b2 && b2 <= 0xbf) {
                proof {
                    assert(!valid_leading_and_continuation_bytes_first_codepoint(cur));
                }
                return false;
            }
            let cp: u32 = (((b0 & 0x0f) as u32) << 12u32) | (((b1 & 0x3f) as u32) << 6u32) | ((b2
                & 0x3f) as u32);
            proof {
                assert(cp == decode_first_codepoint(cur));
                assert(length_of_first_codepoint(cur) == 3);
            }
            if cp < 0x800 || (0xd800 <= cp && cp <= 0xdfff) {
                return false;
            }
            proof {
                assert(valid_first_scalar(cur));
                assert(length_of_first_scalar(cur) == 3);
            }
            width = 3;
        } else if 0xf0 <= b0 && b0 <= 0xf7 {
            if rem < 4 {
                proof {
                    assert(!valid_leading_and_continuation_bytes_first_codepoint(cur));
                }
                return false;
            }
            let b1 = v[pos + 1];
            let b2 = v[pos + 2];
            let b3 = v[pos + 3];
            proof {
                assert(cur[1] == b1);
                assert(cur[2] == b2);
                assert(cur[3] == b3);
            }
            if !(0x80 <= b1 && b1 <= 0xbf) || !(0x80 <= b2 && b2 <= 0xbf) || !(0x80 <= b3 && b3
                <= 0xbf) {
                proof {
                    assert(!valid_leading_and_continuation_bytes_first_codepoint(cur));
                }
                return false;
            }
            let cp: u32 = (((b0 & 0x07) as u32) << 18u32) | (((b1 & 0x3f) as u32) << 12u32) | (((b2
                & 0x3f) as u32) << 6u32) | ((b3 & 0x3f) as u32);
            proof {
                assert(cp == decode_first_codepoint(cur));
                assert(length_of_first_codepoint(cur) == 4);
            }
            if cp < 0x10000 || cp > 0x10ffff {
                return false;
            }
            proof {
                assert(valid_first_scalar(cur));
                assert(length_of_first_scalar(cur) == 4);
            }
            width = 4;
        } else {
            // A stray continuation byte or an out-of-range leading byte.
            proof {
                assert(!valid_leading_and_continuation_bytes_first_codepoint(cur));
            }
            return false;
        }
        proof {
            assert(pop_first_scalar(cur) =~= v@.subrange(pos + width as int, to as int));
            assert(valid_utf8(cur) <==> valid_utf8(v@.subrange(pos + width as int, to as int)));
        }
        pos = pos + width;
    }
}

} // verus!
