//! Checking that a byte string is well-formed UTF-8, as
//! `std::str::from_utf8` does before it hands out a `&str`.
use vstd::prelude::*;
use vstd::utf8::*;

verus! {

/// The length of the scalar encoded at `bytes[i..]`, or 0 when no
/// well-formed scalar encoding starts there.
fn first_scalar_len(bytes: &[u8], i: usize) -> (r: usize)
    requires
        i < bytes@.len(),
    ensures
        r == 0 <==> !valid_first_scalar(bytes@.subrange(i as int, bytes@.len() as int)),
        r != 0 ==> r == length_of_first_scalar(bytes@.subrange(i as int, bytes@.len() as int)),
        r <= bytes@.len() - i,
{
    let ghost sub = bytes@.subrange(i as int, bytes@.len() as int);
    let rem = bytes.len() - i;
    let b0 = bytes[i];
    assert(sub[0] == b0);
    if b0 <= 0x7f {
        let cp: u32 = (b0 & 0x7f) as u32;
        assert((b0 & 0x7f) <= 0x7f) by (bit_vector);
        assert(decode_first_codepoint(sub) == cp);
        1
    } else if 0xc0 <= b0 && b0 <= 0xdf {
        if rem < 2 {
            return 0;
        }
        let b1 = bytes[i + 1];
        assert(sub[1] == b1);
        if !(0x80 <= b1 && b1 <= 0xbf) {
            return 0;
        }
        let cp: u32 = (((b0 & 0x1f) as u32) << 6) | ((b1 & 0x3f) as u32);
        assert(decode_first_codepoint(sub) == cp);
        if 0x80 <= cp && !(0xD800 <= cp && cp <= 0xDFFF) {
            2
        } else {
            0
        }
    } else if 0xe0 <= b0 && b0 <= 0xef {
        if rem < 3 {
            return 0;
        }
        let b1 = bytes[i + 1];
        let b2 = bytes[i + 2];
        assert(sub[1] == b1 && sub[2] == b2);
        if !(0x80 <= b1 && b1 <= 0xbf && 0x80 <= b2 && b2 <= 0xbf) {
            return 0;
        }
        let cp: u32 = (((b0 & 0x0f) as u32) << 12) | (((b1 & 0x3f) as u32) << 6) | ((b2 & 0x3f) as u32);
        assert(decode_first_codepoint(sub) == cp);
        if 0x800 <= cp && !(0xD800 <= cp && cp <= 0xDFFF) {
            3
        } else {
            0
        }
    } else if 0xf0 <= b0 && b0 <= 0xf7 {
        if rem < 4 {
            return 0;
        }
        let b1 = bytes[i + 1];
        let b2 = bytes[i + 2];
        let b3 = bytes[i + 3];
        assert(sub[1] == b1 && sub[2] == b2 && sub[3] == b3);
        if !(0x80 <= b1 && b1 <= 0xbf && 0x80 <= b2 && b2 <= 0xbf && 0x80 <= b3 && b3 <= 0xbf) {
            return 0;
        }
        let cp: u32 = (((b0 & 0x07) as u32) << 18) | (((b1 & 0x3f) as u32) << 12) | (((b2
            & 0x3f) as u32) << 6) | ((b3 & 0x3f) as u32);
        assert(decode_first_codepoint(sub) == cp);
        if 0x10000 <= cp && cp <= 0x10ffff && !(0xD800 <= cp && cp <= 0xDFFF) {
            4
        } else {
            0
        }
    } else {
        0
    }
}

/// Whether `bytes` is well-formed UTF-8: `std::str::from_utf8(bytes).is_ok()`.
pub fn is_valid_utf8(bytes: &[u8]) -> (r: bool)
    ensures
        r == valid_utf8(bytes@),
{
    let len = bytes.len();
    let mut i: usize = 0;
    assert(bytes@.subrange(0, len as int) =~= bytes@);
    while i < len
        invariant
            i <= len,
            len == bytes@.len(),
            valid_utf8(bytes@) == valid_utf8(bytes@.subrange(i as int, len as int)),
        decreases len - i,
    {
        let k = first_scalar_len(bytes, i);
        let ghost sub = bytes@.subrange(i as int, len as int);
        if k == 0 {
            return false;
        }
        assert(pop_first_scalar(sub) =~= bytes@.subrange((i + k) as int, len as int));
        i = i + k;
    }
    assert(bytes@.subrange(i as int, len as int).len() == 0);
    true
}

} // verus!
