//! Which names can be claimed.
//!
//! A name is the sole key of a claim: two attempts with the same name contend
//! for one claim, and attempts with different names never meet. A path and
//! the name of a mutex end at the first NUL, so no name holds one. A socket
//! address could carry a NUL; it keeps to the same rule, so that a name is
//! valid for every backend or for none. And a name is not empty.

use vstd::prelude::*;
use vstd::utf8::{
    char_is_scalar, char_u32_cast, encode_scalar, encode_utf8, encode_utf8_decode_utf8, is_scalar,
};

verus! {

/// A name that can be claimed: not empty, and without a NUL character.
pub open spec fn valid_name(name: Seq<char>) -> bool {
    name.len() > 0 && !name.contains('\0')
}

/// Tells whether `name` can be claimed.
pub fn is_valid_name(name: &str) -> (valid: bool)
    ensures
        valid == valid_name(name@),
{
    if name.is_empty() {
        return false;
    }
    let mut clean = true;
    for c in it: name.chars()
        invariant
            it.seq() == name@,
            clean == !name@.take(it.index()).contains('\0'),
    {
        proof {
            let before = name@.take(it.index());
            let after = name@.take(it.index() + 1);
            assert(after == before.push(c));
            if before.contains('\0') {
                let i = choose|i: int| 0 <= i < before.len() && before[i] == '\0';
                assert(after[i] == '\0');
            }
            if c == '\0' {
                assert(after[it.index()] == '\0');
            }
        }
        if c == '\0' {
            clean = false;
        }
    }
    proof {
        assert(name@.take(name@.len() as int) == name@);
    }
    clean
}

/// No byte of the UTF-8 form of a character other than NUL is zero.
proof fn lemma_scalar_has_no_zero_byte(scalar: u32)
    requires
        is_scalar(scalar),
        scalar != 0,
    ensures
        forall|i: int| 0 <= i < encode_scalar(scalar).len() ==> encode_scalar(scalar)[i] != 0,
{
    assert(0 < scalar <= 0x7F ==> (scalar & 0x7F) as u8 != 0) by (bit_vector);
    assert(0xC0 | ((scalar >> 6) & 0x1F) as u8 != 0) by (bit_vector);
    assert(0xE0 | ((scalar >> 12) & 0x0F) as u8 != 0) by (bit_vector);
    assert(0xF0 | ((scalar >> 18) & 0x7) as u8 != 0) by (bit_vector);
    assert(0x80 | (scalar & 0x3F) as u8 != 0) by (bit_vector);
    assert(0x80 | ((scalar >> 6) & 0x3F) as u8 != 0) by (bit_vector);
    assert(0x80 | ((scalar >> 12) & 0x3F) as u8 != 0) by (bit_vector);
}

/// A path, and the name of a socket, is handed over as the bytes of the name
/// in UTF-8, and a path ends at the first zero byte. The bytes of a name
/// without a NUL hold no zero byte, so the whole name is read.
pub proof fn lemma_bytes_hold_no_nul(name: Seq<char>)
    requires
        !name.contains('\0'),
    ensures
        !encode_utf8(name).contains(0u8),
    decreases name.len(),
{
    if name.len() > 0 {
        let first = encode_scalar(name[0] as u32);
        let rest = encode_utf8(name.drop_first());
        char_is_scalar(name[0]);
        assert(name[0] as u32 != 0) by {
            if name[0] as u32 == 0 {
                char_u32_cast(name[0], 0);
                char_u32_cast('\0', 0);
            }
        }
        lemma_scalar_has_no_zero_byte(name[0] as u32);
        assert(!name.drop_first().contains('\0')) by {
            if name.drop_first().contains('\0') {
                let i = choose|i: int|
                    0 <= i < name.drop_first().len() && name.drop_first()[i] == '\0';
                assert(name[i + 1] == '\0');
            }
        }
        lemma_bytes_hold_no_nul(name.drop_first());
        if encode_utf8(name).contains(0u8) {
            let i = choose|i: int| 0 <= i < encode_utf8(name).len() && encode_utf8(name)[i] == 0u8;
            if i < first.len() {
                assert(first[i] == 0u8);
            } else {
                assert(rest[i - first.len()] == 0u8);
            }
        }
    }
}

/// Different names have different bytes: no two names meet in one path or in
/// one socket address.
pub proof fn lemma_bytes_tell_names_apart(name: Seq<char>, other: Seq<char>)
    requires
        name != other,
    ensures
        encode_utf8(name) != encode_utf8(other),
{
    encode_utf8_decode_utf8(name);
    encode_utf8_decode_utf8(other);
}

} // verus!
