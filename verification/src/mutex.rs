//! The named-mutex mechanism of Windows: the form its name takes, and how the
//! result of creating the mutex is read.
//!
//! Creating a named mutex succeeds whether or not the name exists; the error
//! code that the call leaves behind tells which. The call itself cannot be
//! made from here: the caller makes it and hands over what came back.

use vstd::prelude::*;
use vstd::utf8::{char_is_scalar, char_u32_cast};
use crate::error::SingleInstanceError;
use crate::name::{is_valid_name, valid_name};
use crate::reply::Reply;

verus! {

/// The error code that marks a handle as invalid. A handle of this value is
/// treated like a null handle.
pub const ERROR_INVALID_HANDLE: u32 = 6;

/// The error code that the creation of a mutex leaves behind where the name
/// existed already.
pub const ERROR_ALREADY_EXISTS: u32 = 183;

/// A handle that can be used: neither null nor the invalid-handle value.
pub open spec fn usable_handle(handle: usize) -> bool {
    handle != 0 && handle != ERROR_INVALID_HANDLE
}

/// How the creation of a named mutex is read, from the handle that came back
/// (as a number) and the error code that the call left behind. Without a
/// usable handle the creation failed, whatever the code. With one, the code
/// tells whether the mutex existed before.
pub open spec fn mutex_reply_of(handle: usize, last_error: u32) -> Reply {
    if !usable_handle(handle) {
        Reply::NoHandle(last_error)
    } else if last_error == ERROR_ALREADY_EXISTS {
        Reply::Held
    } else {
        Reply::Granted
    }
}

/// Reads the result of creating the mutex of a name.
pub fn mutex_reply(handle: usize, last_error: u32) -> (reply: Reply)
    ensures
        reply == mutex_reply_of(handle, last_error),
{
    if handle == 0 || handle == ERROR_INVALID_HANDLE as usize {
        Reply::NoHandle(last_error)
    } else if last_error == ERROR_ALREADY_EXISTS {
        Reply::Held
    } else {
        Reply::Granted
    }
}

/// The UTF-16 code units of one character: itself below 0x10000, else a high
/// and a low surrogate.
pub open spec fn utf16_of_char(c: char) -> Seq<u16> {
    let scalar = c as u32;
    if scalar < 0x1_0000 {
        seq![scalar as u16]
    } else {
        seq![
            (0xD800 + (scalar - 0x1_0000) / 0x400) as u16,
            (0xDC00 + (scalar - 0x1_0000) % 0x400) as u16,
        ]
    }
}

/// The UTF-16 code units of a text, character by character.
pub open spec fn utf16_of(text: Seq<char>) -> Seq<u16>
    decreases text.len(),
{
    if text.len() == 0 {
        Seq::empty()
    } else {
        utf16_of(text.drop_last()) + utf16_of_char(text.last())
    }
}

/// Calls `widestring::U16CString::from_str` and takes the units out of the
/// string that it makes, with the NUL that ends them. The call fails exactly
/// if the text holds a NUL character; else it gives the text in UTF-16,
/// followed by one NUL.
#[verifier::external_body]
fn wide_c_string(text: &str) -> (units: Option<Vec<u16>>)
    ensures
        units is Some <==> !text@.contains('\0'),
        units matches Some(v) ==> v@ == utf16_of(text@).push(0u16),
{
    match widestring::U16CString::from_str(text) {
        Ok(wide) => Some(wide.into_vec_with_nul()),
        Err(_) => None,
    }
}

/// The name in the form in which a mutex is created: its UTF-16 code units,
/// followed by one NUL, which is the only one. A name that cannot be claimed
/// has no such form.
pub fn wide_name(name: &str) -> (wide: Result<Vec<u16>, SingleInstanceError>)
    ensures
        valid_name(name@) ==> (wide matches Ok(units) && units@ == utf16_of(name@).push(0u16)),
        !valid_name(name@) ==> wide == Err::<Vec<u16>, SingleInstanceError>(
            SingleInstanceError::InvalidName,
        ),
        wide matches Ok(units) ==> units@.last() == 0 && !units@.drop_last().contains(0u16),
{
    if !is_valid_name(name) {
        return Err(SingleInstanceError::InvalidName);
    }
    proof {
        lemma_units_hold_no_nul(name@);
        assert(utf16_of(name@).push(0u16).drop_last() =~= utf16_of(name@));
    }
    match wide_c_string(name) {
        Some(units) => Ok(units),
        None => Err(SingleInstanceError::InvalidName),
    }
}

/// The units of one character: one unit that is no surrogate and is the
/// character's number, or a high and a low surrogate that add up to it.
proof fn lemma_units_of_char(c: char)
    ensures
        ({
            let units = utf16_of_char(c);
            if (c as u32) < 0x1_0000 {
                &&& units.len() == 1
                &&& units[0] == c as u32
                &&& !(0xD800 <= units[0] <= 0xDFFF)
            } else {
                &&& units.len() == 2
                &&& 0xD800 <= units[0] <= 0xDBFF
                &&& 0xDC00 <= units[1] <= 0xDFFF
                &&& c as u32 == 0x1_0000 + (units[0] - 0xD800) * 0x400 + (units[1] - 0xDC00)
            }
        }),
{
    char_is_scalar(c);
}

/// A character is known by its number.
proof fn lemma_char_by_number(c: char, d: char)
    requires
        c as u32 == d as u32,
    ensures
        c == d,
{
    char_u32_cast(c, c as u32);
    char_u32_cast(d, c as u32);
}

/// The name of a mutex ends at the first zero unit. The units of a name
/// without a NUL hold no zero, so the whole name is read.
pub proof fn lemma_units_hold_no_nul(name: Seq<char>)
    requires
        !name.contains('\0'),
    ensures
        !utf16_of(name).contains(0u16),
    decreases name.len(),
{
    if name.len() > 0 {
        let front = utf16_of(name.drop_last());
        let back = utf16_of_char(name.last());
        lemma_units_of_char(name.last());
        assert(name.last() as u32 != 0) by {
            if name.last() as u32 == 0 {
                lemma_char_by_number(name.last(), '\0');
                assert(name[name.len() - 1] == '\0');
            }
        }
        assert(!name.drop_last().contains('\0')) by {
            if name.drop_last().contains('\0') {
                let i = choose|i: int|
                    0 <= i < name.drop_last().len() && name.drop_last()[i] == '\0';
                assert(name[i] == '\0');
            }
        }
        lemma_units_hold_no_nul(name.drop_last());
        if utf16_of(name).contains(0u16) {
            let i = choose|i: int| 0 <= i < utf16_of(name).len() && utf16_of(name)[i] == 0u16;
            if i < front.len() {
                assert(front[i] == 0u16);
            } else {
                assert(back[i - front.len()] == 0u16);
            }
        }
    }
}

/// Different names have different units: no two names meet in one mutex.
pub proof fn lemma_units_tell_names_apart(name: Seq<char>, other: Seq<char>)
    requires
        name != other,
    ensures
        utf16_of(name) != utf16_of(other),
{
    if utf16_of(name) == utf16_of(other) {
        lemma_same_units_same_name(name, other);
    }
}

/// Names with the same units are the same name.
proof fn lemma_same_units_same_name(name: Seq<char>, other: Seq<char>)
    requires
        utf16_of(name) == utf16_of(other),
    ensures
        name == other,
    decreases name.len(),
{
    if name.len() > 0 {
        lemma_units_of_char(name.last());
    }
    if other.len() > 0 {
        lemma_units_of_char(other.last());
    }
    if name.len() > 0 && other.len() > 0 {
        let units = utf16_of(name);
        let front = utf16_of(name.drop_last());
        let back = utf16_of_char(name.last());
        let other_front = utf16_of(other.drop_last());
        let other_back = utf16_of_char(other.last());
        // The last unit tells how many units the last character has.
        assert(units.last() == back.last());
        assert(units.last() == other_back.last());
        assert(back.len() == other_back.len());
        assert(back =~= units.subrange(units.len() - back.len(), units.len() as int));
        assert(other_back =~= units.subrange(units.len() - back.len(), units.len() as int));
        lemma_char_by_number(name.last(), other.last());
        assert(front =~= units.subrange(0, units.len() - back.len()));
        assert(other_front =~= units.subrange(0, units.len() - back.len()));
        lemma_same_units_same_name(name.drop_last(), other.drop_last());
        assert(name =~= name.drop_last().push(name.last()));
        assert(other =~= other.drop_last().push(other.last()));
    } else {
        // An empty name has no units, and any other name has some.
        assert(utf16_of(name).len() == 0 <==> name.len() == 0);
        assert(utf16_of(other).len() == 0 <==> other.len() == 0);
        assert(name =~= other);
    }
}

} // verus!
