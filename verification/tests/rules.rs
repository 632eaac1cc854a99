//! The rules by which answers of the operating system are read.

use single_instance::backend::{bind_reply, lock_reply};
use single_instance::error::SingleInstanceError;
use single_instance::mutex::{mutex_reply, wide_name, ERROR_ALREADY_EXISTS, ERROR_INVALID_HANDLE};
use single_instance::name::is_valid_name;
use single_instance::os::{Cause, OsError};
use single_instance::reply::Reply;

#[test]
fn names_that_can_be_claimed() {
    assert!(is_valid_name("N1"));
    assert!(is_valid_name("aa2d0258-ffe9-11e7-ba89-0ed5f89f718b"));
    assert!(is_valid_name(" "));
    assert!(is_valid_name("naïve name 😀"));
    assert!(!is_valid_name(""));
    assert!(!is_valid_name("\0"));
    assert!(!is_valid_name("\0start"));
    assert!(!is_valid_name("mid\0dle"));
    assert!(!is_valid_name("end\0"));
}

#[test]
fn outcome_of_each_reply() {
    assert_eq!(Reply::Granted.outcome(), Ok(true));
    assert_eq!(Reply::Held.outcome(), Ok(false));
    assert_eq!(
        Reply::Refused(13).outcome(),
        Err(SingleInstanceError::ResourceCreationFailed(13))
    );
    assert_eq!(Reply::NoHandle(5).outcome(), Err(SingleInstanceError::MutexError(5)));
}

#[test]
fn a_failure_is_never_read_as_single() {
    for code in [-1, 0, 1, 98, i32::MAX] {
        assert_ne!(Reply::Refused(code).outcome(), Ok(true));
        assert_ne!(Reply::Refused(code).outcome(), Ok(false));
    }
    for code in [0, 6, 183, u32::MAX] {
        assert_ne!(Reply::NoHandle(code).outcome(), Ok(true));
        assert_ne!(Reply::NoHandle(code).outcome(), Ok(false));
    }
}

#[test]
fn which_replies_close_the_handle() {
    assert!(!Reply::Granted.must_close());
    assert!(Reply::Held.must_close());
    assert!(Reply::Refused(13).must_close());
    assert!(!Reply::NoHandle(5).must_close());
}

#[test]
fn reading_a_bind() {
    assert_eq!(bind_reply(Ok(())), Reply::Granted);
    assert_eq!(
        bind_reply(Err(OsError { cause: Cause::AddressInUse, code: 98 })),
        Reply::Held
    );
    assert_eq!(
        bind_reply(Err(OsError { cause: Cause::Other, code: 13 })),
        Reply::Refused(13)
    );
    // A bind that would block was not told that the address is in use.
    assert_eq!(
        bind_reply(Err(OsError { cause: Cause::WouldBlock, code: 11 })),
        Reply::Refused(11)
    );
}

#[test]
fn reading_a_lock_request() {
    assert_eq!(lock_reply(Ok(())), Reply::Granted);
    assert_eq!(
        lock_reply(Err(OsError { cause: Cause::WouldBlock, code: 11 })),
        Reply::Held
    );
    assert_eq!(
        lock_reply(Err(OsError { cause: Cause::Other, code: 9 })),
        Reply::Refused(9)
    );
    assert_eq!(
        lock_reply(Err(OsError { cause: Cause::AddressInUse, code: 98 })),
        Reply::Refused(98)
    );
}

#[test]
fn reading_the_creation_of_a_mutex() {
    assert_eq!(ERROR_INVALID_HANDLE, 6);
    assert_eq!(ERROR_ALREADY_EXISTS, 183);
    // A usable handle and no error: the mutex is new.
    assert_eq!(mutex_reply(0x1f4, 0), Reply::Granted);
    // A usable handle to a mutex that existed.
    assert_eq!(mutex_reply(0x1f4, 183), Reply::Held);
    // Any other code beside a usable handle does not speak of the name.
    assert_eq!(mutex_reply(0x1f4, 5), Reply::Granted);
    // No usable handle: the code is handed on, whatever it is.
    assert_eq!(mutex_reply(0, 5), Reply::NoHandle(5));
    assert_eq!(mutex_reply(0, 183), Reply::NoHandle(183));
    assert_eq!(mutex_reply(6, 0), Reply::NoHandle(0));
    assert_eq!(mutex_reply(6, 183), Reply::NoHandle(183));
    assert_eq!(mutex_reply(7, 183), Reply::Held);
    assert_eq!(mutex_reply(usize::MAX, 0), Reply::Granted);
}

#[test]
fn an_unusable_mutex_handle_is_a_mutex_error() {
    assert_eq!(mutex_reply(0, 1314).outcome(), Err(SingleInstanceError::MutexError(1314)));
    assert!(!mutex_reply(0, 1314).must_close());
    assert_eq!(mutex_reply(0x1f4, 183).outcome(), Ok(false));
    assert!(mutex_reply(0x1f4, 183).must_close());
    assert_eq!(mutex_reply(0x1f4, 0).outcome(), Ok(true));
    assert!(!mutex_reply(0x1f4, 0).must_close());
}

#[test]
fn wide_name_of_ascii() {
    assert_eq!(wide_name("N1"), Ok(vec![0x4e, 0x31, 0]));
    assert_eq!(wide_name("a"), Ok(vec![0x61, 0]));
}

#[test]
fn wide_name_beyond_ascii() {
    // One unit for a character below 0x10000, two surrogates above.
    assert_eq!(wide_name("é"), Ok(vec![0xe9, 0]));
    assert_eq!(wide_name("€"), Ok(vec![0x20ac, 0]));
    assert_eq!(wide_name("\u{ffff}"), Ok(vec![0xffff, 0]));
    assert_eq!(wide_name("\u{10000}"), Ok(vec![0xd800, 0xdc00, 0]));
    assert_eq!(wide_name("😀"), Ok(vec![0xd83d, 0xde00, 0]));
    assert_eq!(wide_name("\u{10ffff}"), Ok(vec![0xdbff, 0xdfff, 0]));
    assert_eq!(wide_name("a😀b"), Ok(vec![0x61, 0xd83d, 0xde00, 0x62, 0]));
}

#[test]
fn wide_name_of_an_invalid_name() {
    assert_eq!(wide_name(""), Err(SingleInstanceError::InvalidName));
    assert_eq!(wide_name("My\0String"), Err(SingleInstanceError::InvalidName));
    assert_eq!(wide_name("end\0"), Err(SingleInstanceError::InvalidName));
    assert_eq!(wide_name("\0"), Err(SingleInstanceError::InvalidName));
}

#[test]
fn a_wide_name_ends_at_its_only_nul() {
    for name in ["N1", "naïve name 😀", "aa2d0258-ffe9-11e7-ba89-0ed5f89f718b", " "] {
        let units = wide_name(name).unwrap();
        assert_eq!(units.iter().position(|&unit| unit == 0), Some(units.len() - 1));
        assert_eq!(String::from_utf16(&units[..units.len() - 1]).unwrap(), name);
    }
}

#[test]
fn different_names_have_different_wide_names() {
    let names = ["N1", "N2", "n1", "N", "N11", "😀", "😁", "\u{d7ff}", "\u{e000}"];
    for (i, name) in names.iter().enumerate() {
        for other in &names[i + 1..] {
            assert_ne!(wide_name(name), wide_name(other));
        }
    }
}
