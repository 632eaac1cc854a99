//! Claims made for real, against the kernel of the machine that runs them.

use single_instance::backend::Backend;
use single_instance::error::SingleInstanceError;
use single_instance::instance::SingleInstance;

/// A path under /tmp that no other run of these tests uses.
fn lock_path(test: &str) -> String {
    format!("/tmp/single-instance.{}.{}.lock", test, nix::unistd::getpid())
}

/// Removes what a test left in the file system.
fn remove(path: &str) {
    let _ = nix::unistd::unlink(path);
}

#[test]
fn test_single_instance_windows() {
    {
        let instance_a = SingleInstance::new("aa2d0258-ffe9-11e7-ba89-0ed5f89f718b").unwrap();
        assert!(instance_a.is_single());
        let instance_b = SingleInstance::new("aa2d0258-ffe9-11e7-ba89-0ed5f89f718b").unwrap();
        assert!(!instance_b.is_single());
    }
    let instance_c = SingleInstance::new("aa2d0258-ffe9-11e7-ba89-0ed5f89f718b").unwrap();
    assert!(instance_c.is_single());
}

#[test]
fn claim_release_claim_on_n1() {
    let first = SingleInstance::new("N1").unwrap();
    assert!(first.is_single());
    let second = SingleInstance::new("N1").unwrap();
    assert!(!second.is_single());
    drop(first);
    let third = SingleInstance::new("N1").unwrap();
    assert!(third.is_single());
}

#[test]
fn claim_release_claim_on_a_lock_file() {
    let path = lock_path("claim-release-claim");
    let first = SingleInstance::with_backend(&path, Backend::FileLock).unwrap();
    assert!(first.is_single());
    let second = SingleInstance::with_backend(&path, Backend::FileLock).unwrap();
    assert!(!second.is_single());
    drop(first);
    let third = SingleInstance::with_backend(&path, Backend::FileLock).unwrap();
    assert!(third.is_single());
    remove(&path);
}

#[test]
fn the_answer_of_a_claim_never_changes() {
    let winner = SingleInstance::new("single-instance.fixed-answer").unwrap();
    let loser = SingleInstance::new("single-instance.fixed-answer").unwrap();
    for _ in 0..3 {
        assert!(winner.is_single());
        assert!(!loser.is_single());
    }
    drop(winner);
    // The name is free now, but the claim that lost still says what it found.
    assert!(!loser.is_single());
}

#[test]
fn different_names_do_not_meet() {
    let a = SingleInstance::new("single-instance.apart.a").unwrap();
    let b = SingleInstance::new("single-instance.apart.b").unwrap();
    assert!(a.is_single());
    assert!(b.is_single());
    drop(a);
    let b_again = SingleInstance::new("single-instance.apart.b").unwrap();
    assert!(!b_again.is_single());
    let a_again = SingleInstance::new("single-instance.apart.a").unwrap();
    assert!(a_again.is_single());
}

#[test]
fn different_lock_files_do_not_meet() {
    let path_a = lock_path("apart.a");
    let path_b = lock_path("apart.b");
    let a = SingleInstance::with_backend(&path_a, Backend::FileLock).unwrap();
    let b = SingleInstance::with_backend(&path_b, Backend::FileLock).unwrap();
    assert!(b.is_single());
    assert!(a.is_single());
    remove(&path_a);
    remove(&path_b);
}

#[test]
fn a_socket_name_and_a_file_name_do_not_meet() {
    let name = lock_path("two-mechanisms");
    let socket = SingleInstance::with_backend(&name, Backend::AbstractSocket).unwrap();
    let file = SingleInstance::with_backend(&name, Backend::FileLock).unwrap();
    assert!(socket.is_single());
    assert!(file.is_single());
    remove(&name);
}

#[test]
fn dropping_the_loser_leaves_the_winner_alone() {
    let winner = SingleInstance::new("single-instance.loser-drop").unwrap();
    let loser = SingleInstance::new("single-instance.loser-drop").unwrap();
    assert!(winner.is_single());
    assert!(!loser.is_single());
    drop(loser);
    assert!(winner.is_single());
    let later = SingleInstance::new("single-instance.loser-drop").unwrap();
    assert!(!later.is_single());
}

#[test]
fn dropping_the_loser_leaves_the_locked_file_alone() {
    let path = lock_path("loser-drop");
    let winner = SingleInstance::with_backend(&path, Backend::FileLock).unwrap();
    let loser = SingleInstance::with_backend(&path, Backend::FileLock).unwrap();
    assert!(winner.is_single());
    assert!(!loser.is_single());
    drop(loser);
    let later = SingleInstance::with_backend(&path, Backend::FileLock).unwrap();
    assert!(!later.is_single());
    assert!(winner.is_single());
    remove(&path);
}

#[test]
fn a_name_with_a_nul_is_invalid() {
    assert!(matches!(SingleInstance::new("bad\0name"), Err(SingleInstanceError::InvalidName)));
    assert!(matches!(
        SingleInstance::with_backend("/tmp/bad\0name", Backend::FileLock),
        Err(SingleInstanceError::InvalidName)
    ));
    // Nothing was claimed on the way: the part before the NUL is still free.
    assert!(SingleInstance::new("bad").unwrap().is_single());
}

#[test]
fn an_empty_name_is_invalid() {
    assert!(matches!(SingleInstance::new(""), Err(SingleInstanceError::InvalidName)));
    assert!(matches!(
        SingleInstance::with_backend("", Backend::FileLock),
        Err(SingleInstanceError::InvalidName)
    ));
}

#[test]
fn a_name_too_long_for_an_address_is_refused() {
    let fits = "n".repeat(107);
    let too_long = "n".repeat(108);
    assert!(SingleInstance::new(&fits).unwrap().is_single());
    assert!(matches!(
        SingleInstance::new(&too_long),
        Err(SingleInstanceError::ResourceCreationFailed(_))
    ));
}

#[test]
fn the_length_of_a_socket_name_counts_in_bytes() {
    // 54 characters of two bytes each are 108 bytes.
    let too_long = "é".repeat(54);
    assert!(matches!(
        SingleInstance::new(&too_long),
        Err(SingleInstanceError::ResourceCreationFailed(_))
    ));
    let fits = "é".repeat(53);
    assert!(SingleInstance::new(&fits).unwrap().is_single());
}

#[test]
fn a_lock_file_that_cannot_be_created_is_refused() {
    let claim = SingleInstance::with_backend(
        "/tmp/single-instance.no-such-directory/name.lock",
        Backend::FileLock,
    );
    // ENOENT
    assert!(matches!(claim, Err(SingleInstanceError::ResourceCreationFailed(2))));
}

#[test]
fn a_directory_is_no_lock_file() {
    let claim = SingleInstance::with_backend("/tmp", Backend::FileLock);
    // EISDIR
    assert!(matches!(claim, Err(SingleInstanceError::ResourceCreationFailed(21))));
}

#[test]
fn a_claim_knows_its_name_and_mechanism() {
    let socket = SingleInstance::new("single-instance.getters").unwrap();
    assert_eq!(socket.name(), "single-instance.getters");
    assert_eq!(socket.backend(), Backend::AbstractSocket);
    let path = lock_path("getters");
    let file = SingleInstance::with_backend(&path, Backend::FileLock).unwrap();
    assert_eq!(file.name(), path);
    assert_eq!(file.backend(), Backend::FileLock);
    remove(&path);
}

#[test]
fn many_losers_close_what_they_opened() {
    // If a claim that lost kept its descriptor, this would run out of them.
    let winner = SingleInstance::new("single-instance.many-losers").unwrap();
    assert!(winner.is_single());
    for _ in 0..5000 {
        let loser = SingleInstance::new("single-instance.many-losers").unwrap();
        assert!(!loser.is_single());
        std::mem::forget(loser);
    }
}

#[test]
fn many_refusals_close_what_they_opened() {
    for _ in 0..5000 {
        let claim = SingleInstance::with_backend("/tmp", Backend::FileLock);
        assert!(claim.is_err());
    }
    assert!(SingleInstance::new("single-instance.many-refusals").unwrap().is_single());
}

fn shareable<T: Send + Sync>(_: &T) {}

#[test]
fn a_claim_can_be_shared_between_threads() {
    let claim = SingleInstance::new("single-instance.shareable").unwrap();
    shareable(&claim);
    assert!(claim.is_single());
}

#[test]
fn a_lock_file_is_for_its_owner_only() {
    let path = lock_path("owner-only");
    let claim = SingleInstance::with_backend(&path, Backend::FileLock).unwrap();
    assert!(claim.is_single());
    let status = nix::sys::stat::stat(path.as_str()).unwrap();
    assert_eq!(status.st_mode & 0o7777, 0o600);
    assert_eq!(status.st_size, 0);
    remove(&path);
}

#[test]
fn a_lock_file_stays_when_its_claim_is_dropped() {
    let path = lock_path("stays");
    drop(SingleInstance::with_backend(&path, Backend::FileLock).unwrap());
    assert!(nix::sys::stat::stat(path.as_str()).is_ok());
    assert!(SingleInstance::with_backend(&path, Backend::FileLock).unwrap().is_single());
    remove(&path);
}
