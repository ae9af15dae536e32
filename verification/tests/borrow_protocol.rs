use atomic_refcell::AtomicBorrowRef;
use atomic_refcell::AtomicBorrowRefMut;
use atomic_refcell::AtomicRef;
use atomic_refcell::ErrorKind;
use atomic_refcell::Escalation;
use atomic_refcell::HIGH_BIT;
use atomic_refcell::MAX_FAILED_BORROWS;
use std::sync::atomic::AtomicUsize;
use std::sync::atomic::Ordering;

fn word(state: &AtomicUsize) -> usize {
    state.load(Ordering::SeqCst)
}

#[test]
fn readers_then_writer_scenario() {
    let state = AtomicUsize::new(0);
    let value = 5;

    let a = AtomicRef::new(&value, AtomicBorrowRef::try_new(&state).unwrap());
    assert_eq!(word(&state), 1);
    assert_eq!(*a, 5);

    let b = AtomicRef::new(&value, AtomicBorrowRef::try_new(&state).unwrap());
    assert_eq!(word(&state), 2);
    assert_eq!(*b, 5);

    assert_eq!(
        AtomicBorrowRefMut::try_new(&state).err(),
        Some(ErrorKind::AlreadySharedBorrowed)
    );
    assert_eq!(word(&state), 2);

    drop(a);
    assert_eq!(word(&state), 1);
    drop(b);
    assert_eq!(word(&state), 0);

    let m = AtomicBorrowRefMut::try_new(&state).unwrap();
    assert_eq!(word(&state), HIGH_BIT);

    assert_eq!(
        AtomicBorrowRef::try_new(&state).err(),
        Some(ErrorKind::AlreadyExclusivelyBorrowed)
    );

    drop(m);
    assert_eq!(word(&state), 0);
}

#[test]
fn shared_acquire_counts_up_from_zero() {
    let state = AtomicUsize::new(0);
    let first = AtomicBorrowRef::try_new(&state);
    assert!(first.is_ok());
    assert_eq!(word(&state), 1);
    let second = AtomicBorrowRef::try_new(&state);
    assert!(second.is_ok());
    assert_eq!(word(&state), 2);
    let third = AtomicBorrowRef::try_new(&state);
    assert!(third.is_ok());
    assert_eq!(word(&state), 3);
    drop(second);
    assert_eq!(word(&state), 2);
    drop(first);
    drop(third);
    assert_eq!(word(&state), 0);
}

#[test]
fn largest_shared_count_is_still_granted() {
    let state = AtomicUsize::new(HIGH_BIT - 2);
    let last = AtomicBorrowRef::try_new(&state);
    assert!(last.is_ok());
    assert_eq!(word(&state), HIGH_BIT - 1);
    drop(last);
    assert_eq!(word(&state), HIGH_BIT - 2);
}

#[test]
fn count_overflow_is_named_and_rolled_back() {
    let state = AtomicUsize::new(HIGH_BIT - 1);
    let refused = AtomicBorrowRef::try_new(&state).err();
    assert_eq!(refused, Some(ErrorKind::CountOverflow));
    assert_eq!(word(&state), HIGH_BIT - 1);
    assert_eq!(ErrorKind::CountOverflow.escalation(), Escalation::Trap);

    let again = AtomicBorrowRef::try_new(&state).err();
    assert_eq!(again, Some(ErrorKind::CountOverflow));
    assert_eq!(word(&state), HIGH_BIT - 1);
}

#[test]
fn failed_attempts_under_a_writer_reach_the_abort_threshold() {
    let state = AtomicUsize::new(0);
    let m = AtomicBorrowRefMut::try_new(&state).unwrap();
    assert_eq!(word(&state), HIGH_BIT);

    state.store(MAX_FAILED_BORROWS - 2, Ordering::SeqCst);
    assert_eq!(
        AtomicBorrowRef::try_new(&state).err(),
        Some(ErrorKind::AlreadyExclusivelyBorrowed)
    );
    assert_eq!(word(&state), MAX_FAILED_BORROWS - 1);

    let fatal = AtomicBorrowRef::try_new(&state).err();
    assert_eq!(fatal, Some(ErrorKind::CatastrophicOverflow));
    assert_eq!(word(&state), MAX_FAILED_BORROWS);
    assert_eq!(ErrorKind::CatastrophicOverflow.escalation(), Escalation::Abort);

    drop(m);
    assert_eq!(word(&state), 0);
}

#[test]
fn shared_acquire_under_a_writer_is_refused_and_leaves_a_stray_increment() {
    let state = AtomicUsize::new(0);
    let m = AtomicBorrowRefMut::try_new(&state).unwrap();
    assert_eq!(
        AtomicBorrowRef::try_new(&state).err(),
        Some(ErrorKind::AlreadyExclusivelyBorrowed)
    );
    assert_eq!(word(&state), HIGH_BIT + 1);
    assert_eq!(
        AtomicBorrowRef::try_new(&state).err(),
        Some(ErrorKind::AlreadyExclusivelyBorrowed)
    );
    assert_eq!(word(&state), HIGH_BIT + 2);
    drop(m);
}

#[test]
fn exclusive_acquire_under_a_writer_is_refused_and_writes_nothing() {
    let state = AtomicUsize::new(0);
    let m = AtomicBorrowRefMut::try_new(&state).unwrap();
    assert_eq!(
        AtomicBorrowRefMut::try_new(&state).err(),
        Some(ErrorKind::AlreadyExclusivelyBorrowed)
    );
    assert_eq!(word(&state), HIGH_BIT);
    drop(m);
    assert_eq!(word(&state), 0);
}

#[test]
fn exclusive_acquire_under_readers_is_refused_and_writes_nothing() {
    let state = AtomicUsize::new(0);
    let a = AtomicBorrowRef::try_new(&state).unwrap();
    assert_eq!(
        AtomicBorrowRefMut::try_new(&state).err(),
        Some(ErrorKind::AlreadySharedBorrowed)
    );
    assert_eq!(word(&state), 1);
    let b = a.try_clone().unwrap();
    assert_eq!(
        AtomicBorrowRefMut::try_new(&state).err(),
        Some(ErrorKind::AlreadySharedBorrowed)
    );
    assert_eq!(word(&state), 2);
    drop(a);
    drop(b);
    assert!(AtomicBorrowRefMut::try_new(&state).is_ok());
}

#[test]
fn exclusive_release_clears_every_stray_increment() {
    for failures in [0usize, 1, 2, 17, 1000] {
        let state = AtomicUsize::new(0);
        let m = AtomicBorrowRefMut::try_new(&state).unwrap();
        for _ in 0..failures {
            assert!(AtomicBorrowRef::try_new(&state).is_err());
        }
        assert_eq!(word(&state), HIGH_BIT + failures);
        drop(m);
        assert_eq!(word(&state), 0);
        assert!(AtomicBorrowRef::try_new(&state).is_ok());
    }
}

#[test]
fn acquire_and_release_restore_the_word() {
    let state = AtomicUsize::new(0);
    let kept = AtomicBorrowRef::try_new(&state).unwrap();
    let before = word(&state);
    let passing = AtomicBorrowRef::try_new(&state).unwrap();
    assert_eq!(word(&state), before + 1);
    drop(passing);
    assert_eq!(word(&state), before);
    drop(kept);

    let before = word(&state);
    let writer = AtomicBorrowRefMut::try_new(&state).unwrap();
    drop(writer);
    assert_eq!(word(&state), before);
}

#[test]
fn try_clone_takes_a_borrow_of_its_own() {
    let state = AtomicUsize::new(0);
    let a = AtomicBorrowRef::try_new(&state).unwrap();
    let b = a.try_clone().unwrap();
    assert_eq!(word(&state), 2);
    drop(a);
    assert_eq!(word(&state), 1);
    drop(b);
    assert_eq!(word(&state), 0);
}

#[test]
fn try_clone_at_the_largest_count_overflows() {
    let state = AtomicUsize::new(0);
    let a = AtomicBorrowRef::try_new(&state).unwrap();
    state.store(HIGH_BIT - 1, Ordering::SeqCst);
    assert_eq!(a.try_clone().err(), Some(ErrorKind::CountOverflow));
    assert_eq!(word(&state), HIGH_BIT - 1);
    state.store(1, Ordering::SeqCst);
    drop(a);
    assert_eq!(word(&state), 0);
}

#[test]
fn no_interleaving_of_a_script_mixes_readers_and_a_writer() {
    let state = AtomicUsize::new(0);
    let mut readers: Vec<AtomicBorrowRef> = Vec::new();
    let mut writers: Vec<AtomicBorrowRefMut> = Vec::new();
    let script = [0u8, 0, 2, 1, 2, 1, 2, 0, 2, 3, 0, 2, 1, 3, 3, 0, 0, 1, 1, 2, 3, 2, 0];
    for step in script {
        match step {
            0 => {
                if let Ok(guard) = AtomicBorrowRef::try_new(&state) {
                    readers.push(guard);
                }
            }
            1 => {
                readers.pop();
            }
            2 => {
                if let Ok(guard) = AtomicBorrowRefMut::try_new(&state) {
                    writers.push(guard);
                }
            }
            _ => {
                writers.pop();
            }
        }
        assert!(writers.len() <= 1);
        assert!(writers.is_empty() || readers.is_empty());
        if writers.is_empty() {
            assert_eq!(word(&state), readers.len());
        } else {
            assert!(word(&state) >= HIGH_BIT);
        }
    }
}

#[test]
fn from_incremented_settles_by_the_incremented_word() {
    let state = AtomicUsize::new(1);
    let granted = AtomicBorrowRef::from_incremented(&state, 1);
    assert!(granted.is_ok());
    assert_eq!(word(&state), 1);
    drop(granted);
    assert_eq!(word(&state), 0);

    let state = AtomicUsize::new(HIGH_BIT - 1);
    assert!(AtomicBorrowRef::from_incremented(&state, HIGH_BIT - 1).is_ok());
    assert_eq!(word(&state), HIGH_BIT - 2);

    let state = AtomicUsize::new(HIGH_BIT);
    assert_eq!(
        AtomicBorrowRef::from_incremented(&state, HIGH_BIT).err(),
        Some(ErrorKind::CountOverflow)
    );
    assert_eq!(word(&state), HIGH_BIT - 1);

    let state = AtomicUsize::new(HIGH_BIT + 1);
    assert_eq!(
        AtomicBorrowRef::from_incremented(&state, HIGH_BIT + 1).err(),
        Some(ErrorKind::AlreadyExclusivelyBorrowed)
    );
    assert_eq!(word(&state), HIGH_BIT + 1);

    let state = AtomicUsize::new(MAX_FAILED_BORROWS);
    assert_eq!(
        AtomicBorrowRef::from_incremented(&state, MAX_FAILED_BORROWS).err(),
        Some(ErrorKind::CatastrophicOverflow)
    );
    assert_eq!(word(&state), MAX_FAILED_BORROWS);
}

#[test]
fn from_exchanged_settles_by_the_word_that_was_found() {
    let state = AtomicUsize::new(HIGH_BIT);
    let granted = AtomicBorrowRefMut::from_exchanged(&state, 0);
    assert!(granted.is_ok());
    assert_eq!(word(&state), HIGH_BIT);
    drop(granted);
    assert_eq!(word(&state), 0);

    let state = AtomicUsize::new(3);
    assert_eq!(
        AtomicBorrowRefMut::from_exchanged(&state, 3).err(),
        Some(ErrorKind::AlreadySharedBorrowed)
    );
    assert_eq!(word(&state), 3);

    let state = AtomicUsize::new(HIGH_BIT + 2);
    assert_eq!(
        AtomicBorrowRefMut::from_exchanged(&state, HIGH_BIT + 2).err(),
        Some(ErrorKind::AlreadyExclusivelyBorrowed)
    );
    assert_eq!(word(&state), HIGH_BIT + 2);
}
