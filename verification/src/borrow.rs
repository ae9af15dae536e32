//! The acquire and release protocols on the atomic state word.
//!
//! A shared acquire increments the word and looks at the result; it never
//! touches the exclusive flag. An exclusive acquire swaps the flag in only if
//! the word is zero; when it fails it has changed nothing. So a failure on
//! one side leaves the other side's borrows as they were, and the one write
//! that an exclusive release makes wipes out whatever failed shared acquires
//! have added above the flag.
//!
//! Other threads may change the word between any two calls, so the contract
//! of a function that reads the word says what holds whatever it observed.
//! What is decided from an observed word is stated exactly, by
//! [`AtomicBorrowRef::from_incremented`] and
//! [`AtomicBorrowRefMut::from_exchanged`] over [`crate::state`], and
//! [`crate::protocol`] proves the laws of the protocol as a whole.
//!
//! Every function here works on a state word that its caller hands in. A
//! cell keeps its word to itself, so a borrow of a cell comes from an
//! acquire on that cell and from nowhere else.
use crate::error::ErrorKind;
use crate::state::exclusive_outcome;
use crate::state::has_exclusive_flag;
use crate::state::is_exclusive;
use crate::state::shared_outcome;
use crate::state::HIGH_BIT;
use crate::state::MAX_FAILED_BORROWS;
use std::sync::atomic::AtomicUsize;
use std::sync::atomic::Ordering;
use vstd::prelude::*;

verus! {

/// One live shared borrow of a state word. Dropping it releases the borrow.
pub struct AtomicBorrowRef<'b> {
    borrow: &'b AtomicUsize,
}

impl<'b> AtomicBorrowRef<'b> {
    /// The state word that this borrow was taken from and is released to.
    pub closed spec fn state(&self) -> &'b AtomicUsize {
        self.borrow
    }

    /// Tries to take a shared borrow of `borrow`.
    ///
    /// The word is incremented with acquire ordering in any case, and
    /// [`Self::from_incremented`] settles the acquire from the word that the
    /// increment produced. Of the failures, only
    /// `AlreadyExclusivelyBorrowed` is one to carry on from; for the two
    /// overflows see [`ErrorKind::escalation`].
    pub fn try_new(borrow: &'b AtomicUsize) -> (res: Result<Self, ErrorKind>)
        ensures
            res matches Ok(guard) ==> guard.state() == borrow,
            res matches Err(kind) ==> kind.is_shared_fault(),
    {
        let new: usize = borrow.fetch_add(1, Ordering::Acquire).wrapping_add(1);
        Self::from_incremented(borrow, new)
    }

    /// Settles a shared acquire whose increment of `borrow` has produced
    /// `new`: the borrow is granted if `new` has the exclusive flag clear,
    /// and otherwise [`Self::check_overflow`] names the failure.
    pub fn from_incremented(borrow: &'b AtomicUsize, new: usize) -> (res: Result<Self, ErrorKind>)
        ensures
            match res {
                Ok(guard) => shared_outcome(new) is Ok && guard.state() == borrow,
                Err(kind) => shared_outcome(new) == Err::<(), ErrorKind>(kind)
                    && kind.is_shared_fault(),
            },
    {
        if has_exclusive_flag(new) {
            Err(Self::check_overflow(borrow, new))
        } else {
            Ok(AtomicBorrowRef { borrow })
        }
    }

    /// Names the failure of a shared acquire whose increment produced `new`,
    /// a word with the exclusive flag set.
    ///
    /// Where `new` is the flag itself, the count of shared borrows has run
    /// into the flag: the increment is taken back, with release ordering, so
    /// that the word counts the live shared borrows again. In the other two
    /// cases the increment stays: it lies above the flag of a live exclusive
    /// borrow, whose release clears the whole word.
    pub fn check_overflow(borrow: &'b AtomicUsize, new: usize) -> (kind: ErrorKind)
        requires
            is_exclusive(new),
        ensures
            shared_outcome(new) == Err::<(), ErrorKind>(kind),
            kind.is_shared_fault(),
    {
        if new == HIGH_BIT {
            borrow.fetch_sub(1, Ordering::Release);
            ErrorKind::CountOverflow
        } else if new >= MAX_FAILED_BORROWS {
            ErrorKind::CatastrophicOverflow
        } else {
            ErrorKind::AlreadyExclusivelyBorrowed
        }
    }

    /// Tries to take one more shared borrow of the same state word.
    pub fn try_clone(&self) -> (res: Result<Self, ErrorKind>)
        ensures
            res matches Ok(guard) ==> guard.state() == self.state(),
            res matches Err(kind) ==> kind.is_shared_fault(),
    {
        Self::try_new(self.borrow)
    }
}

impl<'b> Drop for AtomicBorrowRef<'b> {
    /// Releases the shared borrow: calls `AtomicUsize::fetch_sub` on the
    /// state word, with 1 and release ordering. Nothing is claimed of the
    /// word it leaves.
    #[verifier::external_body]
    fn drop(&mut self)
        opens_invariants none
        no_unwind
    {
        self.borrow.fetch_sub(1, Ordering::Release);
    }
}

/// The one live exclusive borrow of a state word. Dropping it releases the
/// borrow.
pub struct AtomicBorrowRefMut<'b> {
    borrow: &'b AtomicUsize,
}

impl<'b> AtomicBorrowRefMut<'b> {
    /// The state word that this borrow was taken from and is released to.
    pub closed spec fn state(&self) -> &'b AtomicUsize {
        self.borrow
    }

    /// Tries to take the exclusive borrow of `borrow`.
    ///
    /// One compare-and-swap replaces a zero word by the flag, with acquire
    /// ordering where it succeeds. Where the word is not zero nothing is
    /// written, so live shared borrows keep their count.
    /// [`Self::from_exchanged`] settles the acquire from the word that was
    /// found.
    pub fn try_new(borrow: &'b AtomicUsize) -> (res: Result<Self, ErrorKind>)
        ensures
            res matches Ok(guard) ==> guard.state() == borrow,
            res matches Err(kind) ==> kind.is_exclusive_fault(),
    {
        let old: usize = match borrow.compare_exchange(
            0,
            HIGH_BIT,
            Ordering::Acquire,
            Ordering::Relaxed,
        ) {
            Ok(found) => found,
            Err(found) => found,
        };
        Self::from_exchanged(borrow, old)
    }

    /// Settles an exclusive acquire whose compare-and-swap on `borrow` has
    /// found `old`: the borrow is granted if `old` is zero, refused as shared
    /// if `old` is a count, and refused as exclusive if `old` has the flag.
    pub fn from_exchanged(borrow: &'b AtomicUsize, old: usize) -> (res: Result<Self, ErrorKind>)
        ensures
            match res {
                Ok(guard) => exclusive_outcome(old) is Ok && guard.state() == borrow,
                Err(kind) => exclusive_outcome(old) == Err::<(), ErrorKind>(kind)
                    && kind.is_exclusive_fault(),
            },
    {
        if old == 0 {
            Ok(AtomicBorrowRefMut { borrow })
        } else if has_exclusive_flag(old) {
            Err(ErrorKind::AlreadyExclusivelyBorrowed)
        } else {
            Err(ErrorKind::AlreadySharedBorrowed)
        }
    }
}

impl<'b> Drop for AtomicBorrowRefMut<'b> {
    /// Releases the exclusive borrow: calls `AtomicUsize::store` on the state
    /// word, with 0 and release ordering. Nothing is claimed of the word it
    /// leaves.
    #[verifier::external_body]
    fn drop(&mut self)
        opens_invariants none
        no_unwind
    {
        self.borrow.store(0, Ordering::Release);
    }
}

} // verus!
