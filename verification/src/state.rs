//! How one machine word encodes the borrows of a cell, and what each acquire
//! decides from the word that its atomic operation observed.
//!
//! | word | meaning |
//! |---|---|
//! | `0` | no borrow |
//! | `1 .. HIGH_BIT` | that many shared borrows |
//! | `HIGH_BIT` | one exclusive borrow |
//! | above `HIGH_BIT` | one exclusive borrow, and `word - HIGH_BIT` shared acquires that failed under it |
use crate::error::ErrorKind;
use vstd::prelude::*;

verus! {

/// The exclusive flag: the topmost bit of the state word.
pub const HIGH_BIT: usize = usize::MAX / 2 + 1;

/// The word at which a failed shared acquire must end the process: the flag
/// and half as much again, far below the point where the word would wrap.
pub const MAX_FAILED_BORROWS: usize = HIGH_BIT + HIGH_BIT / 2;

/// What a state word says of the borrows.
pub enum Mode {
    /// No borrow.
    Free,
    /// That many shared borrows.
    Shared(nat),
    /// The exclusive borrow, and that many increments that shared acquires
    /// have left above the flag.
    Exclusive(nat),
}

/// Whether the exclusive flag is set in `word`: the words from `HIGH_BIT` on
/// are those with the topmost bit set.
pub open spec fn is_exclusive(word: usize) -> bool {
    word >= HIGH_BIT
}

/// What `word` says of the borrows.
pub open spec fn mode(word: usize) -> Mode {
    if word == 0 {
        Mode::Free
    } else if is_exclusive(word) {
        Mode::Exclusive((word - HIGH_BIT) as nat)
    } else {
        Mode::Shared(word as nat)
    }
}

/// What a shared acquire decides once its increment has produced `new`.
///
/// It is granted unless `new` carries the flag. An increment that lands on
/// the flag itself was made on the largest count of shared borrows; one that
/// lands above it was made under an exclusive borrow.
pub open spec fn shared_outcome(new: usize) -> Result<(), ErrorKind> {
    match mode(new) {
        Mode::Free => Ok(()),
        Mode::Shared(_) => Ok(()),
        Mode::Exclusive(above) => if above == 0 {
            Err(ErrorKind::CountOverflow)
        } else if new >= MAX_FAILED_BORROWS {
            Err(ErrorKind::CatastrophicOverflow)
        } else {
            Err(ErrorKind::AlreadyExclusivelyBorrowed)
        },
    }
}

/// What an exclusive acquire decides once its exchange has found `old`.
pub open spec fn exclusive_outcome(old: usize) -> Result<(), ErrorKind> {
    match mode(old) {
        Mode::Free => Ok(()),
        Mode::Shared(_) => Err(ErrorKind::AlreadySharedBorrowed),
        Mode::Exclusive(_) => Err(ErrorKind::AlreadyExclusivelyBorrowed),
    }
}

/// The flag is the upper half of the word's range, and the abort threshold
/// lies strictly between the flag and the largest word.
pub proof fn law_word_layout()
    ensures
        2 * HIGH_BIT == usize::MAX + 1,
        2 <= HIGH_BIT < MAX_FAILED_BORROWS < usize::MAX,
{
}

/// Tests the topmost bit of `word`.
pub fn has_exclusive_flag(word: usize) -> (flag: bool)
    ensures
        flag == is_exclusive(word),
{
    proof {
        let wide: u64 = word as u64;
        if usize::BITS == 64 {
            assert((wide & 0x8000_0000_0000_0000u64 != 0) <==> wide >= 0x8000_0000_0000_0000u64)
                by (bit_vector);
        } else {
            assert((wide & 0x8000_0000u64 != 0) <==> wide >= 0x8000_0000u64) by (bit_vector)
                requires
                    wide <= 0xffff_ffffu64,
            ;
        }
        assert((word & HIGH_BIT) as u64 == wide & (HIGH_BIT as u64));
    }
    word & HIGH_BIT != 0
}

} // verus!
