//! The borrow protocol as a transition system, and the laws that hold of
//! every interleaving.
//!
//! A state of the system is the state word together with the borrows that
//! are live. Each step is one atomic operation of [`crate::borrow`], taken
//! with the decision that follows it, so a trace of steps is one
//! interleaving of the acquires and releases that any number of threads make
//! on one cell:
//!
//! | step | atomic operation |
//! |---|---|
//! | `AcquireShared` | the `fetch_add` of `AtomicBorrowRef::try_new` |
//! | `RollBack` | the `fetch_sub` of `AtomicBorrowRef::check_overflow` |
//! | `ReleaseShared` | the `fetch_sub` of the drop of an `AtomicBorrowRef` |
//! | `AcquireExclusive` | the `compare_exchange` of `AtomicBorrowRefMut::try_new` |
//! | `ReleaseExclusive` | the `store` of the drop of an `AtomicBorrowRefMut` |
//!
//! A release is a step only of a borrow that is live, since it is the drop of
//! that borrow; every step that cannot occur leaves the state as it is. To
//! narrow a guard is no step: it moves a live borrow from one guard into
//! another. The step that reaches the abort threshold is the last one: the
//! process is taken to end with it.
use crate::error::ErrorKind;
use crate::state::exclusive_outcome;
use crate::state::is_exclusive;
use crate::state::mode;
use crate::state::shared_outcome;
use crate::state::Mode;
use crate::state::HIGH_BIT;
use crate::state::MAX_FAILED_BORROWS;
use vstd::prelude::*;

verus! {

/// The state word and the borrows that are live.
pub struct Protocol {
    /// The state word.
    pub word: usize,
    /// The shared borrows that were granted and not yet released.
    pub shared: nat,
    /// The exclusive borrows that were granted and not yet released.
    pub exclusive: nat,
    /// The shared acquires that found the count on the flag and have not yet
    /// taken their increment back.
    pub pending: nat,
    /// The increments that refused shared acquires have left in the word
    /// since the last release of an exclusive borrow.
    pub strays: nat,
    /// How often a shared acquire has found the count on the flag.
    pub overflows: nat,
    /// Whether a shared acquire has reached the abort threshold. Nothing
    /// happens after that.
    pub aborted: bool,
}

/// One atomic operation on the state word.
pub enum Step {
    /// The increment of a shared acquire.
    AcquireShared,
    /// The decrement by which a shared acquire that found the count on the
    /// flag takes its increment back.
    RollBack,
    /// The decrement that releases a shared borrow.
    ReleaseShared,
    /// The compare-and-swap of an exclusive acquire.
    AcquireExclusive,
    /// The store that releases the exclusive borrow.
    ReleaseExclusive,
}

/// A fresh cell: a zero word and no borrow.
pub open spec fn init() -> Protocol {
    Protocol {
        word: 0,
        shared: 0,
        exclusive: 0,
        pending: 0,
        strays: 0,
        overflows: 0,
        aborted: false,
    }
}

/// The word after an atomic increment, which wraps.
pub open spec fn incremented(word: usize) -> usize {
    if word == usize::MAX {
        0
    } else {
        (word + 1) as usize
    }
}

/// The word after an atomic decrement, which wraps.
pub open spec fn decremented(word: usize) -> usize {
    if word == 0 {
        usize::MAX
    } else {
        (word - 1) as usize
    }
}

/// What a shared acquire that starts in `s` returns.
pub open spec fn try_shared(s: Protocol) -> Result<(), ErrorKind> {
    shared_outcome(incremented(s.word))
}

/// What an exclusive acquire that starts in `s` returns.
pub open spec fn try_exclusive(s: Protocol) -> Result<(), ErrorKind> {
    exclusive_outcome(s.word)
}

/// Whether `step` can occur in `s`.
pub open spec fn enabled(s: Protocol, step: Step) -> bool {
    !s.aborted && match step {
        Step::AcquireShared => true,
        Step::RollBack => s.pending > 0,
        Step::ReleaseShared => s.shared > 0,
        Step::AcquireExclusive => true,
        Step::ReleaseExclusive => s.exclusive > 0,
    }
}

/// The state after `step`, which leaves `s` alone where it cannot occur.
pub open spec fn after(s: Protocol, step: Step) -> Protocol {
    if !enabled(s, step) {
        s
    } else {
        match step {
            Step::AcquireShared => {
                let word: usize = incremented(s.word);
                match try_shared(s) {
                    Ok(()) => Protocol { word, shared: s.shared + 1, ..s },
                    Err(ErrorKind::CountOverflow) => Protocol {
                        word,
                        pending: s.pending + 1,
                        overflows: s.overflows + 1,
                        ..s
                    },
                    Err(ErrorKind::CatastrophicOverflow) => Protocol {
                        word,
                        strays: s.strays + 1,
                        aborted: true,
                        ..s
                    },
                    Err(_) => Protocol { word, strays: s.strays + 1, ..s },
                }
            },
            Step::RollBack => Protocol {
                word: decremented(s.word),
                pending: (s.pending - 1) as nat,
                ..s
            },
            Step::ReleaseShared => Protocol {
                word: decremented(s.word),
                shared: (s.shared - 1) as nat,
                ..s
            },
            Step::AcquireExclusive => match try_exclusive(s) {
                Ok(()) => Protocol { word: HIGH_BIT, exclusive: s.exclusive + 1, ..s },
                Err(_) => s,
            },
            Step::ReleaseExclusive => Protocol {
                word: 0,
                exclusive: (s.exclusive - 1) as nat,
                strays: 0,
                ..s
            },
        }
    }
}

/// The state that a fresh cell is in after the steps of `trace`, in order.
pub open spec fn run(trace: Seq<Step>) -> Protocol
    decreases trace.len(),
{
    if trace.len() == 0 {
        init()
    } else {
        after(run(trace.drop_last()), trace.last())
    }
}

/// How the word accounts for the borrows, in every state that can be
/// reached.
pub open spec fn consistent(s: Protocol) -> bool {
    &&& s.exclusive <= 1
    &&& s.word <= MAX_FAILED_BORROWS
    &&& s.aborted <==> s.word == MAX_FAILED_BORROWS
    &&& s.exclusive == 1 ==> s.shared == 0 && s.pending == 0 && s.word == HIGH_BIT + s.strays
    &&& s.exclusive == 0 ==> s.word == s.shared + s.pending + s.strays
    &&& s.overflows == 0 ==> s.pending == 0
    &&& s.overflows == 0 && s.exclusive == 0 ==> s.strays == 0 && !is_exclusive(s.word)
}

/// A step keeps the state consistent.
pub proof fn lemma_step_consistent(s: Protocol, step: Step)
    requires
        consistent(s),
    ensures
        consistent(after(s, step)),
{
}

/// Every state that can be reached is consistent.
pub proof fn lemma_run_consistent(trace: Seq<Step>)
    ensures
        consistent(run(trace)),
    decreases trace.len(),
{
    if trace.len() > 0 {
        lemma_run_consistent(trace.drop_last());
        lemma_step_consistent(run(trace.drop_last()), trace.last());
    }
}

/// The word accounts for the borrows. Under the exclusive borrow it is the
/// flag and the increments that refused shared acquires have left above it.
/// Otherwise it is the count of the live shared borrows, and, once that
/// count has run into the flag, of the increments still to be taken back or
/// left behind. So as long as the count has never run into the flag, the
/// word says exactly which borrows are live.
pub proof fn law_word_accounts_for_the_borrows(trace: Seq<Step>)
    ensures
        ({
            let s = run(trace);
            &&& s.exclusive > 0 ==> s.word == HIGH_BIT + s.strays
            &&& s.exclusive == 0 ==> s.word == s.shared + s.pending + s.strays
            &&& s.overflows == 0 ==> mode(s.word) == if s.exclusive > 0 {
                Mode::Exclusive(s.strays)
            } else if s.shared > 0 {
                Mode::Shared(s.shared)
            } else {
                Mode::Free
            }
        }),
{
    lemma_run_consistent(trace);
}

/// Whatever the interleaving of acquires and releases, the exclusive borrow
/// is never live together with a shared borrow, and never twice.
pub proof fn law_mutual_exclusion(trace: Seq<Step>)
    ensures
        run(trace).exclusive <= 1,
        run(trace).exclusive == 1 ==> run(trace).shared == 0,
{
    lemma_run_consistent(trace);
}

/// While the exclusive borrow is live, an exclusive acquire is refused as
/// `AlreadyExclusivelyBorrowed`, and so is a shared acquire, but for the one
/// that reaches the abort threshold, which is a `CatastrophicOverflow`. While
/// a shared borrow is live, an exclusive acquire is refused: as
/// `AlreadySharedBorrowed` whenever the flag is clear, which it is as long as
/// the count of shared borrows has never run into it.
pub proof fn law_conflicts_are_refused(trace: Seq<Step>)
    ensures
        ({
            let s = run(trace);
            &&& s.exclusive > 0 ==> try_exclusive(s) == Err::<(), _>(
                ErrorKind::AlreadyExclusivelyBorrowed,
            )
            &&& s.exclusive > 0 && s.word + 1 < MAX_FAILED_BORROWS ==> try_shared(s) == Err::<
                (),
                _,
            >(ErrorKind::AlreadyExclusivelyBorrowed)
            &&& s.exclusive > 0 && s.word + 1 == MAX_FAILED_BORROWS ==> try_shared(s) == Err::<
                (),
                _,
            >(ErrorKind::CatastrophicOverflow)
            &&& s.shared > 0 ==> try_exclusive(s) is Err
            &&& s.shared > 0 && !is_exclusive(s.word) ==> try_exclusive(s) == Err::<(), _>(
                ErrorKind::AlreadySharedBorrowed,
            )
            &&& s.shared > 0 && s.overflows == 0 ==> !is_exclusive(s.word)
        }),
{
    lemma_run_consistent(trace);
}

/// An acquire that fails takes no borrow and disturbs none: the exclusive one
/// writes nothing at all, and the shared one only moves the word up by one,
/// onto the flag or further above it.
pub proof fn law_failure_is_isolated(trace: Seq<Step>)
    requires
        !run(trace).aborted,
    ensures
        ({
            let s = run(trace);
            let shared = after(s, Step::AcquireShared);
            &&& try_exclusive(s) is Err ==> after(s, Step::AcquireExclusive) == s
            &&& try_shared(s) is Err ==> {
                &&& shared.shared == s.shared
                &&& shared.exclusive == s.exclusive
                &&& shared.word == s.word + 1
                &&& is_exclusive(shared.word)
            }
        }),
{
    lemma_run_consistent(trace);
}

/// The release of the exclusive borrow leaves the word at zero and no borrow
/// live, however many shared acquires have failed under that borrow, so that
/// the next acquire of either kind is granted.
pub proof fn law_exclusive_release_clears(trace: Seq<Step>)
    requires
        run(trace).exclusive > 0,
        !run(trace).aborted,
    ensures
        ({
            let s = run(trace.push(Step::ReleaseExclusive));
            &&& s.word == 0
            &&& mode(s.word) == Mode::Free
            &&& s.exclusive == 0
            &&& s.shared == 0
            &&& s.strays == 0
            &&& try_shared(s) is Ok
            &&& try_exclusive(s) is Ok
        }),
{
    lemma_run_consistent(trace);
    assert(trace.push(Step::ReleaseExclusive).drop_last() == trace);
}

/// A borrow that is granted and released at once leaves the word and the
/// live borrows as they were before it was asked for.
pub proof fn law_release_restores(trace: Seq<Step>, exclusive: bool)
    requires
        !exclusive ==> try_shared(run(trace)) is Ok,
        exclusive ==> try_exclusive(run(trace)) is Ok,
    ensures
        ({
            let acquire = if exclusive {
                Step::AcquireExclusive
            } else {
                Step::AcquireShared
            };
            let release = if exclusive {
                Step::ReleaseExclusive
            } else {
                Step::ReleaseShared
            };
            run(trace.push(acquire).push(release)) == run(trace)
        }),
{
    lemma_run_consistent(trace);
    let acquire = if exclusive {
        Step::AcquireExclusive
    } else {
        Step::AcquireShared
    };
    let release = if exclusive {
        Step::ReleaseExclusive
    } else {
        Step::ReleaseShared
    };
    let s = run(trace);
    let held = after(s, acquire);
    assert(trace.push(acquire).drop_last() == trace);
    assert(run(trace.push(acquire)) == held);
    assert(trace.push(acquire).push(release).drop_last() == trace.push(acquire));
    assert(run(trace.push(acquire).push(release)) == after(held, release));
}

} // verus!
