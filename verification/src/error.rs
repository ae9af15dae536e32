//! The ways in which an acquire fails.
use vstd::prelude::*;

verus! {

/// Why an acquire yielded no borrow.
#[derive(Clone, Copy, Debug, PartialEq, Eq, Structural)]
pub enum ErrorKind {
    /// The exclusive flag was set in the word that the acquire observed.
    AlreadyExclusivelyBorrowed,
    /// An exclusive acquire observed a count of shared borrows.
    AlreadySharedBorrowed,
    /// A shared acquire moved the count of shared borrows onto the exclusive
    /// flag. The acquire has taken its increment back.
    CountOverflow,
    /// So many shared acquires failed under one exclusive borrow that the
    /// word reached the abort threshold.
    CatastrophicOverflow,
}

/// What the caller of a failed acquire has to do with the failure.
#[derive(Clone, Copy, Debug, PartialEq, Eq, Structural)]
pub enum Escalation {
    /// Ordinary contention: the failure is handed back as a value.
    Recover,
    /// A programming error: the operation of the calling thread must end.
    Trap,
    /// The state word can no longer be trusted: the whole process must end.
    Abort,
}

impl ErrorKind {
    /// The text that names this failure.
    pub open spec fn spec_message(self) -> Seq<char> {
        match self {
            ErrorKind::AlreadyExclusivelyBorrowed => "already mutably borrowed"@,
            ErrorKind::AlreadySharedBorrowed => "already immutably borrowed"@,
            ErrorKind::CountOverflow => "too many immutable borrows"@,
            ErrorKind::CatastrophicOverflow => "Too many failed borrows"@,
        }
    }

    /// What this failure demands: both overflows escalate, contention does
    /// not.
    pub open spec fn spec_escalation(self) -> Escalation {
        match self {
            ErrorKind::AlreadyExclusivelyBorrowed => Escalation::Recover,
            ErrorKind::AlreadySharedBorrowed => Escalation::Recover,
            ErrorKind::CountOverflow => Escalation::Trap,
            ErrorKind::CatastrophicOverflow => Escalation::Abort,
        }
    }

    /// Whether a shared acquire can fail in this way.
    pub open spec fn is_shared_fault(self) -> bool {
        self != ErrorKind::AlreadySharedBorrowed
    }

    /// Whether an exclusive acquire can fail in this way.
    pub open spec fn is_exclusive_fault(self) -> bool {
        self == ErrorKind::AlreadySharedBorrowed || self == ErrorKind::AlreadyExclusivelyBorrowed
    }

    /// The text that names this failure, for a trap or a log line.
    pub fn message(self) -> (text: &'static str)
        ensures
            text@ == self.spec_message(),
    {
        match self {
            ErrorKind::AlreadyExclusivelyBorrowed => "already mutably borrowed",
            ErrorKind::AlreadySharedBorrowed => "already immutably borrowed",
            ErrorKind::CountOverflow => "too many immutable borrows",
            ErrorKind::CatastrophicOverflow => "Too many failed borrows",
        }
    }

    /// What the caller has to do with this failure.
    pub fn escalation(self) -> (demand: Escalation)
        ensures
            demand == self.spec_escalation(),
    {
        match self {
            ErrorKind::AlreadyExclusivelyBorrowed => Escalation::Recover,
            ErrorKind::AlreadySharedBorrowed => Escalation::Recover,
            ErrorKind::CountOverflow => Escalation::Trap,
            ErrorKind::CatastrophicOverflow => Escalation::Abort,
        }
    }
}

/// What is shown in place of a value that cannot be borrowed for reading.
pub fn borrowed_placeholder() -> (text: &'static str)
    ensures
        text@ == "<borrowed>"@,
{
    "<borrowed>"
}

/// The text with which the encoding of a cell fails while the value is
/// borrowed exclusively.
pub fn encoding_refusal() -> (text: &'static str)
    ensures
        text@ == "already exclusively borrowed"@,
{
    "already exclusively borrowed"
}

/// The failure of a shared borrow of a cell.
#[derive(Debug)]
pub struct BorrowError {
    kind: ErrorKind,
}

impl View for BorrowError {
    type V = ErrorKind;

    closed spec fn view(&self) -> ErrorKind {
        self.kind
    }
}

impl BorrowError {
    #[verifier::type_invariant]
    spec fn well_formed(self) -> bool {
        self.kind.is_shared_fault()
    }

    /// Wraps the failure of a shared acquire.
    pub fn new(kind: ErrorKind) -> (error: Self)
        requires
            kind.is_shared_fault(),
        ensures
            error@ == kind,
    {
        BorrowError { kind }
    }

    /// Which failure this is. It is never `AlreadySharedBorrowed`.
    pub fn kind(&self) -> (kind: ErrorKind)
        ensures
            kind == self@,
            kind.is_shared_fault(),
    {
        proof {
            use_type_invariant(self);
        }
        self.kind
    }

    /// The text that this error shows: that of its kind, which for the
    /// refusal under an exclusive borrow is "already mutably borrowed".
    pub fn message(&self) -> (text: &'static str)
        ensures
            text@ == self@.spec_message(),
    {
        self.kind.message()
    }
}

/// The failure of an exclusive borrow of a cell.
#[derive(Debug)]
pub struct BorrowMutError {
    kind: ErrorKind,
}

impl View for BorrowMutError {
    type V = ErrorKind;

    closed spec fn view(&self) -> ErrorKind {
        self.kind
    }
}

impl BorrowMutError {
    #[verifier::type_invariant]
    spec fn well_formed(self) -> bool {
        self.kind.is_exclusive_fault()
    }

    /// Wraps the failure of an exclusive acquire.
    pub fn new(kind: ErrorKind) -> (error: Self)
        requires
            kind.is_exclusive_fault(),
        ensures
            error@ == kind,
    {
        BorrowMutError { kind }
    }

    /// Which failure this is: `AlreadySharedBorrowed` or
    /// `AlreadyExclusivelyBorrowed`.
    pub fn kind(&self) -> (kind: ErrorKind)
        ensures
            kind == self@,
            kind.is_exclusive_fault(),
    {
        proof {
            use_type_invariant(self);
        }
        self.kind
    }

    /// The text that this error shows, whichever borrow stood in the way.
    pub fn message(&self) -> (text: &'static str)
        ensures
            text@ == "already borrowed"@,
    {
        "already borrowed"
    }
}

} // verus!
