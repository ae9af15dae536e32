//! A cell whose borrows are checked at run time against one atomic state
//! word, so that it can be shared between threads: at any moment either any
//! number of shared borrows or one exclusive borrow is live, never both.
//!
//! * [`state`] fixes how the word encodes the borrows and what an acquire
//!   decides from the word that its atomic operation observed.
//! * [`borrow`] runs the acquire and release protocols on the atomic word.
//! * [`guard`] pairs a borrow with a reference to the borrowed value and
//!   narrows guards to parts of that value.
//! * [`cell`] owns a value together with its state word.
//! * [`protocol`] is the protocol as a transition system over every
//!   interleaving of its atomic steps, with the laws proved of it.
//! * [`error`] names the ways an acquire fails and what each one demands.
pub mod borrow;
pub mod cell;
pub mod error;
pub mod guard;
pub mod protocol;
pub mod state;

pub use crate::borrow::AtomicBorrowRef;
pub use crate::borrow::AtomicBorrowRefMut;
pub use crate::cell::AtomicRefCell;
pub use crate::error::BorrowError;
pub use crate::error::BorrowMutError;
pub use crate::error::ErrorKind;
pub use crate::error::Escalation;
pub use crate::guard::AtomicRef;
pub use crate::guard::AtomicRefMut;
pub use crate::state::HIGH_BIT;
pub use crate::state::MAX_FAILED_BORROWS;
