//! The cell: a value together with the state word that guards it.
use crate::borrow::AtomicBorrowRef;
use crate::borrow::AtomicBorrowRefMut;
use crate::error::BorrowError;
use crate::error::BorrowMutError;
use crate::guard::AtomicRef;
use crate::guard::AtomicRefMut;
use std::sync::atomic::AtomicUsize;
use vstd::prelude::*;

verus! {

/// A value whose borrows are checked at run time against one atomic word.
///
/// Shared borrows are taken through a shared reference to the cell, from any
/// number of threads. The exclusive borrow is taken through an exclusive
/// reference to the cell, because safe code has no other way to an exclusive
/// reference to the value. It still claims the state word, so a guard that
/// was leaked is found out. A cell that gives out both kinds of borrow
/// through a shared reference keeps its value in an `UnsafeCell` and builds
/// its guards from [`AtomicBorrowRef::try_new`], [`AtomicBorrowRefMut::try_new`],
/// [`AtomicRef::new`] and [`AtomicRefMut::new`].
pub struct AtomicRefCell<T: ?Sized> {
    borrow: AtomicUsize,
    value: T,
}

impl<T> AtomicRefCell<T> {
    /// A cell that holds `value`, with no borrow.
    pub fn new(value: T) -> (cell: AtomicRefCell<T>)
        ensures
            cell.value() == value,
    {
        AtomicRefCell { borrow: AtomicUsize::new(0), value }
    }

    /// Takes the cell apart and hands out the value.
    pub fn into_inner(self) -> (value: T)
        ensures
            value == self.value(),
    {
        self.value
    }
}

impl<T: ?Sized> AtomicRefCell<T> {
    /// The value that the cell holds.
    pub closed spec fn value(&self) -> &T {
        &self.value
    }

    /// The state word of the cell.
    pub closed spec fn state(&self) -> &AtomicUsize {
        &self.borrow
    }

    /// Tries to borrow the value for reading. The borrow is refused while an
    /// exclusive borrow of this cell is live; which of the two holds is read
    /// from the state word, which other threads write.
    ///
    /// A refusal of the kind `CountOverflow` or `CatastrophicOverflow` is not
    /// one to carry on from: its [`crate::error::ErrorKind::escalation`] says
    /// what the caller owes.
    pub fn try_borrow(&self) -> (res: Result<AtomicRef<'_, T>, BorrowError>)
        ensures
            res matches Ok(guard) ==> guard.value() == self.value() && guard.obligation().state()
                == self.state(),
    {
        let acquired = AtomicBorrowRef::try_new(&self.borrow);
        AtomicRef::from_acquired(&self.value, acquired)
    }

    /// Tries to borrow the value for writing. The borrow is refused while
    /// any borrow of this cell is live, and the value is then left alone.
    /// Whether one is live is read from the state word, and what follows from
    /// the outcome of that acquire is [`AtomicRefMut::from_acquired`].
    pub fn try_borrow_mut(&mut self) -> (res: Result<AtomicRefMut<'_, T>, BorrowMutError>)
        ensures
            final(self).state() == old(self).state(),
            match res {
                Ok(guard) => {
                    &&& &*guard.slot() == old(self).value()
                    &&& &*final(guard.slot()) == final(self).value()
                    &&& guard.obligation().state() == old(self).state()
                },
                Err(_) => final(self).value() == old(self).value(),
            },
    {
        let acquired = AtomicBorrowRefMut::try_new(&self.borrow);
        AtomicRefMut::from_acquired(&mut self.value, acquired)
    }

    /// The value, for writing, through an exclusive reference to the cell.
    /// The state word is neither read nor written.
    pub fn get_mut(&mut self) -> (value: &mut T)
        ensures
            &*value == old(self).value(),
            &*final(value) == final(self).value(),
            final(self).state() == old(self).state(),
    {
        &mut self.value
    }
}

impl<T: Default> Default for AtomicRefCell<T> {
    /// A cell that holds the default value of `T`, with no borrow.
    fn default() -> (cell: AtomicRefCell<T>)
        ensures
            call_ensures(T::default, (), *cell.value()),
    {
        AtomicRefCell::new(T::default())
    }
}

impl<T> From<T> for AtomicRefCell<T> {
    /// A cell that holds `value`, with no borrow.
    fn from(value: T) -> (cell: AtomicRefCell<T>)
        ensures
            cell.value() == value,
    {
        AtomicRefCell::new(value)
    }
}

impl<T> vstd::std_specs::convert::FromSpecImpl<T> for AtomicRefCell<T> {
    /// Each conversion makes a cell with a state word of its own, so no
    /// function of the value alone says which cell comes out.
    open spec fn obeys_from_spec() -> bool {
        false
    }

    open spec fn from_spec(value: T) -> Self {
        choose|cell: AtomicRefCell<T>| cell.value() == value
    }
}

} // verus!
