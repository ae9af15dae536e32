//! Guards: a live borrow of the state word with a reference to the value.
//!
//! A guard is shared and sent between threads exactly as the reference that
//! it holds. Dropping a guard drops its borrow, which releases the word.
use crate::borrow::AtomicBorrowRef;
use crate::borrow::AtomicBorrowRefMut;
use crate::error::BorrowError;
use crate::error::BorrowMutError;
use crate::error::ErrorKind;
use vstd::prelude::*;

verus! {

/// A shared borrow of a value: reads it for as long as the guard lives.
pub struct AtomicRef<'b, T: ?Sized> {
    value: &'b T,
    borrow: AtomicBorrowRef<'b>,
}

impl<'b, T: ?Sized> AtomicRef<'b, T> {
    /// The value that the guard gives access to.
    pub closed spec fn value(&self) -> &'b T {
        self.value
    }

    /// The borrow of the state word that the guard holds and that its drop
    /// releases.
    pub closed spec fn obligation(&self) -> AtomicBorrowRef<'b> {
        self.borrow
    }

    /// Pairs a shared borrow that was acquired for `value` with `value`.
    pub fn new(value: &'b T, borrow: AtomicBorrowRef<'b>) -> (guard: Self)
        ensures
            guard.value() == value,
            guard.obligation() == borrow,
    {
        AtomicRef { value, borrow }
    }

    /// Takes one more shared borrow of the value that `orig` guards. It is
    /// acquired anew from the state word, so it can be refused, and it is
    /// released on its own.
    pub fn clone(orig: &AtomicRef<'b, T>) -> (res: Result<AtomicRef<'b, T>, BorrowError>)
        ensures
            res matches Ok(guard) ==> guard.value() == orig.value() && guard.obligation().state()
                == orig.obligation().state(),
    {
        Self::from_acquired(orig.value, orig.borrow.try_clone())
    }

    /// Makes of the outcome of a shared acquire the outcome of a borrow of
    /// `value`: the guard of `value` that holds the borrow which was
    /// granted, or the error of the kind with which the acquire was refused.
    pub fn from_acquired(value: &'b T, acquired: Result<AtomicBorrowRef<'b>, ErrorKind>) -> (res:
        Result<AtomicRef<'b, T>, BorrowError>)
        requires
            acquired matches Err(kind) ==> kind.is_shared_fault(),
        ensures
            match acquired {
                Ok(borrow) => res matches Ok(guard) && guard.value() == value
                    && guard.obligation() == borrow,
                Err(kind) => res matches Err(error) && error@ == kind,
            },
    {
        match acquired {
            Ok(borrow) => Ok(AtomicRef { value, borrow }),
            Err(kind) => Err(BorrowError::new(kind)),
        }
    }

    /// Narrows the guard to the part of the value that `f` picks. The borrow
    /// moves into the new guard: nothing is acquired and nothing released.
    pub fn map<U: ?Sized, F>(orig: AtomicRef<'b, T>, f: F) -> (guard: AtomicRef<'b, U>) where
        F: FnOnce(&T) -> &U,

        requires
            call_requires(f, (orig.value(),)),
        ensures
            call_ensures(f, (orig.value(),), guard.value()),
            guard.obligation() == orig.obligation(),
    {
        AtomicRef { value: f(orig.value), borrow: orig.borrow }
    }

    /// Narrows the guard to the part of the value that `f` picks, if it picks
    /// one: the borrow then moves into the new guard. If `f` picks none, the
    /// guard ends here and its borrow is released.
    pub fn filter_map<U: ?Sized, F>(orig: AtomicRef<'b, T>, f: F) -> (res: Option<
        AtomicRef<'b, U>,
    >) where F: FnOnce(&T) -> Option<&U>
        requires
            call_requires(f, (orig.value(),)),
        ensures
            match res {
                Some(guard) => call_ensures(f, (orig.value(),), Some(guard.value()))
                    && guard.obligation() == orig.obligation(),
                None => call_ensures(f, (orig.value(),), None),
            },
    {
        match f(orig.value) {
            Some(part) => Some(AtomicRef { value: part, borrow: orig.borrow }),
            None => None,
        }
    }
}

impl<'b, T: ?Sized> std::ops::Deref for AtomicRef<'b, T> {
    type Target = T;

    fn deref(&self) -> (value: &T)
        ensures
            value == self.value(),
    {
        self.value
    }
}

/// The exclusive borrow of a value: reads and writes it for as long as the
/// guard lives.
pub struct AtomicRefMut<'b, T: ?Sized> {
    value: &'b mut T,
    borrow: AtomicBorrowRefMut<'b>,
}

impl<'b, T: ?Sized> AtomicRefMut<'b, T> {
    /// The exclusive reference that the guard holds.
    pub closed spec fn slot(self) -> &'b mut T {
        self.value
    }

    /// The borrow of the state word that the guard holds and that its drop
    /// releases.
    pub closed spec fn obligation(self) -> AtomicBorrowRefMut<'b> {
        self.borrow
    }

    /// Pairs the exclusive borrow that was acquired for `value` with `value`.
    pub fn new(value: &'b mut T, borrow: AtomicBorrowRefMut<'b>) -> (guard: Self)
        ensures
            &*guard.slot() == &*old(value),
            &*final(guard.slot()) == &*final(value),
            guard.obligation() == borrow,
    {
        AtomicRefMut { value, borrow }
    }

    /// Makes of the outcome of an exclusive acquire the outcome of a borrow of
    /// `value`: the guard of `value` that holds the borrow which was
    /// granted, or the error of the kind with which the acquire was refused,
    /// and then `value` is left as it was.
    pub fn from_acquired(
        value: &'b mut T,
        acquired: Result<AtomicBorrowRefMut<'b>, ErrorKind>,
    ) -> (res: Result<AtomicRefMut<'b, T>, BorrowMutError>)
        requires
            acquired matches Err(kind) ==> kind.is_exclusive_fault(),
        ensures
            match acquired {
                Ok(borrow) => {
                    &&& res matches Ok(guard) && {
                        &&& &*guard.slot() == &*old(value)
                        &&& &*final(guard.slot()) == &*final(value)
                        &&& guard.obligation() == borrow
                    }
                },
                Err(kind) => {
                    &&& res matches Err(error) && error@ == kind
                    &&& &*final(value) == &*old(value)
                },
            },
    {
        match acquired {
            Ok(borrow) => Ok(AtomicRefMut { value, borrow }),
            Err(kind) => Err(BorrowMutError::new(kind)),
        }
    }

    /// Narrows the guard to the part of the value that `f` picks. The borrow
    /// moves into the new guard: nothing is acquired and nothing released.
    ///
    /// `f` is handed the exclusive reference of `orig`, and the new guard
    /// holds the reference that `f` gave back: what is written through the
    /// new guard reaches the whole value as the contract of `f` says.
    pub fn map<U: ?Sized, F>(orig: AtomicRefMut<'b, T>, f: F) -> (guard: AtomicRefMut<'b, U>) where
        F: FnOnce(&mut T) -> &mut U,

        requires
            forall|whole: &mut T| &*whole == &*orig.slot() ==> call_requires(f, (whole,)),
        ensures
            exists|whole: &mut T, part: &mut U|
                {
                    &&& #[trigger] call_ensures(f, (whole,), part)
                    &&& &*whole == &*orig.slot()
                    &&& &*final(whole) == &*final(orig.slot())
                    &&& &*part == &*guard.slot()
                    &&& &*final(part) == &*final(guard.slot())
                },
            guard.obligation() == orig.obligation(),
    {
        let AtomicRefMut { value, borrow } = orig;
        AtomicRefMut { value: f(value), borrow }
    }

    /// Narrows the guard to the part of the value that `f` picks, if it picks
    /// one: the borrow then moves into the new guard. If `f` picks none, the
    /// guard ends here and its borrow is released.
    pub fn filter_map<U: ?Sized, F>(orig: AtomicRefMut<'b, T>, f: F) -> (res: Option<
        AtomicRefMut<'b, U>,
    >) where F: FnOnce(&mut T) -> Option<&mut U>
        requires
            forall|whole: &mut T| &*whole == &*orig.slot() ==> call_requires(f, (whole,)),
        ensures
            match res {
                Some(guard) => {
                    &&& guard.obligation() == orig.obligation()
                    &&& exists|whole: &mut T, part: &mut U|
                        {
                            &&& #[trigger] call_ensures(f, (whole,), Some(part))
                            &&& &*whole == &*orig.slot()
                            &&& &*final(whole) == &*final(orig.slot())
                            &&& &*part == &*guard.slot()
                            &&& &*final(part) == &*final(guard.slot())
                        }
                },
                None => exists|whole: &mut T|
                    {
                        &&& #[trigger] call_ensures(f, (whole,), None)
                        &&& &*whole == &*orig.slot()
                        &&& &*final(whole) == &*final(orig.slot())
                    },
            },
    {
        let AtomicRefMut { value, borrow } = orig;
        match f(value) {
            Some(part) => Some(AtomicRefMut { value: part, borrow }),
            None => None,
        }
    }

    /// Ends the borrow here: what the value holds now is what it keeps, and
    /// the state word is released as by a drop.
    pub fn release(self)
        ensures
            &*final(self.slot()) == &*self.slot(),
    {
        let AtomicRefMut { value: _value, borrow: _borrow } = self;
    }
}

impl<'b, T: ?Sized> std::ops::Deref for AtomicRefMut<'b, T> {
    type Target = T;

    fn deref(&self) -> (value: &T)
        ensures
            value == &*self.slot(),
    {
        &*self.value
    }
}

impl<'b, T: ?Sized> std::ops::DerefMut for AtomicRefMut<'b, T> {
    fn deref_mut(&mut self) -> (value: &mut T)
        ensures
            &*value == &*old(self).slot(),
            &*final(value) == &*final(self).slot(),
            &*final(final(self).slot()) == &*final(old(self).slot()),
            final(self).obligation() == old(self).obligation(),
    {
        &mut *self.value
    }
}

} // verus!
