use vstd::prelude::*;

verus! {

#[verifier::external_type_specification]
#[verifier::external_body]
#[verifier::reject_recursive_types(T)]
pub struct ExOnceCell<T>(std::cell::OnceCell<T>);

#[verifier::external_type_specification]
#[verifier::external_body]
#[verifier::reject_recursive_types(T)]
pub struct ExOnceLock<T>(std::sync::OnceLock<T>);

/// Relies on `OnceCell::set`: `Ok(())` if the cell was empty, and the value
/// handed back as `Err(value)` if it was full.
pub assume_specification<T>[ std::cell::OnceCell::<T>::set ](
    cell: &std::cell::OnceCell<T>,
    value: T,
) -> (r: Result<(), T>)
    ensures
        r matches Err(v) ==> v == value,
;

/// Relies on `OnceCell::get`, which reads the cell's value, if any; what it
/// returns depends on the cell's history, so nothing is promised of it.
pub assume_specification<T>[ std::cell::OnceCell::<T>::get ](
    cell: &std::cell::OnceCell<T>,
) -> Option<&T>;

/// Relies on `OnceLock::set`: `Ok(())` if the cell was uninitialized, and
/// the value handed back as `Err(value)` if it was already initialized.
pub assume_specification<T>[ std::sync::OnceLock::<T>::set ](
    cell: &std::sync::OnceLock<T>,
    value: T,
) -> (r: Result<(), T>)
    ensures
        r matches Err(v) ==> v == value,
;

/// Relies on `OnceLock::get`, which reads the cell's value if it has been
/// initialized; what it returns depends on the cell's history (and on other
/// threads), so nothing is promised of it.
pub assume_specification<T>[ std::sync::OnceLock::<T>::get ](
    cell: &std::sync::OnceLock<T>,
) -> Option<&T>;

/// Turns what a cell's own single write reported into the outcome of a
/// write that reports `error` on a filled cell: success stays success, and a
/// value handed back (the cell was full) becomes `error`.
pub fn conflict_as<T, E>(stored: Result<(), T>, error: E) -> (r: Result<(), E>)
    ensures
        stored is Ok ==> r == Ok::<(), E>(()),
        stored is Err ==> r == Err::<(), E>(error),
{
    match stored {
        Ok(()) => Ok(()),
        Err(_) => Err(error),
    }
}

/// Writes with an error of the caller's choosing, for cells that can be
/// filled once through a shared borrow.
///
/// A cell is written through its own single write alone: these methods keep
/// no state of their own, so they can never disagree with the cell about
/// whether it is filled, and they are as safe to share between threads as
/// the cell is.
pub trait OnceCellExt<T>: Sized {
    /// The cell's own single write: stores `value` if the cell is empty, and
    /// hands `value` back if it is already filled.
    fn store(&self, value: T) -> (r: Result<(), T>)
        ensures
            r matches Err(v) ==> v == value,
    ;

    /// Whether the cell holds a value at the time of the call.
    fn is_some(&self) -> bool;

    /// Whether the cell is empty at the time of the call.
    fn is_none(&self) -> bool {
        !self.is_some()
    }

    /// Stores `value` if the cell is empty; otherwise leaves the cell as it
    /// is and returns `error`.
    ///
    /// Whether the cell was empty is the cell's to decide (another thread
    /// may fill it first): whatever it decided, a failure is `error` itself.
    fn set_or<E>(&self, value: T, error: E) -> (r: Result<(), E>)
        ensures
            r is Err ==> r == Err::<(), E>(error),
    {
        conflict_as(self.store(value), error)
    }

    /// Stores `value` if the cell is empty; otherwise leaves the cell as it
    /// is and returns what `error` makes. `error` is called only when the
    /// cell turns out to be filled.
    fn set_or_else<E, F>(&self, value: T, error: F) -> (r: Result<(), E>)
        where
            F: FnOnce() -> E,
        requires
            error.requires(()),
        ensures
            r matches Err(e) ==> error.ensures((), e),
    {
        match self.store(value) {
            Ok(()) => Ok(()),
            Err(_) => Err(error()),
        }
    }
}

impl<T> OnceCellExt<T> for std::cell::OnceCell<T> {
    fn store(&self, value: T) -> Result<(), T> {
        self.set(value)
    }

    fn is_some(&self) -> bool {
        self.get().is_some()
    }
}

impl<T> OnceCellExt<T> for std::sync::OnceLock<T> {
    fn store(&self, value: T) -> Result<(), T> {
        self.set(value)
    }

    fn is_some(&self) -> bool {
        self.get().is_some()
    }
}

} // verus!
