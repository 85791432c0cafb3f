use vstd::prelude::*;

use crate::error::SomeError;

verus! {

/// The slot once a write of `value` has been tried on it: filled with `value`
/// if it was empty, unchanged if it already held something.
pub open spec fn after_set<T>(slot: Option<T>, value: T) -> Option<T> {
    match slot {
        Some(_) => slot,
        None => Some(value),
    }
}

/// What a write into `slot` reports: success when the slot was empty,
/// `error` when it already held a value.
pub open spec fn set_outcome<T, E>(slot: Option<T>, error: E) -> Result<(), E> {
    match slot {
        Some(_) => Err(error),
        None => Ok(()),
    }
}

/// The slot once writes of `values` have been tried on it, in order.
pub open spec fn after_sets<T>(slot: Option<T>, values: Seq<T>) -> Option<T>
    decreases values.len(),
{
    if values.len() == 0 {
        slot
    } else {
        after_set(after_sets(slot, values.drop_last()), values.last())
    }
}

/// An optional value that can be filled at most once.
///
/// It starts empty (or filled, when built from a value); a write succeeds
/// only while it is empty, and nothing empties it again.
#[derive(Debug, Clone, Copy, PartialEq, Eq, PartialOrd, Ord, Hash)]
pub struct OnceOption<T>(Option<T>);

impl<T> View for OnceOption<T> {
    type V = Option<T>;

    closed spec fn view(&self) -> Option<T> {
        self.0
    }
}

impl<T> OnceOption<T> {
    /// An empty slot.
    pub fn new() -> (r: Self)
        ensures
            r@ is None,
    {
        OnceOption(None)
    }

    /// Stores `value` if the slot is empty; otherwise leaves the slot as it
    /// is and reports [`SomeError`].
    ///
    /// A rejected value is dropped, here and in the other writes: it is
    /// never merged with, nor put in place of, the value held.
    pub fn set(&mut self, value: T) -> (r: Result<(), SomeError>)
        ensures
            final(self)@ == after_set(old(self)@, value),
            r == set_outcome(old(self)@, SomeError),
    {
        self.set_or(value, SomeError)
    }

    /// Stores `value` if the slot is empty; otherwise leaves the slot as it
    /// is and returns `error`.
    pub fn set_or<E>(&mut self, value: T, error: E) -> (r: Result<(), E>)
        ensures
            final(self)@ == after_set(old(self)@, value),
            r == set_outcome(old(self)@, error),
    {
        if self.0.is_some() {
            Err(error)
        } else {
            self.0 = Some(value);
            Ok(())
        }
    }

    /// Stores `value` if the slot is empty; otherwise leaves the slot as it
    /// is and returns what `error` makes.
    ///
    /// `error` is called only when the slot is already filled: on an empty
    /// slot nothing is asked of it, so a closure that may never be called is
    /// accepted there.
    pub fn set_or_else<E, F>(&mut self, value: T, error: F) -> (r: Result<(), E>)
        where
            F: FnOnce() -> E,
        requires
            old(self)@ is Some ==> error.requires(()),
        ensures
            final(self)@ == after_set(old(self)@, value),
            old(self)@ is None ==> r is Ok,
            old(self)@ is Some ==> (r matches Err(e) && error.ensures((), e)),
    {
        if self.0.is_some() {
            Err(error())
        } else {
            self.0 = Some(value);
            Ok(())
        }
    }

    /// The value held, if any, taking the slot apart.
    pub fn into_inner(self) -> (r: Option<T>)
        ensures
            r == self@,
    {
        self.0
    }

    /// A shared borrow of the value held, if any.
    pub fn as_ref(&self) -> (r: Option<&T>)
        ensures
            r is Some <==> self@ is Some,
            r matches Some(v) ==> self@ == Some(*v),
    {
        match &self.0 {
            Some(v) => Some(v),
            None => None,
        }
    }

    /// A mutable borrow of the value held, if any.
    ///
    /// Writing through it changes the value held, never whether the slot is
    /// filled: an empty slot gives no borrow and stays empty.
    pub fn as_mut(&mut self) -> (r: Option<&mut T>)
        ensures
            r is Some <==> old(self)@ is Some,
            r is None ==> final(self)@ == old(self)@,
            r matches Some(v) ==> old(self)@ == Some(*v) && final(self)@ == Some(*final(v)),
    {
        match &mut self.0 {
            Some(v) => Some(v),
            None => None,
        }
    }

    /// Whether the slot holds a value.
    pub fn is_some(&self) -> (r: bool)
        ensures
            r == self@ is Some,
    {
        self.0.is_some()
    }

    /// Whether the slot is empty.
    pub fn is_none(&self) -> (r: bool)
        ensures
            r == self@ is None,
    {
        self.0.is_none()
    }
}

/// A slot filled with the value.
impl<T> From<T> for OnceOption<T> {
    fn from(value: T) -> (r: Self)
        ensures
            r@ == Some(value),
    {
        OnceOption(Some(value))
    }
}

impl<T> vstd::std_specs::convert::FromSpecImpl<T> for OnceOption<T> {
    open spec fn obeys_from_spec() -> bool {
        true
    }

    closed spec fn from_spec(v: T) -> Self {
        OnceOption(Some(v))
    }
}

/// A slot filled exactly when the optional value holds one.
impl<T> From<Option<T>> for OnceOption<T> {
    fn from(inner: Option<T>) -> (r: Self)
        ensures
            r@ == inner,
    {
        OnceOption(inner)
    }
}

impl<T> vstd::std_specs::convert::FromSpecImpl<Option<T>> for OnceOption<T> {
    open spec fn obeys_from_spec() -> bool {
        true
    }

    closed spec fn from_spec(v: Option<T>) -> Self {
        OnceOption(v)
    }
}

/// On a slot that starts empty, the writes of `values` leave the first of
/// them in the slot from the first write on.
proof fn lemma_first_write_stays<T>(values: Seq<T>, n: int)
    requires
        1 <= n <= values.len(),
    ensures
        after_sets(None, values.take(n)) == Some(values[0]),
    decreases n,
{
    let prefix = values.take(n);
    assert(prefix.drop_last() =~= values.take(n - 1));
    if n > 1 {
        lemma_first_write_stays(values, n - 1);
    } else {
        assert(values.take(0) =~= Seq::<T>::empty());
    }
}

/// Writing once: of a run of writes into a new, empty slot, only the first
/// succeeds; every later one reports its own error, and the slot keeps the
/// first value.
pub proof fn lemma_single_write<T, E>(values: Seq<T>, errors: Seq<E>)
    requires
        errors.len() == values.len(),
    ensures
        forall|i: int|
            0 <= i < values.len() ==> #[trigger] set_outcome(
                after_sets(None, values.take(i)),
                errors[i],
            ) == if i == 0 {
                Ok::<(), E>(())
            } else {
                Err(errors[i])
            },
        values.len() > 0 ==> after_sets(None, values) == Some(values[0]),
{
    assert forall|i: int| 0 <= i < values.len() implies #[trigger] set_outcome(
        after_sets(None, values.take(i)),
        errors[i],
    ) == if i == 0 {
        Ok::<(), E>(())
    } else {
        Err(errors[i])
    } by {
        if i == 0 {
            assert(values.take(0) =~= Seq::<T>::empty());
        } else {
            lemma_first_write_stays(values, i);
        }
    }
    if values.len() > 0 {
        lemma_first_write_stays(values, values.len() as int);
        assert(values.take(values.len() as int) =~= values);
    }
}

/// A filled slot stays as it is under any number of writes, whatever error
/// each of them carries, and each such write hands back its own error
/// untouched.
pub proof fn lemma_filled_slot_unchanged<T, E1, E2>(slot: Option<T>, x: T, y: T, e1: E1, e2: E2)
    requires
        slot is Some,
    ensures
        set_outcome(slot, e1) == Err::<(), E1>(e1),
        after_set(slot, x) == slot,
        set_outcome(after_set(slot, x), e2) == Err::<(), E2>(e2),
        after_set(after_set(slot, x), y) == slot,
{
}

/// A slot built from a value is the slot that a new, empty one becomes after
/// a successful write of that value.
pub proof fn lemma_from_value_is_set<T>(value: T)
    ensures
        <OnceOption<T> as vstd::std_specs::convert::FromSpec<T>>::from_spec(value)@
            == after_set(None, value),
        set_outcome(None::<T>, SomeError) == Ok::<(), SomeError>(()),
{
}

/// Building a slot from an optional value and taking it apart again gives
/// back that optional value.
pub proof fn lemma_round_trip<T>(inner: Option<T>)
    ensures
        <OnceOption<T> as vstd::std_specs::convert::FromSpec<Option<T>>>::from_spec(inner)@
            == inner,
{
}

} // verus!
