//! A minimal single-value cell: a container that owns one value, lets its
//! holder read the current value, hand out a write handle to it, and replace
//! it in place, dropping the previous value.
//!
//! The cell is a building block for richer mutability abstractions
//! (guards, memoized fields, observer caches). It adds no synchronization,
//! locking or change notification of its own: it is safe within one thread
//! of control, and cross-thread use needs a wrapping synchronization layer.
//! The discipline that an unchecked cell leaves to its caller's care — no
//! read may overlap a replacement of the same cell — is here discharged by
//! the type system: every mutating operation takes an exclusive borrow of
//! the one cell it acts on, so an overlapping access cannot be expressed,
//! and no operation of the cell panics or fails.

use vstd::prelude::*;

verus! {

/// A container owning a single value of type `T`.
///
/// Its whole observable state is that value, exposed to specifications as
/// the view `self@`. Construction takes ownership of the initial value;
/// replacement drops the previous value before it returns; when the cell is
/// dropped, the value it currently holds is dropped with it.
#[derive(Debug, PartialEq, Eq)]
pub struct CustomUnsafeCell<T> {
    value: T,
}

impl<T> View for CustomUnsafeCell<T> {
    type V = T;

    closed spec fn view(&self) -> T {
        self.value
    }
}

/// The cell that construction with `value` yields, as a mathematical value.
pub closed spec fn spec_new<T>(value: T) -> CustomUnsafeCell<T> {
    CustomUnsafeCell { value }
}

/// The cell left behind once its stored value has been replaced by
/// `new_value`. The prior state of `cell` does not reach the result: see
/// [`lemma_replace_state_independent`].
pub closed spec fn spec_replace<T>(cell: CustomUnsafeCell<T>, new_value: T) -> CustomUnsafeCell<T> {
    CustomUnsafeCell { value: new_value }
}

impl<T> CustomUnsafeCell<T> {
    /// Returns a new cell that owns `value`.
    pub fn new(value: T) -> (result: Self)
        ensures
            result == spec_new(value),
            result@ == value,
    {
        Self { value }
    }

    /// Returns an exclusive write handle to the stored value.
    ///
    /// Whatever the caller leaves behind the handle is what the cell holds
    /// once the borrow ends.
    pub fn get(&mut self) -> (result: &mut T)
        ensures
            *result == old(self)@,
            final(self)@ == *final(result),
    {
        &mut self.value
    }

    /// Replaces the stored value by `new_value`; the previous value is
    /// dropped before the call returns.
    pub fn update_value(&mut self, new_value: T)
        ensures
            *final(self) == spec_replace(*old(self), new_value),
            final(self)@ == new_value,
    {
        self.value = new_value;
    }

    /// Returns a read-only borrow of the current value.
    pub fn get_value(&self) -> (result: &T)
        ensures
            *result == self@,
    {
        &self.value
    }
}

/// Construction fidelity: a cell constructed with `value` reads back as
/// exactly that value.
pub proof fn lemma_new_then_peek<T>(value: T)
    ensures
        spec_new(value)@ == value,
{
}

/// Replacement visibility: once a cell's value has been replaced by
/// `new_value`, reading the cell yields exactly `new_value`, whatever the
/// cell held before.
pub proof fn lemma_replace_then_peek<T>(cell: CustomUnsafeCell<T>, new_value: T)
    ensures
        spec_replace(cell, new_value)@ == new_value,
{
}

/// Repeated replacement is idempotent: replacing a cell's value by
/// `new_value` twice in a row leaves the same cell as replacing it once,
/// and it reads back as `new_value` — the second replacement overwrites,
/// nothing accumulates.
pub proof fn lemma_replace_twice<T>(cell: CustomUnsafeCell<T>, new_value: T)
    ensures
        spec_replace(spec_replace(cell, new_value), new_value) == spec_replace(cell, new_value),
        spec_replace(spec_replace(cell, new_value), new_value)@ == new_value,
{
}

/// Independence across instances: replacement is determined by the new
/// value alone. Two cells, whatever each held before, are equal after the
/// same replacement, and either equals a freshly constructed cell. Since
/// [`CustomUnsafeCell::update_value`] takes an exclusive borrow of the one
/// cell it acts on, replacing the value of one cell cannot touch what any
/// other cell holds.
pub proof fn lemma_replace_state_independent<T>(
    c1: CustomUnsafeCell<T>,
    c2: CustomUnsafeCell<T>,
    new_value: T,
)
    ensures
        spec_replace(c1, new_value) == spec_replace(c2, new_value),
        spec_replace(c1, new_value) == spec_new(new_value),
{
}

} // verus!
