//! A cell that is written once and read afterwards.

use vstd::prelude::*;

verus! {

/// A cell that is empty until it is set, and keeps its value from then on.
pub struct OnceCell<T>(Option<T>);

impl<T> View for OnceCell<T> {
    type V = Option<T>;

    closed spec fn view(&self) -> Option<T> {
        self.0
    }
}

impl<T> OnceCell<T> {
    /// Creates a new empty cell.
    pub fn new() -> (cell: OnceCell<T>)
        ensures
            cell@ is None,
    {
        OnceCell(None)
    }

    /// Gets the reference to the underlying value, or nothing if the cell is
    /// empty.
    pub fn get(&self) -> (value: Option<&T>)
        ensures
            match value {
                Some(value) => self@ == Some(*value),
                None => self@ is None,
            },
    {
        self.0.as_ref()
    }

    /// Gets the mutable reference to the underlying value, or nothing if the
    /// cell is empty. The holder of the reference may change the value; a cell
    /// that is set stays set.
    pub fn get_mut(&mut self) -> (value: Option<&mut T>)
        ensures
            match value {
                Some(value) => old(self)@ == Some(*value) && final(self)@ == Some(*final(value)),
                None => old(self)@ is None && final(self)@ is None,
            },
    {
        match &mut self.0 {
            Some(value) => Some(value),
            None => None,
        }
    }

    /// Gets the reference to the underlying value of a cell that is set.
    pub fn get_unchecked(&self) -> (value: &T)
        requires
            self@ is Some,
        ensures
            self@ == Some(*value),
    {
        match &self.0 {
            Some(value) => value,
            None => vstd::pervasive::unreached(),
        }
    }

    /// Gets the mutable reference to the underlying value of a cell that is
    /// set.
    pub fn get_unchecked_mut(&mut self) -> (value: &mut T)
        requires
            old(self)@ is Some,
        ensures
            old(self)@ == Some(*value),
            final(self)@ == Some(*final(value)),
    {
        match &mut self.0 {
            Some(value) => value,
            None => vstd::pervasive::unreached(),
        }
    }

    /// Sets the value of an empty cell. A cell that is set keeps its value,
    /// and the new value is handed back.
    pub fn set(&mut self, value: T) -> (result: Result<(), T>)
        ensures
            final(self)@ == set_value(old(self)@, value),
            old(self)@ is None ==> result is Ok,
            old(self)@ is Some ==> result == Err::<(), T>(value),
    {
        if self.0.is_none() {
            self.0 = Some(value);
            Ok(())
        } else {
            Err(value)
        }
    }
}

/// A cell is written at most once: whatever is offered to a cell that is set,
/// the cell keeps the value it was set with first.
pub proof fn lemma_first_value_stays<T>(first: T, second: T)
    ensures
        set_value(set_value(None, first), second) == Some(first),
{
}

/// The content of a cell after `value` is offered to it.
pub open spec fn set_value<T>(cell: Option<T>, value: T) -> Option<T> {
    match cell {
        Some(_) => cell,
        None => Some(value),
    }
}

} // verus!
