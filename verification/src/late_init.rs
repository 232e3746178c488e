//! The framebuffer of the kernel as a value that is initialised after it is
//! declared, and exactly once.

use vstd::prelude::*;
use crate::framebuffer::FramebufferDisplay;

verus! {

/// A one-time cell of the `spin` crate for the framebuffer.
#[verifier::external_body]
pub struct OnceSlot {
    once: spin::once::Once<FramebufferDisplay>,
}

/// What a one-time cell holds.
pub enum OnceState {
    /// Nothing yet.
    Incomplete,
    /// The value it was initialised with.
    Complete(FramebufferDisplay),
    /// Nothing, for good: its initialiser panicked.
    Poisoned,
}

/// What a one-time cell of the framebuffer holds.
pub uninterp spec fn once_state(slot: OnceSlot) -> OnceState;

/// `Once::new` makes a cell that holds nothing yet.
#[verifier::external_body]
fn once_new() -> (slot: OnceSlot)
    ensures
        once_state(slot) == OnceState::Incomplete,
{
    OnceSlot { once: spin::once::Once::new() }
}

/// `Once::call_once` initialises a cell that holds nothing yet with what its
/// initialiser returns, here `value`, and leaves a cell that is initialised
/// as it is. It panics on a poisoned cell.
#[verifier::external_body]
fn once_set(slot: &mut OnceSlot, value: FramebufferDisplay)
    requires
        once_state(*old(slot)) != OnceState::Poisoned,
    ensures
        once_state(*final(slot)) == if once_state(*old(slot)) == OnceState::Incomplete {
            OnceState::Complete(value)
        } else {
            once_state(*old(slot))
        },
    no_unwind
{
    slot.once.call_once(|| value);
}

/// `Once::get` shows the value of a cell that is initialised, and nothing
/// otherwise.
#[verifier::external_body]
fn once_get(slot: &OnceSlot) -> (value: Option<&FramebufferDisplay>)
    ensures
        match value {
            Some(value) => once_state(*slot) == OnceState::Complete(*value),
            None => !(once_state(*slot) is Complete),
        },
{
    slot.once.get()
}

/// `Once::get_mut` hands out the value of a cell that is initialised, to be
/// changed in place, and nothing otherwise.
#[verifier::external_body]
fn once_get_mut(slot: &mut OnceSlot) -> (value: Option<&mut FramebufferDisplay>)
    ensures
        match value {
            Some(value) => once_state(*old(slot)) == OnceState::Complete(*value) && once_state(
                *final(slot),
            ) == OnceState::Complete(*final(value)),
            None => !(once_state(*old(slot)) is Complete) && once_state(*final(slot))
                == once_state(*old(slot)),
        },
    no_unwind
{
    slot.once.get_mut()
}

/// `Once::try_into_inner` gives up the cell for the value it was initialised
/// with, if it was.
#[verifier::external_body]
fn once_into_inner(slot: OnceSlot) -> (value: Option<FramebufferDisplay>)
    ensures
        match value {
            Some(value) => once_state(slot) == OnceState::Complete(value),
            None => !(once_state(slot) is Complete),
        },
{
    slot.once.try_into_inner()
}

/// A place for the framebuffer, which is made after the place is declared. It
/// is read only after it was initialised.
pub struct LateInit(OnceSlot);

impl View for LateInit {
    type V = Option<FramebufferDisplay>;

    closed spec fn view(&self) -> Option<FramebufferDisplay> {
        match once_state(self.0) {
            OnceState::Complete(value) => Some(value),
            _ => None,
        }
    }
}

impl LateInit {
    /// No initialiser runs inside the cell, so the cell is never poisoned.
    #[verifier::type_invariant]
    closed spec fn inv(self) -> bool {
        once_state(self.0) != OnceState::Poisoned
    }

    /// A place that holds nothing yet.
    pub fn new() -> (place: LateInit)
        ensures
            place@ is None,
    {
        LateInit(once_new())
    }

    /// Initialises the place with what `init` makes, unless it is initialised
    /// already, in which case `init` does not run.
    pub fn init<F: FnOnce() -> FramebufferDisplay>(&mut self, init: F)
        requires
            call_requires(init, ()),
        ensures
            old(self)@ is Some ==> final(self)@ == old(self)@,
            old(self)@ is None ==> (final(self)@ matches Some(value) && call_ensures(
                init,
                (),
                value,
            )),
    {
        proof {
            use_type_invariant(&*self);
        }
        if once_get(&self.0).is_none() {
            let value = init();
            once_set(&mut self.0, value);
        }
    }

    /// Tells whether the place is initialised.
    pub fn is_initialized(&self) -> (initialized: bool)
        ensures
            initialized == self@ is Some,
    {
        once_get(&self.0).is_some()
    }

    /// Gives up the place for the framebuffer in it, if it was initialised.
    pub fn into_inner(self) -> (value: Option<FramebufferDisplay>)
        ensures
            value == self@,
    {
        once_into_inner(self.0)
    }

    /// The value of a place that is initialised.
    pub fn deref(&self) -> (value: &FramebufferDisplay)
        requires
            self@ is Some,
        ensures
            self@ == Some(*value),
    {
        match once_get(&self.0) {
            Some(value) => value,
            None => vstd::pervasive::unreached(),
        }
    }

    /// The value of a place that is initialised, to be changed.
    pub fn deref_mut(&mut self) -> (value: &mut FramebufferDisplay)
        requires
            old(self)@ is Some,
        ensures
            old(self)@ == Some(*value),
            final(self)@ == Some(*final(value)),
    {
        match once_get_mut(&mut self.0) {
            Some(value) => value,
            None => vstd::pervasive::unreached(),
        }
    }
}

} // verus!
