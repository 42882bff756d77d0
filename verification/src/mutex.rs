//! Mutual-exclusion wrappers: the only legal way to touch state shared with
//! an interrupt handler.
//!
//! On a single core with no operating system there is nothing to block on;
//! exclusion is a capability check. Every accessor demands a reference to a
//! live [`CriticalSection`], which exists only while global interrupt
//! delivery is disabled, so no handler can interleave with the access. A
//! handle on the wrapped value without a critical section is a build-time
//! error, not a runtime one.

use vstd::prelude::*;

use crate::interrupt::CriticalSection;

verus! {

/// Owns a value that the main flow shares with interrupt handlers. The value
/// can be read, replaced or overwritten only while presenting a live
/// [`CriticalSection`]; replace/get semantics, with no internal consistency
/// checks — see [`DynamicMutex`] for the defensive variant.
pub struct Mutex<T> {
    value: T,
}

impl<T> Mutex<T> {
    /// The wrapped value.
    pub closed spec fn spec_value(&self) -> T {
        self.value
    }

    /// Creates a new `Mutex` wrapping `data`.
    pub fn new(data: T) -> (m: Self)
        ensures
            m.spec_value() == data,
    {
        Mutex { value: data }
    }

    /// Borrows the wrapped value for reading. Can only be called inside a
    /// critical section, ensured by requiring a reference to one.
    pub fn lock<'a>(&'a self, _cs: &CriticalSection) -> (r: &'a T)
        ensures
            *r == self.spec_value(),
    {
        &self.value
    }

    /// Reads the wrapped value. Can only be called inside a critical
    /// section.
    pub fn get(&self, _cs: &CriticalSection) -> (v: T) where T: Copy
        ensures
            v == self.spec_value(),
    {
        self.value
    }

    /// Overwrites the wrapped value. Can only be called inside a critical
    /// section.
    pub fn set(&mut self, _cs: &CriticalSection, data: T)
        ensures
            final(self).spec_value() == data,
    {
        self.value = data;
    }

    /// Updates the wrapped value through `f` and returns the new value. Can
    /// only be called inside a critical section; the caller shows that `f`
    /// accepts the current value, and learns exactly that the new value is
    /// an output of `f` on it.
    pub fn update<F: FnOnce(T) -> T>(&mut self, _cs: &CriticalSection, f: F) -> (r: T) where
        T: Copy,

        requires
            call_requires(f, (old(self).spec_value(),)),
        ensures
            call_ensures(f, (old(self).spec_value(),), final(self).spec_value()),
            r == final(self).spec_value(),
    {
        let updated = f(self.value);
        self.value = updated;
        updated
    }

    /// Replaces the wrapped value, returning the previous one. Can only be
    /// called inside a critical section.
    pub fn replace(&mut self, _cs: &CriticalSection, data: T) -> (prev: T)
        ensures
            final(self).spec_value() == data,
            prev == old(self).spec_value(),
    {
        let mut prev = data;
        core::mem::swap(&mut self.value, &mut prev);
        prev
    }
}

/// The defensive variant of [`Mutex`] for structured data: the wrapped value
/// is borrowed out whole and restored explicitly, and the wrapper tracks at
/// runtime whether a borrow is open. A conflicting second borrow — possible
/// only when user code breaks the single-core interrupt discipline — is the
/// loud failure this variant guards against; verified callers rule it out
/// through the precondition.
pub struct DynamicMutex<T> {
    value: Option<T>,
}

impl<T> DynamicMutex<T> {
    /// Whether the wrapped value is currently borrowed out.
    pub closed spec fn is_borrowed(&self) -> bool {
        self.value is None
    }

    /// The wrapped value, when no borrow is open.
    pub closed spec fn spec_value(&self) -> T {
        self.value->0
    }

    /// Creates a new `DynamicMutex` wrapping `data`.
    pub fn new(data: T) -> (m: Self)
        ensures
            !m.is_borrowed(),
            m.spec_value() == data,
    {
        DynamicMutex { value: Some(data) }
    }

    /// Whether the wrapped value is currently borrowed out, as a runtime
    /// check.
    pub fn currently_borrowed(&self) -> (r: bool)
        ensures
            r == self.is_borrowed(),
    {
        self.value.is_none()
    }

    /// Takes the wrapped value out, recording the open borrow. Can only be
    /// called inside a critical section, and — the dynamic check — only
    /// while no other borrow is open.
    pub fn lock(&mut self, _cs: &CriticalSection) -> (v: T)
        requires
            !old(self).is_borrowed(),
        ensures
            final(self).is_borrowed(),
            v == old(self).spec_value(),
    {
        self.value.take().unwrap()
    }

    /// Puts a value back, closing the open borrow.
    pub fn restore(&mut self, _cs: &CriticalSection, data: T)
        requires
            old(self).is_borrowed(),
        ensures
            !final(self).is_borrowed(),
            final(self).spec_value() == data,
    {
        self.value = Some(data);
    }
}

} // verus!
