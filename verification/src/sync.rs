//! Single-core lock substitutes.
//!
//! With one active core there is no second hardware thread to contend
//! with: mutual exclusion between foreground code and interrupt handlers
//! is interrupt masking (see [`crate::irq::exec_with_irq_masked`]), not a
//! spinning lock. [`RwLock`] is the cell such masked sections protect;
//! [`InitLock`] additionally enforces the one-shot "initialization
//! finished" gate: state behind it can be written only until the system
//! leaves initialization.

use vstd::prelude::*;

use crate::errors::Errcode;

verus! {

/// A cell protected by interrupt masking rather than a lock: reads may
/// happen from handlers, writes only with delivery masked.
pub struct RwLock<T> {
    pub data: T,
}

impl<T> RwLock<T> {
    /// Wraps the protected value.
    pub fn new(data: T) -> (l: RwLock<T>)
        ensures
            l.data == data,
    {
        RwLock { data }
    }

    /// Reads the protected value.
    pub fn read(&self) -> (r: &T)
        ensures
            r == self.data,
    {
        &self.data
    }

    /// Replaces the protected value, returning the previous one.
    pub fn replace(&mut self, value: T) -> (prev: T)
        ensures
            final(self).data == value,
            prev == old(self).data,
    {
        let mut value = value;
        core::mem::swap(&mut self.data, &mut value);
        value
    }

    /// Consumes the cell, releasing the protected value.
    pub fn into_inner(self) -> (r: T)
        ensures
            r == self.data,
    {
        self.data
    }
}

/// A cell writable only during initialization: once [`InitLock::finish`]
/// raises the one-shot flag, every further write is the typed fatal error
/// — initialization-only state must never change afterwards.
pub struct InitLock<T> {
    pub data: T,
    pub finished: bool,
}

impl<T> InitLock<T> {
    /// Wraps the value; initialization is open.
    pub fn new(data: T) -> (l: InitLock<T>)
        ensures
            l.data == data,
            !l.finished,
    {
        InitLock { data, finished: false }
    }

    /// Reads the protected value.
    pub fn read(&self) -> (r: &T)
        ensures
            r == self.data,
    {
        &self.data
    }

    /// Replaces the protected value while initialization is open; after
    /// [`InitLock::finish`], refuses with the typed fatal error and leaves
    /// the value untouched.
    pub fn write(&mut self, value: T) -> (r: Result<(), Errcode>)
        ensures
            !old(self).finished ==> (r is Ok && final(self).data == value
                && !final(self).finished),
            old(self).finished ==> (r == Err::<(), Errcode>(Errcode::InitAlreadyFinished)
                && *final(self) == *old(self)),
    {
        if self.finished {
            Err(Errcode::InitAlreadyFinished)
        } else {
            self.data = value;
            Ok(())
        }
    }

    /// Raises the one-shot "initialization finished" flag.
    pub fn finish(&mut self)
        ensures
            final(self).finished,
            final(self).data == old(self).data,
    {
        self.finished = true;
    }
}

} // verus!
