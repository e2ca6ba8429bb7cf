//! Error taxonomy of the kernel core.
//!
//! Everything that reaches the interrupt or timer layer is fatal by design:
//! the caller prints a diagnostic and halts. The only recoverable error is a
//! wall-clock duration that does not fit the hardware counter; its documented
//! handling is to skip the requested operation.

use vstd::prelude::*;

verus! {

/// A typed error of the kernel core.
#[derive(Clone, Copy, Debug, PartialEq, Eq)]
pub enum Errcode {
    /// A `Duration` too large to be represented as a 64-bit tick count.
    /// Recoverable: the caller skips the operation, never wraps.
    DurationTooLarge,
    /// A basic (core-private) interrupt source was signalled while no
    /// handler was registered for it. Fatal: a configuration bug.
    NoBasicHandler(usize),
    /// A peripheral interrupt source was signalled while no handler was
    /// registered for it. Fatal: a configuration bug.
    NoPeriphHandler(usize),
    /// A registered interrupt handler reported a failure. Fatal.
    HandlerFailure(&'static str),
    /// A write to initialization-only state was attempted after the one-shot
    /// "initialization finished" flag was raised. Fatal.
    InitAlreadyFinished,
    /// Two entries of one GPIO configuration request named the same pin.
    /// Fatal: a configuration bug.
    PinAlreadyConfigured(usize),
}

} // verus!
