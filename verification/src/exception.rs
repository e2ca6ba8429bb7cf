//! Exception vector layout and slot disposition.
//!
//! The CPU dispatches every exception to one of sixteen fixed-offset slots:
//! four origins (current level on SP0, current level on SPx, lower level in
//! AArch64, lower level in AArch32) times four classes (synchronous, IRQ,
//! FIQ, SError). The entry stub saves the full register state into an
//! [`ExceptionContext`] on the stack and calls the slot's handler; a shared
//! epilogue restores the context and returns from the exception.
//!
//! Only the current-level/SPx IRQ slot is part of normal operation: it
//! services pending interrupts and resumes the interrupted context. FIQ
//! slots park the core. Every other slot indicates a control-flow bug and
//! is fatal — reaching one must never be silently ignored.

use vstd::prelude::*;

verus! {

/// Where an exception came from: the exception level and stack in use.
#[derive(Clone, Copy, Debug, PartialEq, Eq, Structural)]
pub enum ExceptionOrigin {
    /// Current exception level, running on SP_EL0.
    CurrentSp0,
    /// Current exception level, running on its own stack pointer.
    CurrentSpx,
    /// A lower exception level executing in AArch64.
    LowerAarch64,
    /// A lower exception level executing in AArch32.
    LowerAarch32,
}

/// The class of an exception.
#[derive(Clone, Copy, Debug, PartialEq, Eq, Structural)]
pub enum ExceptionClass {
    Synchronous,
    Irq,
    Fiq,
    SError,
}

/// What reaching a slot means for the kernel.
#[derive(Clone, Copy, Debug, PartialEq, Eq, Structural)]
pub enum SlotDisposition {
    /// Service pending interrupts, then resume the interrupted context
    /// through the restore epilogue.
    ServiceIrq,
    /// Park the core in a wait-for-event loop: the slot is unused.
    Park,
    /// Emit a diagnostic and halt: reaching the slot is a control-flow bug.
    Fatal,
}

/// The on-stack snapshot the entry stub forms: all thirty general-purpose
/// registers, the link register, and the saved return address, program
/// status, and syndrome registers, in the order the entry stub stores
/// them. Valid for one handler invocation and never retained.
pub struct ExceptionContext {
    /// General-purpose registers x0–x29.
    pub gpr: [u64; 30],
    /// The link register, x30.
    pub lr: u64,
    /// Exception link register: the program counter at the exception.
    pub elr_el2: u64,
    /// Saved program status.
    pub spsr_el2: u64,
    /// Exception syndrome register.
    pub esr_el2: u64,
}

/// The exception-class field of a syndrome register value: bits 31 down
/// to 26.
pub fn esr_exception_class(esr: u64) -> (r: u8)
    ensures
        r == (esr >> 26) & 0x3f,
{
    proof {
        assert((esr >> 26) & 0x3f < 256) by (bit_vector);
    }
    ((esr >> 26u64) & 0x3f) as u8
}

impl ExceptionContext {
    /// The exception-class field of the saved syndrome register.
    pub fn exception_class(&self) -> (r: u8)
        ensures
            r == (self.esr_el2 >> 26) & 0x3f,
    {
        esr_exception_class(self.esr_el2)
    }
}

/// The byte offset of a slot in the vector table: 0x200 per origin, 0x80
/// per class within it — the layout the vector base register points at,
/// bit for bit.
pub open spec fn spec_vector_offset(origin: ExceptionOrigin, class: ExceptionClass) -> int {
    (match origin {
        ExceptionOrigin::CurrentSp0 => 0x000int,
        ExceptionOrigin::CurrentSpx => 0x200int,
        ExceptionOrigin::LowerAarch64 => 0x400int,
        ExceptionOrigin::LowerAarch32 => 0x600int,
    }) + (match class {
        ExceptionClass::Synchronous => 0x000int,
        ExceptionClass::Irq => 0x080int,
        ExceptionClass::Fiq => 0x100int,
        ExceptionClass::SError => 0x180int,
    })
}

/// The byte offset of the slot for (`origin`, `class`) in the vector
/// table.
pub fn vector_offset(origin: ExceptionOrigin, class: ExceptionClass) -> (r: u16)
    ensures
        r == spec_vector_offset(origin, class),
{
    let base: u16 = match origin {
        ExceptionOrigin::CurrentSp0 => 0x000,
        ExceptionOrigin::CurrentSpx => 0x200,
        ExceptionOrigin::LowerAarch64 => 0x400,
        ExceptionOrigin::LowerAarch32 => 0x600,
    };
    let class_off: u16 = match class {
        ExceptionClass::Synchronous => 0x000,
        ExceptionClass::Irq => 0x080,
        ExceptionClass::Fiq => 0x100,
        ExceptionClass::SError => 0x180,
    };
    base + class_off
}

/// The disposition of each slot: only the current-level/SPx IRQ slot
/// services and resumes; FIQ slots park; everything else is fatal.
pub fn slot_disposition(origin: ExceptionOrigin, class: ExceptionClass) -> (r: SlotDisposition)
    ensures
        (origin == ExceptionOrigin::CurrentSpx && class == ExceptionClass::Irq) ==> r
            == SlotDisposition::ServiceIrq,
        class == ExceptionClass::Fiq ==> r == SlotDisposition::Park,
        (class != ExceptionClass::Fiq && !(origin == ExceptionOrigin::CurrentSpx && class
            == ExceptionClass::Irq)) ==> r == SlotDisposition::Fatal,
{
    match class {
        ExceptionClass::Fiq => SlotDisposition::Park,
        ExceptionClass::Irq => match origin {
            ExceptionOrigin::CurrentSpx => SlotDisposition::ServiceIrq,
            _ => SlotDisposition::Fatal,
        },
        _ => SlotDisposition::Fatal,
    }
}

} // verus!
