//! Core library of a bare-metal board support package for a single-core
//! AArch64 single-board computer.
//!
//! The crate holds the logic of the kernel's exception / interrupt / timer
//! subsystem together with the smaller helpers around it. Register reads and
//! writes of the CPU's architectural timer and interrupt mask go through thin
//! trusted wrappers over the `aarch64_cpu` crate; the memory-mapped
//! peripheral windows (interrupt controller, UART, GPIO) are driven by the
//! surrounding binary, which hands their register values to this library as
//! plain integers.

pub mod chainload;
pub mod duration;
pub mod errors;
pub mod exception;
pub mod filters;
pub mod gpio;
pub mod instrument;
pub mod interface;
pub mod irq;
pub mod oscillators;
pub mod sync;
pub mod timer;
