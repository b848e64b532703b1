//! Per-CPU virtualization engine for AArch64 guests running at EL1 under an
//! EL2 hypervisor.
//!
//! The crate holds the decisions of the engine as verified functions over
//! plain values: the decode of the exception syndrome, the guest context
//! frame, the guest system-register bank, the per-CPU enable and disable
//! steps, and the entry and exit steps of a virtual CPU. Hardware registers
//! are read and written by the caller, who passes their values in and applies
//! the values that come back.

pub mod context_frame;
pub mod error;
pub mod exception;
pub mod exception_utils;
pub mod hardware;
pub mod pcpu;
pub mod registers;
pub mod sync;
pub mod vcpu;

pub use crate::context_frame::{GuestSystemRegisters, TrapFrame};
pub use crate::error::VcpuError;
pub use crate::exception::ExitReason;
pub use crate::pcpu::Aarch64PerCpu;
pub use crate::vcpu::{Aarch64VCpu, Aarch64VCpuCreateConfig, VmCpuRegisters};
use vstd::prelude::*;

verus! {

/// Context frame of a guest.
pub type ContextFrame = TrapFrame;

/// Whether the processor offers the virtualization support this engine needs.
pub fn has_hardware_support() -> (supported: bool)
    ensures
        supported,
{
    true
}

/// Registers the handler for interrupt requests that arrive while a guest
/// runs. They reach the engine through the exit path, so there is nothing to
/// register.
pub fn do_register_lower_aarch64_irq_handler() -> (done: Result<(), VcpuError>)
    ensures
        done is Ok,
{
    Ok(())
}

} // verus!
