//! The registers of one physical CPU, held as a value.
//!
//! The engine never executes a register access. Its caller reads the
//! registers into a [`PhysicalCpu`], hands it to an operation, and writes
//! back what the operation changed. The contracts of the operations are
//! stated over this value.

use crate::context_frame::GuestSystemRegisters;
use vstd::prelude::*;

verus! {

/// What the engine reads or writes of one physical CPU at EL2.
#[derive(Clone, Copy, Debug, PartialEq, Eq, Structural)]
pub struct PhysicalCpu {
    /// The system-register bank that the hardware holds at this moment: the
    /// host's while the host runs, the guest's while a guest runs.
    pub sys: GuestSystemRegisters,
    /// Base address of the EL2 exception vector.
    pub vbar_el2: u64,
    /// Trap control for accesses from lower levels.
    pub cptr_el2: u64,
    /// Access of EL1 to the physical counter and timer.
    pub cnthctl_el2: u64,
    /// Per-CPU slot that keeps the host's SP_EL0 while a guest runs.
    pub host_sp_el0: u64,
}

impl PhysicalCpu {
    /// The CPU with `bank` loaded into its system registers.
    pub open spec fn loaded(self, bank: GuestSystemRegisters) -> PhysicalCpu {
        PhysicalCpu { sys: bank, ..self }
    }

    /// The CPU with the virtualization bit of HCR_EL2, bit 0, set.
    pub open spec fn virtualization_enabled(self) -> bool {
        self.sys.hcr_el2 % 2 == 1
    }
}

} // verus!
