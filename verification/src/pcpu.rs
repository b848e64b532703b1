//! Per-CPU state of the engine, and the steps that switch virtualization on
//! and off on one physical CPU.

use crate::context_frame::GuestSystemRegisters;
use crate::error::VcpuError;
use crate::hardware::PhysicalCpu;
use crate::registers::{
    hcr_el2_vm_disable, hcr_el2_vm_enable, hcr_with_vm_clear, hcr_with_vm_set,
};
use vstd::prelude::*;

verus! {

/// Per-CPU data: one instance for each physical CPU.
#[derive(Clone, Copy, Debug, PartialEq, Eq, Structural)]
pub struct Aarch64PerCpu {
    /// Index of the CPU.
    pub cpu_id: usize,
    /// Address of the context of this CPU, if one is set.
    pub ctx: Option<usize>,
    /// The EL2 vector base that was installed before virtualization was
    /// switched on; it is put back when virtualization is switched off.
    pub ori_exception_vector_base: u64,
}

impl Aarch64PerCpu {
    /// The per-CPU data after [`Aarch64PerCpu::hardware_enable`] on `cpu`.
    pub open spec fn enabled(self, cpu: PhysicalCpu) -> Aarch64PerCpu {
        Aarch64PerCpu { ori_exception_vector_base: cpu.vbar_el2, ..self }
    }

    /// The CPU after [`Aarch64PerCpu::hardware_enable`]: the vector base is
    /// `vector_base`, and the virtualization bit of HCR_EL2 is set. The
    /// other bits of HCR_EL2 and every other register are kept.
    pub open spec fn cpu_enabled(cpu: PhysicalCpu, vector_base: u64) -> PhysicalCpu {
        PhysicalCpu {
            vbar_el2: vector_base,
            sys: GuestSystemRegisters { hcr_el2: hcr_with_vm_set(cpu.sys.hcr_el2), ..cpu.sys },
            ..cpu
        }
    }

    /// The CPU after [`Aarch64PerCpu::hardware_disable`]: the vector base is
    /// the recorded one, and the virtualization bit of HCR_EL2 is clear. The
    /// other bits of HCR_EL2 and every other register are kept.
    pub open spec fn cpu_disabled(self, cpu: PhysicalCpu) -> PhysicalCpu {
        PhysicalCpu {
            vbar_el2: self.ori_exception_vector_base,
            sys: GuestSystemRegisters { hcr_el2: hcr_with_vm_clear(cpu.sys.hcr_el2), ..cpu.sys },
            ..cpu
        }
    }

    /// The per-CPU data of CPU `cpu_id`, with no context and no recorded
    /// vector base.
    pub fn new(cpu_id: usize) -> (percpu: Result<Aarch64PerCpu, VcpuError>)
        ensures
            percpu == Ok::<Aarch64PerCpu, VcpuError>(
                Aarch64PerCpu { cpu_id, ctx: None, ori_exception_vector_base: 0 },
            ),
    {
        Ok(Aarch64PerCpu { cpu_id, ctx: None, ori_exception_vector_base: 0 })
    }

    /// Whether virtualization is switched on: bit 0 of HCR_EL2.
    pub fn is_enabled(&self, cpu: &PhysicalCpu) -> (enabled: bool)
        ensures
            enabled == cpu.virtualization_enabled(),
    {
        let hcr_el2: u64 = cpu.sys.hcr_el2;
        let vm: u64 = hcr_el2 & 1;
        assert((vm != 0) == (hcr_el2 % 2 == 1)) by (bit_vector)
            requires
                vm == hcr_el2 & 1,
        ;
        vm != 0
    }

    /// Switches virtualization on: records the vector base that is
    /// installed, installs `vector_base`, and sets the virtualization bit of
    /// HCR_EL2.
    pub fn hardware_enable(&mut self, cpu: &mut PhysicalCpu, vector_base: u64) -> (done: Result<
        (),
        VcpuError,
    >)
        ensures
            done is Ok,
            *final(self) == old(self).enabled(*old(cpu)),
            *final(cpu) == Aarch64PerCpu::cpu_enabled(*old(cpu), vector_base),
            final(cpu).virtualization_enabled(),
    {
        self.ori_exception_vector_base = cpu.vbar_el2;
        cpu.vbar_el2 = vector_base;
        cpu.sys.hcr_el2 = hcr_el2_vm_enable(cpu.sys.hcr_el2);
        Ok(())
    }

    /// Switches virtualization off: puts the recorded vector base back and
    /// clears the virtualization bit of HCR_EL2.
    pub fn hardware_disable(&mut self, cpu: &mut PhysicalCpu) -> (done: Result<(), VcpuError>)
        ensures
            done is Ok,
            *final(self) == *old(self),
            *final(cpu) == old(self).cpu_disabled(*old(cpu)),
            !final(cpu).virtualization_enabled(),
    {
        cpu.vbar_el2 = self.ori_exception_vector_base;
        cpu.sys.hcr_el2 = hcr_el2_vm_disable(cpu.sys.hcr_el2);
        Ok(())
    }
}

/// After virtualization was switched on and off again, the EL2 vector base
/// is the one that was installed before, whatever happened to the registers
/// in between: `between` is the CPU as it is when it is switched off.
pub proof fn lemma_enable_then_disable_restores_vector_base(
    percpu: Aarch64PerCpu,
    cpu: PhysicalCpu,
    between: PhysicalCpu,
)
    ensures
        percpu.enabled(cpu).cpu_disabled(between).vbar_el2 == cpu.vbar_el2,
        !percpu.enabled(cpu).cpu_disabled(between).virtualization_enabled(),
{
}

/// Switching virtualization on and off at once changes nothing but the
/// virtualization bit of HCR_EL2, which ends clear: on a CPU on which it was
/// clear before, every register is as it was.
pub proof fn lemma_enable_then_disable_keeps_registers(
    percpu: Aarch64PerCpu,
    cpu: PhysicalCpu,
    vector_base: u64,
)
    ensures
        percpu.enabled(cpu).cpu_disabled(Aarch64PerCpu::cpu_enabled(cpu, vector_base)) == (
        PhysicalCpu {
            sys: GuestSystemRegisters { hcr_el2: hcr_with_vm_clear(cpu.sys.hcr_el2), ..cpu.sys },
            ..cpu
        }),
        Aarch64PerCpu::cpu_enabled(cpu, vector_base).virtualization_enabled(),
        !cpu.virtualization_enabled() ==> percpu.enabled(cpu).cpu_disabled(
            Aarch64PerCpu::cpu_enabled(cpu, vector_base),
        ) == cpu,
{
}

} // verus!
