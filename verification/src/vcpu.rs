//! A virtual CPU: its registers, its set-up, and the steps that take it into
//! the guest and out of it again.

use crate::context_frame::{GuestSystemRegisters, TrapFrame};
use crate::error::VcpuError;
use crate::exception::{
    handle_exception_irq, handle_exception_sync, spec_can_step_over, spec_sync_is_fatal,
    sync_exit, sync_frame, sync_is_fatal, ExitReason, TrapKind, IRQ_VECTOR,
};
use crate::exception_utils::{ExceptionClass, Syndrome};
use crate::hardware::PhysicalCpu;
use crate::registers::{
    cnthctl_el2_el1_access, cnthctl_with_el1_access, hcr_el2_guest, spsr_el1h_masked,
    vtcr_el2_stage2,
};
use vstd::prelude::*;

verus! {

/// Byte offset of the host stack slot in the memory image of a virtual CPU:
/// the slot follows the 34 words of the trap frame. The exit code adds this
/// offset to the address of the frame to find the host stack pointer.
pub const HOST_STACK_TOP_OFFSET: usize = 34 * 8;

/// Number of words at the start of the memory image that the entry and exit
/// code addresses: the trap frame and the host stack slot.
pub const IMAGE_PREFIX_WORDS: usize = 35;

/// Reset value of SCTLR_EL1: MMU off, caches off, little-endian.
pub const SCTLR_EL1_RESET: u64 = 0x30C5_0830;

/// SPSR for a guest that starts at EL1 with its own stack pointer and with
/// debug, SError, IRQ and FIQ masked.
pub const SPSR_EL1H_MASKED: u64 = 0x3c5;

/// VTCR_EL2 for a 40-bit physical address space, a 4 KiB granule, start
/// level 1, a region size field of 25 and inner-shareable write-back walks.
pub const VTCR_EL2_STAGE2: u64 = 0x2_3559;

/// HCR_EL2 with stage-2 translation on and EL1 in AArch64.
pub const HCR_EL2_GUEST: u64 = 0x8000_0001;

/// Start level field of the stage-2 walk.
pub const STAGE2_START_LEVEL: u64 = 0b01;

/// Region size field of the stage-2 walk: 64 minus the 39 address bits.
pub const STAGE2_T0SZ: u64 = 64 - 39;

/// The registers that are saved or loaded when a guest is entered or left,
/// or when the CPU goes from one guest to another.
#[derive(Clone, Copy, Debug, PartialEq, Eq)]
pub struct VmCpuRegisters {
    /// Guest trap context.
    pub trap_context_regs: TrapFrame,
    /// Guest system registers.
    pub vm_system_regs: GuestSystemRegisters,
}

impl Default for VmCpuRegisters {
    fn default() -> (regs: VmCpuRegisters)
        ensures
            regs.trap_context_regs.is_zero(),
            regs.vm_system_regs == GuestSystemRegisters::zeroed(),
    {
        VmCpuRegisters {
            trap_context_regs: TrapFrame::new(),
            vm_system_regs: GuestSystemRegisters::new(),
        }
    }
}

/// What is needed to create an [`Aarch64VCpu`].
#[derive(Clone, Copy, Debug, PartialEq, Eq, Structural)]
pub struct Aarch64VCpuCreateConfig {
    /// The MPIDR_EL1 value of the new virtual CPU, which identifies it among
    /// the CPUs of the guest.
    pub mpidr_el1: u64,
}

impl Default for Aarch64VCpuCreateConfig {
    fn default() -> (config: Aarch64VCpuCreateConfig)
        ensures
            config.mpidr_el1 == 0,
    {
        Aarch64VCpuCreateConfig { mpidr_el1: 0 }
    }
}

/// Where a virtual CPU stands in the cycle of entering and leaving the
/// guest.
#[derive(Clone, Copy, Debug, PartialEq, Eq, Structural)]
pub enum RunState {
    /// The host holds the CPU; the guest bank lies in memory.
    Ready,
    /// The guest bank is loaded; the guest runs or is about to.
    Running,
}

/// A virtual CPU of a guest.
///
/// In memory the trap frame comes first and the host stack slot follows it
/// at [`HOST_STACK_TOP_OFFSET`]; the entry and exit code relies on both.
#[derive(Clone, Debug)]
pub struct Aarch64VCpu {
    ctx: TrapFrame,
    host_stack_top: u64,
    guest_system_regs: GuestSystemRegisters,
    mpidr: u64,
    state: RunState,
}

/// The state of a virtual CPU as contracts see it.
pub struct VCpuView {
    /// Guest context frame.
    pub ctx: TrapFrame,
    /// Host stack pointer, parked while the guest runs.
    pub host_stack_top: u64,
    /// Guest system-register bank while it lies in memory.
    pub guest_system_regs: GuestSystemRegisters,
    /// MPIDR_EL1 value of the virtual CPU.
    pub mpidr: u64,
    /// Place in the run cycle.
    pub state: RunState,
}

impl View for Aarch64VCpu {
    type V = VCpuView;

    closed spec fn view(&self) -> VCpuView {
        VCpuView {
            ctx: self.ctx,
            host_stack_top: self.host_stack_top,
            guest_system_regs: self.guest_system_regs,
            mpidr: self.mpidr,
            state: self.state,
        }
    }
}

impl VCpuView {
    /// The words at the start of the memory image of the virtual CPU: the
    /// 34 words of the trap frame, then the host stack slot.
    pub open spec fn image_prefix(self) -> Seq<u64> {
        self.ctx@.push(self.host_stack_top)
    }
}

/// The VMPIDR_EL2 value for a virtual CPU with the given MPIDR_EL1 value:
/// the same value with bit 31 set.
pub open spec fn vmpidr_el2_of(mpidr: u64) -> u64 {
    if (mpidr / 0x8000_0000) % 2 == 1 {
        mpidr
    } else {
        (mpidr + 0x8000_0000) as u64
    }
}

/// The guest bank after set-up: the registers that set-up programs hold
/// their initial values, the others are kept.
pub open spec fn bank_after_setup(bank: GuestSystemRegisters, mpidr: u64) -> GuestSystemRegisters {
    GuestSystemRegisters {
        cntvoff_el2: 0,
        cntkctl_el1: 0,
        sctlr_el1: SCTLR_EL1_RESET,
        pmcr_el0: 0,
        vtcr_el2: VTCR_EL2_STAGE2,
        hcr_el2: HCR_EL2_GUEST,
        vmpidr_el2: vmpidr_el2_of(mpidr),
        ..bank
    }
}

/// The CPU after a guest bank was loaded for entry: the host's SP_EL0 waits
/// in its per-CPU slot, nothing is trapped by CPTR_EL2, and the system
/// registers hold the guest bank.
pub open spec fn cpu_entered(cpu: PhysicalCpu, bank: GuestSystemRegisters) -> PhysicalCpu {
    PhysicalCpu { sys: bank, cptr_el2: 0, host_sp_el0: cpu.sys.sp_el0, ..cpu }
}

/// The CPU after the guest was left: SP_EL0 holds the host's value again.
pub open spec fn cpu_left(cpu: PhysicalCpu) -> PhysicalCpu {
    PhysicalCpu { sys: GuestSystemRegisters { sp_el0: cpu.host_sp_el0, ..cpu.sys }, ..cpu }
}

/// A trap that ends the engine: a kind other than a synchronous exception
/// and an interrupt request, or a fatal synchronous exception.
pub open spec fn spec_exit_is_fatal(kind: TrapKind, syndrome: Syndrome) -> bool {
    match kind {
        TrapKind::Synchronous => spec_sync_is_fatal(syndrome),
        TrapKind::Irq => false,
        _ => true,
    }
}

/// What the decode of a trap that is not fatal gives.
pub open spec fn exit_result(kind: TrapKind, ctx: TrapFrame, syndrome: Syndrome) -> Result<
    ExitReason,
    VcpuError,
> {
    if kind == TrapKind::Synchronous {
        sync_exit(ctx, syndrome)
    } else {
        Ok(ExitReason::ExternalInterrupt { vector: IRQ_VECTOR })
    }
}

/// The frame after the decode of a trap that is not fatal.
pub open spec fn exit_frame(kind: TrapKind, ctx: TrapFrame, syndrome: Syndrome) -> TrapFrame {
    if kind == TrapKind::Synchronous {
        sync_frame(ctx, syndrome)
    } else {
        ctx
    }
}

/// Whether a trap of `kind` with this syndrome ends the engine.
pub fn exit_is_fatal(kind: TrapKind, syndrome: &Syndrome) -> (fatal: bool)
    ensures
        fatal == spec_exit_is_fatal(kind, *syndrome),
{
    match kind {
        TrapKind::Synchronous => sync_is_fatal(syndrome),
        TrapKind::Irq => false,
        _ => true,
    }
}

/// Parks the host's SP_EL0 in its per-CPU slot.
pub fn save_host_sp_el0(cpu: &mut PhysicalCpu)
    ensures
        *final(cpu) == (PhysicalCpu { host_sp_el0: old(cpu).sys.sp_el0, ..*old(cpu) }),
{
    cpu.host_sp_el0 = cpu.sys.sp_el0;
}

/// Puts the host's SP_EL0 back from its per-CPU slot.
pub fn restore_host_sp_el0(cpu: &mut PhysicalCpu)
    ensures
        *final(cpu) == cpu_left(*old(cpu)),
{
    cpu.sys.sp_el0 = cpu.host_sp_el0;
}

impl Aarch64VCpu {
    /// A virtual CPU with every register zero, which is ready to be set up.
    pub fn new(config: Aarch64VCpuCreateConfig) -> (vcpu: Result<Aarch64VCpu, VcpuError>)
        ensures
            vcpu matches Ok(v) && {
                &&& v@.ctx.is_zero()
                &&& v@.host_stack_top == 0
                &&& v@.guest_system_regs == GuestSystemRegisters::zeroed()
                &&& v@.mpidr == config.mpidr_el1
                &&& v@.state == RunState::Ready
            },
    {
        Ok(
            Aarch64VCpu {
                ctx: TrapFrame::new(),
                host_stack_top: 0,
                guest_system_regs: GuestSystemRegisters::new(),
                mpidr: config.mpidr_el1,
                state: RunState::Ready,
            },
        )
    }

    /// Prepares the virtual CPU for its first entry: the guest starts at
    /// EL1 with interrupts masked, with the MMU off, behind a stage-2
    /// translation, and with access to the physical counter and timer.
    pub fn setup(&mut self, cpu: &mut PhysicalCpu) -> (done: Result<(), VcpuError>)
        ensures
            done is Ok,
            final(self)@ == (VCpuView {
                ctx: TrapFrame { spsr: SPSR_EL1H_MASKED, ..old(self)@.ctx },
                guest_system_regs: bank_after_setup(
                    old(self)@.guest_system_regs,
                    old(self)@.mpidr,
                ),
                ..old(self)@
            }),
            *final(cpu) == (PhysicalCpu {
                cnthctl_el2: cnthctl_with_el1_access(old(cpu).cnthctl_el2),
                ..*old(cpu)
            }),
    {
        self.init_hv(cpu);
        Ok(())
    }

    /// Sets the address at which the guest starts.
    pub fn set_entry(&mut self, entry: u64) -> (done: Result<(), VcpuError>)
        ensures
            done is Ok,
            final(self)@ == (VCpuView {
                ctx: TrapFrame { elr: entry, ..old(self)@.ctx },
                ..old(self)@
            }),
    {
        self.set_elr(entry);
        Ok(())
    }

    /// Sets the base of the stage-2 translation table.
    pub fn set_ept_root(&mut self, ept_root: u64) -> (done: Result<(), VcpuError>)
        ensures
            done is Ok,
            final(self)@ == (VCpuView {
                guest_system_regs: GuestSystemRegisters {
                    vttbr_el2: ept_root,
                    ..old(self)@.guest_system_regs
                },
                ..old(self)@
            }),
    {
        self.guest_system_regs.vttbr_el2 = ept_root;
        Ok(())
    }

    /// Binds the virtual CPU to the physical CPU it runs on. Nothing has to
    /// be done for it.
    pub fn bind(&mut self) -> (done: Result<(), VcpuError>)
        ensures
            done is Ok,
            final(self)@ == old(self)@,
    {
        Ok(())
    }

    /// Releases the virtual CPU from the physical CPU. Nothing has to be
    /// done for it.
    pub fn unbind(&mut self) -> (done: Result<(), VcpuError>)
        ensures
            done is Ok,
            final(self)@ == old(self)@,
    {
        Ok(())
    }

    /// Writes `val` to guest register `idx`, as the result of an emulated
    /// read for instance. A write to the zero register or to an index past
    /// it changes nothing.
    pub fn set_gpr(&mut self, idx: usize, val: u64)
        ensures
            final(self)@.ctx.gpr@ == old(self)@.ctx.gpr_after_set(idx as int, val),
            final(self)@.ctx.sp_el0 == old(self)@.ctx.sp_el0,
            final(self)@.ctx.elr == old(self)@.ctx.elr,
            final(self)@.ctx.spsr == old(self)@.ctx.spsr,
            final(self)@.host_stack_top == old(self)@.host_stack_top,
            final(self)@.guest_system_regs == old(self)@.guest_system_regs,
            final(self)@.mpidr == old(self)@.mpidr,
            final(self)@.state == old(self)@.state,
    {
        self.ctx.set_gpr(idx, val);
    }

    /// Reads guest register `idx`. The zero register and any index past it
    /// read as zero.
    pub fn get_gpr(&self, idx: usize) -> (val: u64)
        ensures
            val == self@.ctx.spec_gpr(idx as int),
    {
        self.ctx.gpr(idx)
    }

    /// Sets the exception return address.
    pub fn set_elr(&mut self, elr: u64)
        ensures
            final(self)@ == (VCpuView {
                ctx: TrapFrame { elr, ..old(self)@.ctx },
                ..old(self)@
            }),
    {
        self.ctx.set_exception_pc(elr);
    }

    /// The guest context frame.
    pub fn ctx(&self) -> (ctx: &TrapFrame)
        ensures
            *ctx == self@.ctx,
    {
        &self.ctx
    }

    /// The start of the memory image from which the entry code loads the
    /// guest: the trap frame, and behind it the host stack slot.
    pub fn image_prefix(&self) -> (words: [u64; 35])
        ensures
            words@ == self@.image_prefix(),
            words@[HOST_STACK_TOP_OFFSET as int / 8] == self@.host_stack_top,
    {
        let frame: [u64; 34] = self.ctx.to_words();
        let mut words: [u64; 35] = [0u64;35];
        let mut i: usize = 0;
        while i < 34
            invariant
                i <= 34,
                forall|k: int| 0 <= k < i ==> words@[k] == frame@[k],
            decreases 34 - i,
        {
            words[i] = frame[i];
            i = i + 1;
        }
        words[34] = self.host_stack_top;
        assert(words@ =~= self@.image_prefix());
        words
    }

    /// Takes over the start of the memory image as the exit code left it:
    /// the guest frame that the exception vector saved, and the host stack
    /// slot.
    pub fn set_image_prefix(&mut self, words: &[u64; 35])
        ensures
            final(self)@.image_prefix() == words@,
            final(self)@.ctx@ == words@.subrange(0, 34),
            final(self)@.host_stack_top == words@[HOST_STACK_TOP_OFFSET as int / 8],
            final(self)@.guest_system_regs == old(self)@.guest_system_regs,
            final(self)@.mpidr == old(self)@.mpidr,
            final(self)@.state == old(self)@.state,
    {
        let mut frame: [u64; 34] = [0u64;34];
        let mut i: usize = 0;
        while i < 34
            invariant
                i <= 34,
                forall|k: int| 0 <= k < i ==> frame@[k] == words@[k],
            decreases 34 - i,
        {
            frame[i] = words[i];
            i = i + 1;
        }
        assert(frame@ =~= words@.subrange(0, 34));
        self.ctx = TrapFrame::from_words(&frame);
        self.host_stack_top = words[34];
        assert(self@.image_prefix() =~= words@);
    }

    /// The guest system-register bank.
    pub fn guest_system_regs(&self) -> (bank: &GuestSystemRegisters)
        ensures
            *bank == self@.guest_system_regs,
    {
        &self.guest_system_regs
    }

    /// The MPIDR_EL1 value of the virtual CPU.
    pub fn mpidr(&self) -> (mpidr: u64)
        ensures
            mpidr == self@.mpidr,
    {
        self.mpidr
    }

    /// The host stack pointer that is parked in the virtual CPU.
    pub fn host_stack_top(&self) -> (top: u64)
        ensures
            top == self@.host_stack_top,
    {
        self.host_stack_top
    }

    /// The place of the virtual CPU in the run cycle.
    pub fn state(&self) -> (state: RunState)
        ensures
            state == self@.state,
    {
        self.state
    }

    /// First step of a run, from `Ready` to `Running`: parks the host's
    /// SP_EL0, then loads the guest bank. After it the caller fences
    /// instruction and TLB state and enters the guest.
    pub fn begin_run(&mut self, cpu: &mut PhysicalCpu)
        requires
            old(self)@.state == RunState::Ready,
        ensures
            final(self)@ == (VCpuView { state: RunState::Running, ..old(self)@ }),
            *final(cpu) == cpu_entered(*old(cpu), old(self)@.guest_system_regs),
    {
        save_host_sp_el0(cpu);
        self.restore_vm_system_regs(cpu);
        self.state = RunState::Running;
    }

    /// Loads the guest bank into the hardware, with nothing trapped by
    /// CPTR_EL2.
    pub fn restore_vm_system_regs(&self, cpu: &mut PhysicalCpu)
        ensures
            *final(cpu) == (PhysicalCpu {
                sys: self@.guest_system_regs,
                cptr_el2: 0,
                ..*old(cpu)
            }),
    {
        cpu.cptr_el2 = 0;
        self.guest_system_regs.restore(cpu);
    }

    /// Captures the guest bank from the hardware, then puts the host's
    /// SP_EL0 back. The order matters: the captured bank holds the guest's
    /// SP_EL0, and the host's value returns only after it.
    pub fn store_vm_system_regs(&mut self, cpu: &mut PhysicalCpu)
        ensures
            final(self)@ == (VCpuView {
                guest_system_regs: GuestSystemRegisters::captured(*old(cpu)),
                ..old(self)@
            }),
            *final(cpu) == cpu_left(*old(cpu)),
    {
        self.guest_system_regs.store(cpu);
        restore_host_sp_el0(cpu);
    }

    /// Last step of a run, from `Running` to `Ready`: captures the guest
    /// bank, then puts the host's SP_EL0 back, then decodes the trap of
    /// `exit_reason` into the reason that is handed to the scheduler.
    ///
    /// The bank is captured before the host's SP_EL0 is put back, so the
    /// captured bank holds the guest's SP_EL0.
    pub fn vmexit_handler(
        &mut self,
        cpu: &mut PhysicalCpu,
        exit_reason: TrapKind,
        syndrome: &Syndrome,
    ) -> (exit: Result<ExitReason, VcpuError>)
        requires
            old(self)@.state == RunState::Running,
            !spec_exit_is_fatal(exit_reason, *syndrome),
            exit_reason == TrapKind::Synchronous && syndrome.class() == Some(
                ExceptionClass::DataAbortLowerEL,
            ) ==> spec_can_step_over(old(self)@.ctx, *syndrome),
        ensures
            exit == exit_result(exit_reason, old(self)@.ctx, *syndrome),
            final(self)@ == (VCpuView {
                ctx: exit_frame(exit_reason, old(self)@.ctx, *syndrome),
                guest_system_regs: GuestSystemRegisters::captured(*old(cpu)),
                state: RunState::Ready,
                ..old(self)@
            }),
            *final(cpu) == cpu_left(*old(cpu)),
    {
        self.store_vm_system_regs(cpu);
        self.state = RunState::Ready;
        match exit_reason {
            TrapKind::Synchronous => handle_exception_sync(&mut self.ctx, syndrome),
            _ => handle_exception_irq(&mut self.ctx),
        }
    }

    /// Sets the saved program status of the guest and initialises its bank.
    fn init_hv(&mut self, cpu: &mut PhysicalCpu)
        ensures
            final(self)@ == (VCpuView {
                ctx: TrapFrame { spsr: SPSR_EL1H_MASKED, ..old(self)@.ctx },
                guest_system_regs: bank_after_setup(
                    old(self)@.guest_system_regs,
                    old(self)@.mpidr,
                ),
                ..old(self)@
            }),
            *final(cpu) == (PhysicalCpu {
                cnthctl_el2: cnthctl_with_el1_access(old(cpu).cnthctl_el2),
                ..*old(cpu)
            }),
    {
        self.ctx.spsr = spsr_el1h_masked();
        self.init_vm_context(cpu);
    }

    /// Initialises the guest bank, and lets EL1 use the physical counter
    /// and timer.
    fn init_vm_context(&mut self, cpu: &mut PhysicalCpu)
        ensures
            final(self)@ == (VCpuView {
                guest_system_regs: bank_after_setup(
                    old(self)@.guest_system_regs,
                    old(self)@.mpidr,
                ),
                ..old(self)@
            }),
            *final(cpu) == (PhysicalCpu {
                cnthctl_el2: cnthctl_with_el1_access(old(cpu).cnthctl_el2),
                ..*old(cpu)
            }),
    {
        cpu.cnthctl_el2 = cnthctl_el2_el1_access(cpu.cnthctl_el2);
        self.guest_system_regs.cntvoff_el2 = 0;
        self.guest_system_regs.cntkctl_el1 = 0;

        self.guest_system_regs.sctlr_el1 = SCTLR_EL1_RESET;
        self.guest_system_regs.pmcr_el0 = 0;
        self.guest_system_regs.vtcr_el2 = vtcr_el2_stage2(STAGE2_START_LEVEL, STAGE2_T0SZ);
        self.guest_system_regs.hcr_el2 = hcr_el2_guest();

        let mpidr: u64 = self.mpidr;
        let mut vmpidr: u64 = 1 << 31;
        vmpidr |= mpidr;
        assert(vmpidr == vmpidr_el2_of(mpidr)) by (bit_vector)
            requires
                vmpidr == (1u64 << 31) | mpidr,
        ;
        self.guest_system_regs.vmpidr_el2 = vmpidr;
    }
}

/// In the memory image of a virtual CPU the trap frame takes the first 34
/// words, and the host stack slot lies right behind it, at byte offset
/// `34 * 8`.
pub proof fn lemma_host_stack_top_follows_frame(vcpu: VCpuView)
    ensures
        HOST_STACK_TOP_OFFSET == 34 * 8,
        vcpu.ctx@.len() * 8 == HOST_STACK_TOP_OFFSET,
        vcpu.image_prefix().len() == IMAGE_PREFIX_WORDS,
        vcpu.image_prefix().subrange(0, 34) == vcpu.ctx@,
        vcpu.image_prefix()[HOST_STACK_TOP_OFFSET as int / 8] == vcpu.host_stack_top,
{
    assert(vcpu.image_prefix().subrange(0, 34) =~= vcpu.ctx@);
}

/// A run that the guest does not disturb gives the host its SP_EL0 back, and
/// the bank that is captured at the exit holds the guest's SP_EL0, not the
/// host's: `during` is the CPU as the guest left it, with the per-CPU slot
/// untouched.
pub proof fn lemma_run_returns_host_sp_el0(
    cpu: PhysicalCpu,
    bank: GuestSystemRegisters,
    during: PhysicalCpu,
)
    requires
        during.host_sp_el0 == cpu_entered(cpu, bank).host_sp_el0,
    ensures
        cpu_left(during).sys.sp_el0 == cpu.sys.sp_el0,
        GuestSystemRegisters::captured(during).sp_el0 == during.sys.sp_el0,
        GuestSystemRegisters::captured(cpu_entered(cpu, bank)) == bank,
{
}

} // verus!
