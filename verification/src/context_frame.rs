//! The guest context frame and the guest system-register bank.

use crate::hardware::PhysicalCpu;
use vstd::prelude::*;

verus! {

/// Number of general-purpose registers that the frame keeps: x0 to x30.
pub const GPR_COUNT: usize = 31;

/// Number of 64-bit words in a [`TrapFrame`].
pub const TRAP_FRAME_WORDS: usize = 34;

/// Index that instructions use for the zero register.
pub const ZERO_REGISTER: usize = 31;

/// The guest CPU state that the exception vector saves on every trap.
///
/// In memory the frame is 34 words in this order: `gpr[0]` to `gpr[30]`,
/// `sp_el0`, `elr`, `spsr`. The entry and exit code addresses them by byte
/// offset; the view of a frame is that sequence of words.
#[derive(Clone, Copy, Debug, PartialEq, Eq)]
pub struct TrapFrame {
    /// General-purpose registers x0 to x30.
    pub gpr: [u64; 31],
    /// Stack pointer of the trapped level.
    pub sp_el0: u64,
    /// Exception link register: where the guest resumes.
    pub elr: u64,
    /// Saved program status.
    pub spsr: u64,
}

impl View for TrapFrame {
    type V = Seq<u64>;

    open spec fn view(&self) -> Seq<u64> {
        self.gpr@.push(self.sp_el0).push(self.elr).push(self.spsr)
    }
}

impl TrapFrame {
    /// What a read of general-purpose register `index` gives: the saved value
    /// for x0 to x30, zero for the zero register and for any larger index.
    pub open spec fn spec_gpr(self, index: int) -> u64 {
        if 0 <= index < GPR_COUNT {
            self.gpr@[index]
        } else {
            0
        }
    }

    /// The registers after a write of `val` to register `index`: x0 to x30
    /// take the value, a write to any other index is dropped.
    pub open spec fn gpr_after_set(self, index: int, val: u64) -> Seq<u64> {
        if 0 <= index < GPR_COUNT {
            self.gpr@.update(index, val)
        } else {
            self.gpr@
        }
    }

    /// Every word of the frame is zero.
    pub open spec fn is_zero(self) -> bool {
        &&& forall|i: int| 0 <= i < GPR_COUNT ==> self.gpr@[i] == 0
        &&& self.sp_el0 == 0
        &&& self.elr == 0
        &&& self.spsr == 0
    }

    /// A frame with every word zero.
    pub fn new() -> (frame: TrapFrame)
        ensures
            frame.is_zero(),
            frame@ == Seq::new(TRAP_FRAME_WORDS as nat, |i: int| 0u64),
    {
        let frame = TrapFrame { gpr: [0u64;31], sp_el0: 0, elr: 0, spsr: 0 };
        assert(frame@ =~= Seq::new(TRAP_FRAME_WORDS as nat, |i: int| 0u64));
        frame
    }

    /// The address at which the guest resumes.
    pub fn exception_pc(&self) -> (pc: u64)
        ensures
            pc == self.elr,
    {
        self.elr
    }

    /// Sets the address at which the guest resumes.
    pub fn set_exception_pc(&mut self, pc: u64)
        ensures
            final(self).elr == pc,
            final(self).gpr == old(self).gpr,
            final(self).sp_el0 == old(self).sp_el0,
            final(self).spsr == old(self).spsr,
    {
        self.elr = pc;
    }

    /// Sets the first argument register, x0.
    pub fn set_argument(&mut self, arg: u64)
        ensures
            final(self).gpr@ == old(self).gpr@.update(0, arg),
            final(self).sp_el0 == old(self).sp_el0,
            final(self).elr == old(self).elr,
            final(self).spsr == old(self).spsr,
    {
        self.gpr[0] = arg;
    }

    /// Writes `val` to general-purpose register `index`. A write to the zero
    /// register or to an index past it changes nothing.
    pub fn set_gpr(&mut self, index: usize, val: u64)
        ensures
            final(self).gpr@ == old(self).gpr_after_set(index as int, val),
            final(self).sp_el0 == old(self).sp_el0,
            final(self).elr == old(self).elr,
            final(self).spsr == old(self).spsr,
    {
        if index < GPR_COUNT {
            self.gpr[index] = val;
        }
    }

    /// Reads general-purpose register `index`. The zero register and any
    /// index past it read as zero.
    pub fn gpr(&self, index: usize) -> (val: u64)
        ensures
            val == self.spec_gpr(index as int),
    {
        if index < GPR_COUNT {
            self.gpr[index]
        } else {
            0
        }
    }

    /// The frame as the 34 words that lie in memory.
    pub fn to_words(&self) -> (words: [u64; 34])
        ensures
            words@ == self@,
    {
        let mut words: [u64; 34] = [0u64;34];
        let mut i: usize = 0;
        while i < GPR_COUNT
            invariant
                i <= GPR_COUNT,
                forall|k: int| 0 <= k < i ==> words@[k] == self.gpr@[k],
            decreases GPR_COUNT - i,
        {
            words[i] = self.gpr[i];
            i = i + 1;
        }
        words[31] = self.sp_el0;
        words[32] = self.elr;
        words[33] = self.spsr;
        assert(words@ =~= self@);
        words
    }

    /// The frame that the 34 words in memory hold.
    pub fn from_words(words: &[u64; 34]) -> (frame: TrapFrame)
        ensures
            frame@ == words@,
    {
        let mut gpr: [u64; 31] = [0u64;31];
        let mut i: usize = 0;
        while i < GPR_COUNT
            invariant
                i <= GPR_COUNT,
                forall|k: int| 0 <= k < i ==> gpr@[k] == words@[k],
            decreases GPR_COUNT - i,
        {
            gpr[i] = words[i];
            i = i + 1;
        }
        let frame = TrapFrame { gpr, sp_el0: words[31], elr: words[32], spsr: words[33] };
        assert(frame@ =~= words@);
        frame
    }
}

impl Default for TrapFrame {
    fn default() -> (frame: TrapFrame)
        ensures
            frame.is_zero(),
    {
        TrapFrame::new()
    }
}

/// A frame always has 34 words, and its fields lie at fixed places in them.
pub proof fn lemma_trap_frame_layout(frame: TrapFrame)
    ensures
        frame@.len() == TRAP_FRAME_WORDS,
        forall|i: int| 0 <= i < GPR_COUNT ==> frame@[i] == frame.gpr@[i],
        frame@[31] == frame.sp_el0,
        frame@[32] == frame.elr,
        frame@[33] == frame.spsr,
{
}

/// Two frames with the same words are the same frame.
pub proof fn lemma_trap_frame_words_determine_frame(a: TrapFrame, b: TrapFrame)
    requires
        a@ == b@,
    ensures
        a == b,
{
    lemma_trap_frame_layout(a);
    lemma_trap_frame_layout(b);
    assert forall|i: int| 0 <= i < GPR_COUNT implies a.gpr@[i] == b.gpr@[i] by {
        assert(a@[i] == a.gpr@[i]);
        assert(b@[i] == b.gpr@[i]);
    }
    assert(a.gpr =~= b.gpr);
}

/// The EL1 and EL2 system registers that are swapped on every entry into and
/// exit from a guest.
///
/// At any moment the hardware holds either the host's bank or the guest's,
/// and the other one lies in memory. [`GuestSystemRegisters::restore`] loads
/// a bank before the guest is entered, [`GuestSystemRegisters::store`]
/// captures it right after the guest was left.
#[derive(Clone, Copy, Debug, PartialEq, Eq, Structural)]
pub struct GuestSystemRegisters {
    /// Stack pointer of EL0.
    pub sp_el0: u64,
    /// Stack pointer of EL1.
    pub sp_el1: u64,
    /// Exception link register of EL1.
    pub elr_el1: u64,
    /// Saved program status of EL1.
    pub spsr_el1: u64,
    /// System control of EL1.
    pub sctlr_el1: u64,
    /// Architectural feature access control.
    pub cpacr_el1: u64,
    /// Translation table base 0 of EL1.
    pub ttbr0_el1: u64,
    /// Translation table base 1 of EL1.
    pub ttbr1_el1: u64,
    /// Translation control of EL1.
    pub tcr_el1: u64,
    /// Exception syndrome of EL1.
    pub esr_el1: u64,
    /// Fault address of EL1.
    pub far_el1: u64,
    /// Physical address of the last address translation.
    pub par_el1: u64,
    /// Memory attribute indirection.
    pub mair_el1: u64,
    /// Auxiliary memory attribute indirection.
    pub amair_el1: u64,
    /// Vector base address of EL1.
    pub vbar_el1: u64,
    /// Context identifier.
    pub contextidr_el1: u64,
    /// Thread pointer of EL0.
    pub tpidr_el0: u64,
    /// Thread pointer of EL1.
    pub tpidr_el1: u64,
    /// Read-only thread pointer of EL0.
    pub tpidrro_el0: u64,
    /// Counter-timer kernel control.
    pub cntkctl_el1: u64,
    /// Virtual counter offset.
    pub cntvoff_el2: u64,
    /// Virtual timer compare value.
    pub cntv_cval_el0: u64,
    /// Virtual timer control.
    pub cntv_ctl_el0: u64,
    /// Performance monitors control.
    pub pmcr_el0: u64,
    /// Multiprocessor affinity that the guest reads.
    pub vmpidr_el2: u64,
    /// Processor identification that the guest reads.
    pub vpidr_el2: u64,
    /// Hypervisor configuration.
    pub hcr_el2: u64,
    /// Stage-2 translation control.
    pub vtcr_el2: u64,
    /// Stage-2 translation table base.
    pub vttbr_el2: u64,
}

impl GuestSystemRegisters {
    /// The bank with every register zero.
    pub open spec fn zeroed() -> GuestSystemRegisters {
        GuestSystemRegisters {
            sp_el0: 0,
            sp_el1: 0,
            elr_el1: 0,
            spsr_el1: 0,
            sctlr_el1: 0,
            cpacr_el1: 0,
            ttbr0_el1: 0,
            ttbr1_el1: 0,
            tcr_el1: 0,
            esr_el1: 0,
            far_el1: 0,
            par_el1: 0,
            mair_el1: 0,
            amair_el1: 0,
            vbar_el1: 0,
            contextidr_el1: 0,
            tpidr_el0: 0,
            tpidr_el1: 0,
            tpidrro_el0: 0,
            cntkctl_el1: 0,
            cntvoff_el2: 0,
            cntv_cval_el0: 0,
            cntv_ctl_el0: 0,
            pmcr_el0: 0,
            vmpidr_el2: 0,
            vpidr_el2: 0,
            hcr_el2: 0,
            vtcr_el2: 0,
            vttbr_el2: 0,
        }
    }

    /// The bank that a capture of `cpu` gives.
    pub open spec fn captured(cpu: PhysicalCpu) -> GuestSystemRegisters {
        cpu.sys
    }

    /// A bank with every register zero.
    pub fn new() -> (bank: GuestSystemRegisters)
        ensures
            bank == GuestSystemRegisters::zeroed(),
    {
        GuestSystemRegisters {
            sp_el0: 0,
            sp_el1: 0,
            elr_el1: 0,
            spsr_el1: 0,
            sctlr_el1: 0,
            cpacr_el1: 0,
            ttbr0_el1: 0,
            ttbr1_el1: 0,
            tcr_el1: 0,
            esr_el1: 0,
            far_el1: 0,
            par_el1: 0,
            mair_el1: 0,
            amair_el1: 0,
            vbar_el1: 0,
            contextidr_el1: 0,
            tpidr_el0: 0,
            tpidr_el1: 0,
            tpidrro_el0: 0,
            cntkctl_el1: 0,
            cntvoff_el2: 0,
            cntv_cval_el0: 0,
            cntv_ctl_el0: 0,
            pmcr_el0: 0,
            vmpidr_el2: 0,
            vpidr_el2: 0,
            hcr_el2: 0,
            vtcr_el2: 0,
            vttbr_el2: 0,
        }
    }

    /// Captures the bank that the hardware holds into `self`.
    pub fn store(&mut self, cpu: &PhysicalCpu)
        ensures
            *final(self) == GuestSystemRegisters::captured(*cpu),
    {
        *self = cpu.sys;
    }

    /// Loads `self` into the hardware. No other register of the CPU changes.
    pub fn restore(&self, cpu: &mut PhysicalCpu)
        ensures
            *final(cpu) == old(cpu).loaded(*self),
    {
        cpu.sys = *self;
    }
}

impl Default for GuestSystemRegisters {
    fn default() -> (bank: GuestSystemRegisters)
        ensures
            bank == GuestSystemRegisters::zeroed(),
    {
        GuestSystemRegisters::new()
    }
}

/// Capturing the live bank and loading it back leaves the CPU as it was.
pub proof fn lemma_store_then_restore_is_identity(cpu: PhysicalCpu)
    ensures
        cpu.loaded(GuestSystemRegisters::captured(cpu)) == cpu,
{
}

/// Loading a bank and capturing it again gives the same bank.
pub proof fn lemma_restore_then_store_is_identity(bank: GuestSystemRegisters, cpu: PhysicalCpu)
    ensures
        GuestSystemRegisters::captured(cpu.loaded(bank)) == bank,
{
}

} // verus!
