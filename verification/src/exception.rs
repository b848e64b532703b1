//! Decode of a trap taken from the guest into the reason that is handed to
//! the scheduler.

use crate::context_frame::TrapFrame;
use crate::error::VcpuError;
use crate::exception_utils::{
    exception_class, exception_data_abort_access_is_write, exception_data_abort_access_reg,
    exception_data_abort_access_reg_width, exception_data_abort_access_width,
    exception_data_abort_handleable, exception_data_abort_is_permission_fault,
    exception_data_abort_is_translate_fault, exception_fault_addr,
    exception_next_instruction_step, ExceptionClass, Syndrome,
};
use vstd::prelude::*;

verus! {

/// Trap kind that the vector code reports for a synchronous exception.
pub const EXCEPTION_SYNC: usize = 0;

/// Trap kind that the vector code reports for an interrupt request.
pub const EXCEPTION_IRQ: usize = 1;

/// First function identifier of the PSCI range in the 32-bit convention.
pub const PSCI_FN_RANGE_32_START: u64 = 0x8400_0000;

/// Last function identifier of the PSCI range in the 32-bit convention.
pub const PSCI_FN_RANGE_32_END: u64 = 0x8400_001F;

/// First function identifier of the PSCI range in the 64-bit convention.
pub const PSCI_FN_RANGE_64_START: u64 = 0xC400_0000;

/// Last function identifier of the PSCI range in the 64-bit convention.
pub const PSCI_FN_RANGE_64_END: u64 = 0xC400_001F;

/// Offset of SYSTEM_OFF in a PSCI range.
pub const PSCI_FN_SYSTEM_OFF: u64 = 0x8;

/// Interrupt vector that is reported until the interrupt controller is asked
/// for the pending one.
pub const IRQ_VECTOR: u64 = 33;

/// The kind of exception that an entry of the EL2 vector stands for.
#[derive(Clone, Copy, Debug, PartialEq, Eq, Structural)]
pub enum TrapKind {
    /// Synchronous exception.
    Synchronous,
    /// Interrupt request.
    Irq,
    /// Fast interrupt request.
    Fiq,
    /// System error.
    SError,
}

impl TrapKind {
    /// The number that the vector code uses for the kind.
    pub open spec fn spec_code(self) -> u8 {
        match self {
            TrapKind::Synchronous => 0,
            TrapKind::Irq => 1,
            TrapKind::Fiq => 2,
            TrapKind::SError => 3,
        }
    }

    /// The kind with the given number, or the number itself where no kind
    /// has it.
    pub open spec fn spec_try_from(value: u8) -> Result<TrapKind, u8> {
        if value == 0 {
            Ok(TrapKind::Synchronous)
        } else if value == 1 {
            Ok(TrapKind::Irq)
        } else if value == 2 {
            Ok(TrapKind::Fiq)
        } else if value == 3 {
            Ok(TrapKind::SError)
        } else {
            Err(value)
        }
    }

    /// The number that the vector code uses for the kind.
    #[verifier::when_used_as_spec(spec_code)]
    pub fn code(self) -> (code: u8)
        ensures
            code == self.spec_code(),
    {
        match self {
            TrapKind::Synchronous => 0,
            TrapKind::Irq => 1,
            TrapKind::Fiq => 2,
            TrapKind::SError => 3,
        }
    }

    /// The kind with the given number. A number that names no kind comes
    /// back as the error.
    #[verifier::when_used_as_spec(spec_try_from)]
    pub fn try_from(value: u8) -> (kind: Result<TrapKind, u8>)
        ensures
            kind == TrapKind::spec_try_from(value),
    {
        if value == 0 {
            Ok(TrapKind::Synchronous)
        } else if value == 1 {
            Ok(TrapKind::Irq)
        } else if value == 2 {
            Ok(TrapKind::Fiq)
        } else if value == 3 {
            Ok(TrapKind::SError)
        } else {
            Err(value)
        }
    }
}

/// The kind found from a number is the kind that has this number, and the
/// numbers of the kinds are 0 to 3.
pub proof fn lemma_trap_kind_round_trip(kind: TrapKind, value: u8)
    ensures
        TrapKind::spec_try_from(kind.spec_code()) == Ok::<TrapKind, u8>(kind),
        TrapKind::spec_try_from(value) matches Ok(k) ==> k.spec_code() == value,
        TrapKind::spec_try_from(value) is Ok <==> value <= 3,
{
}

/// Where an exception was taken from: the group of the EL2 vector.
#[derive(Clone, Copy, Debug, PartialEq, Eq, Structural)]
pub enum TrapSource {
    /// Current exception level, using SP_EL0.
    CurrentSpEl0,
    /// Current exception level, using its own stack pointer.
    CurrentSpElx,
    /// Lower exception level in AArch64.
    LowerAArch64,
    /// Lower exception level in AArch32.
    LowerAArch32,
}

impl TrapSource {
    /// The number of the group in the vector.
    pub open spec fn spec_code(self) -> u8 {
        match self {
            TrapSource::CurrentSpEl0 => 0,
            TrapSource::CurrentSpElx => 1,
            TrapSource::LowerAArch64 => 2,
            TrapSource::LowerAArch32 => 3,
        }
    }

    /// The source with the given group number, or the number itself where
    /// no source has it.
    pub open spec fn spec_try_from(value: u8) -> Result<TrapSource, u8> {
        if value == 0 {
            Ok(TrapSource::CurrentSpEl0)
        } else if value == 1 {
            Ok(TrapSource::CurrentSpElx)
        } else if value == 2 {
            Ok(TrapSource::LowerAArch64)
        } else if value == 3 {
            Ok(TrapSource::LowerAArch32)
        } else {
            Err(value)
        }
    }

    /// The number of the group in the vector.
    #[verifier::when_used_as_spec(spec_code)]
    pub fn code(self) -> (code: u8)
        ensures
            code == self.spec_code(),
    {
        match self {
            TrapSource::CurrentSpEl0 => 0,
            TrapSource::CurrentSpElx => 1,
            TrapSource::LowerAArch64 => 2,
            TrapSource::LowerAArch32 => 3,
        }
    }

    /// The source with the given group number. A number that names no
    /// source comes back as the error.
    #[verifier::when_used_as_spec(spec_try_from)]
    pub fn try_from(value: u8) -> (source: Result<TrapSource, u8>)
        ensures
            source == TrapSource::spec_try_from(value),
    {
        if value == 0 {
            Ok(TrapSource::CurrentSpEl0)
        } else if value == 1 {
            Ok(TrapSource::CurrentSpElx)
        } else if value == 2 {
            Ok(TrapSource::LowerAArch64)
        } else if value == 3 {
            Ok(TrapSource::LowerAArch32)
        } else {
            Err(value)
        }
    }
}

/// The source found from a number is the source that has this number, and
/// the numbers of the sources are 0 to 3.
pub proof fn lemma_trap_source_round_trip(source: TrapSource, value: u8)
    ensures
        TrapSource::spec_try_from(source.spec_code()) == Ok::<TrapSource, u8>(source),
        TrapSource::spec_try_from(value) matches Ok(s) ==> s.spec_code() == value,
        TrapSource::spec_try_from(value) is Ok <==> value <= 3,
{
}

/// Number of bytes of one entry of the exception vector.
pub const VECTOR_ENTRY_SIZE: usize = 0x80;

/// Number of bytes of the exception vector: sixteen entries. The vector is
/// aligned to this size.
pub const VECTOR_TABLE_SIZE: usize = 0x800;

/// What the code at an entry of the exception vector does.
#[derive(Clone, Copy, Debug, PartialEq, Eq, Structural)]
pub enum VectorEntry {
    /// Saves the guest frame and leaves the guest with this trap kind.
    GuestExit(TrapKind),
    /// Halts with a diagnostic: the exception has no handler.
    Invalid,
}

/// The entry for an exception of `kind` taken from `source`. Guest exits
/// come through the lower-AArch64 group, as synchronous exceptions and as
/// interrupt requests; every other entry is invalid.
pub open spec fn spec_vector_entry(source: TrapSource, kind: TrapKind) -> VectorEntry {
    if source == TrapSource::LowerAArch64 && (kind == TrapKind::Synchronous || kind
        == TrapKind::Irq) {
        VectorEntry::GuestExit(kind)
    } else {
        VectorEntry::Invalid
    }
}

/// The byte offset in the vector of the entry for `kind` from `source`:
/// four groups of four entries, ordered by source and then by kind.
pub open spec fn spec_vector_entry_offset(source: TrapSource, kind: TrapKind) -> usize {
    ((source.spec_code() * 4 + kind.spec_code()) * VECTOR_ENTRY_SIZE) as usize
}

/// The entry for an exception of `kind` taken from `source`.
#[verifier::when_used_as_spec(spec_vector_entry)]
pub fn vector_entry(source: TrapSource, kind: TrapKind) -> (entry: VectorEntry)
    ensures
        entry == spec_vector_entry(source, kind),
{
    match source {
        TrapSource::LowerAArch64 => match kind {
            TrapKind::Synchronous => VectorEntry::GuestExit(TrapKind::Synchronous),
            TrapKind::Irq => VectorEntry::GuestExit(TrapKind::Irq),
            _ => VectorEntry::Invalid,
        },
        _ => VectorEntry::Invalid,
    }
}

/// The byte offset in the vector of the entry for `kind` from `source`.
#[verifier::when_used_as_spec(spec_vector_entry_offset)]
pub fn vector_entry_offset(source: TrapSource, kind: TrapKind) -> (offset: usize)
    ensures
        offset == spec_vector_entry_offset(source, kind),
        offset + VECTOR_ENTRY_SIZE <= VECTOR_TABLE_SIZE,
        offset % VECTOR_ENTRY_SIZE == 0,
{
    let group: usize = source.code() as usize;
    let index: usize = kind.code() as usize;
    (group * 4 + index) * VECTOR_ENTRY_SIZE
}

/// The sixteen entries of the vector lie side by side: two different
/// entries never share a byte.
pub proof fn lemma_vector_entries_are_disjoint(
    source_a: TrapSource,
    kind_a: TrapKind,
    source_b: TrapSource,
    kind_b: TrapKind,
)
    requires
        source_a != source_b || kind_a != kind_b,
    ensures
        spec_vector_entry_offset(source_a, kind_a) + VECTOR_ENTRY_SIZE
            <= spec_vector_entry_offset(source_b, kind_b) || spec_vector_entry_offset(
            source_b,
            kind_b,
        ) + VECTOR_ENTRY_SIZE <= spec_vector_entry_offset(source_a, kind_a),
{
}

/// The number of bytes that a guest memory access moves.
#[derive(Clone, Copy, Debug, PartialEq, Eq, Structural)]
pub enum AccessWidth {
    /// One byte.
    Byte,
    /// Two bytes.
    Word,
    /// Four bytes.
    Dword,
    /// Eight bytes.
    Qword,
}

impl AccessWidth {
    /// The number of bytes.
    pub open spec fn spec_size(self) -> usize {
        match self {
            AccessWidth::Byte => 1,
            AccessWidth::Word => 2,
            AccessWidth::Dword => 4,
            AccessWidth::Qword => 8,
        }
    }

    /// The width of `size` bytes, where `size` is 1, 2, 4 or 8.
    pub open spec fn spec_try_from(size: usize) -> Result<AccessWidth, ()> {
        if size == 1 {
            Ok(AccessWidth::Byte)
        } else if size == 2 {
            Ok(AccessWidth::Word)
        } else if size == 4 {
            Ok(AccessWidth::Dword)
        } else if size == 8 {
            Ok(AccessWidth::Qword)
        } else {
            Err(())
        }
    }

    /// The number of bytes.
    #[verifier::when_used_as_spec(spec_size)]
    pub fn size(self) -> (size: usize)
        ensures
            size == self.spec_size(),
    {
        match self {
            AccessWidth::Byte => 1,
            AccessWidth::Word => 2,
            AccessWidth::Dword => 4,
            AccessWidth::Qword => 8,
        }
    }

    /// The width of `size` bytes. Fails for a size other than 1, 2, 4 and 8.
    #[verifier::when_used_as_spec(spec_try_from)]
    pub fn try_from(size: usize) -> (width: Result<AccessWidth, ()>)
        ensures
            width == AccessWidth::spec_try_from(size),
    {
        if size == 1 {
            Ok(AccessWidth::Byte)
        } else if size == 2 {
            Ok(AccessWidth::Word)
        } else if size == 4 {
            Ok(AccessWidth::Dword)
        } else if size == 8 {
            Ok(AccessWidth::Qword)
        } else {
            Err(())
        }
    }
}

/// A width is found again from its number of bytes, and a number of bytes
/// names a width exactly when it is 1, 2, 4 or 8.
pub proof fn lemma_access_width_round_trip(width: AccessWidth, size: usize)
    ensures
        AccessWidth::spec_try_from(width.spec_size()) == Ok::<AccessWidth, ()>(width),
        AccessWidth::spec_try_from(size) matches Ok(w) ==> w.spec_size() == size,
        AccessWidth::spec_try_from(size) is Ok <==> (size == 1 || size == 2 || size == 4 || size
            == 8),
{
}

/// Why the guest was left, as the scheduler sees it.
#[derive(Clone, Copy, Debug, PartialEq, Eq)]
pub enum ExitReason {
    /// The guest made a hypervisor call that is not a PSCI call.
    Hypercall {
        /// Call number, from x0.
        nr: u64,
        /// Arguments, from x1 to x6.
        args: [u64; 6],
    },
    /// The guest read from an address that no memory backs.
    MmioRead {
        /// Guest intermediate-physical address of the access.
        addr: u64,
        /// Width of the access.
        width: AccessWidth,
        /// Index of the register that receives the value.
        reg: usize,
        /// Width of that register as the instruction uses it.
        reg_width: AccessWidth,
    },
    /// The guest wrote to an address that no memory backs.
    MmioWrite {
        /// Guest intermediate-physical address of the access.
        addr: u64,
        /// Width of the access.
        width: AccessWidth,
        /// The value written.
        data: u64,
    },
    /// An interrupt for the host arrived while the guest ran.
    ExternalInterrupt {
        /// Interrupt vector.
        vector: u64,
    },
    /// The guest asked to be switched off.
    SystemDown,
}

/// The offset of `fn_id` in the PSCI range that holds it, in either calling
/// convention, or `None` where `fn_id` is no PSCI function identifier.
pub open spec fn psci_fn_offset(fn_id: u64) -> Option<u64> {
    if PSCI_FN_RANGE_32_START <= fn_id <= PSCI_FN_RANGE_32_END {
        Some((fn_id - PSCI_FN_RANGE_32_START) as u64)
    } else if PSCI_FN_RANGE_64_START <= fn_id <= PSCI_FN_RANGE_64_END {
        Some((fn_id - PSCI_FN_RANGE_64_START) as u64)
    } else {
        None
    }
}

/// What a hypervisor call with `fn_id` in x0 gives as a PSCI call:
/// SYSTEM_OFF ends the guest, every other PSCI function is unsupported, and
/// an identifier outside the PSCI ranges is no PSCI call.
pub open spec fn psci_exit(fn_id: u64) -> Option<Result<ExitReason, VcpuError>> {
    match psci_fn_offset(fn_id) {
        Some(offset) => Some(
            if offset == PSCI_FN_SYSTEM_OFF {
                Ok(ExitReason::SystemDown)
            } else {
                Err(VcpuError::Unsupported)
            },
        ),
        None => None,
    }
}

/// The hypercall that the frame describes: number in x0, arguments in x1 to
/// x6.
pub open spec fn hypercall_exit(ctx: TrapFrame) -> ExitReason {
    ExitReason::Hypercall {
        nr: ctx.gpr@[0],
        args: [ctx.gpr@[1], ctx.gpr@[2], ctx.gpr@[3], ctx.gpr@[4], ctx.gpr@[5], ctx.gpr@[6]],
    }
}

/// What a hypervisor call gives: the PSCI result where x0 holds a PSCI
/// function identifier, the generic hypercall otherwise.
pub open spec fn hvc_exit(ctx: TrapFrame) -> Result<ExitReason, VcpuError> {
    match psci_exit(ctx.gpr@[0]) {
        Some(result) => result,
        None => Ok(hypercall_exit(ctx)),
    }
}

/// A data abort that the engine cannot go on from: the fault address is
/// known, and either the syndrome does not describe the access or the fault
/// is neither a translation fault nor a permission fault.
pub open spec fn spec_data_abort_is_fatal(syndrome: Syndrome) -> bool {
    syndrome.fault_addr() is Ok && (!syndrome.isv() || (!syndrome.is_translate_fault()
        && !syndrome.is_permission_fault()))
}

/// The exception return address can be moved past the trapped instruction
/// without leaving the range of addresses.
pub open spec fn spec_can_step_over(ctx: TrapFrame, syndrome: Syndrome) -> bool {
    ctx.elr + syndrome.next_instruction_step() <= u64::MAX
}

/// The frame after the decode of a data abort: where the fault address is
/// known the exception return address is moved past the trapped instruction,
/// and nothing else changes.
pub open spec fn data_abort_frame(ctx: TrapFrame, syndrome: Syndrome) -> TrapFrame {
    if syndrome.fault_addr() is Ok {
        TrapFrame { elr: (ctx.elr + syndrome.next_instruction_step()) as u64, ..ctx }
    } else {
        ctx
    }
}

/// What the decode of a data abort that is not fatal gives.
pub open spec fn data_abort_exit(ctx: TrapFrame, syndrome: Syndrome) -> Result<
    ExitReason,
    VcpuError,
> {
    match syndrome.fault_addr() {
        Err(e) => Err(e),
        Ok(addr) => match (
            AccessWidth::spec_try_from(syndrome.access_width()),
            AccessWidth::spec_try_from(syndrome.access_reg_width()),
        ) {
            (Ok(width), Ok(reg_width)) => {
                if !syndrome.is_translate_fault() {
                    Err(VcpuError::Unsupported)
                } else if syndrome.is_write() {
                    Ok(
                        ExitReason::MmioWrite {
                            addr,
                            width,
                            data: ctx.spec_gpr(syndrome.access_reg() as int),
                        },
                    )
                } else {
                    Ok(
                        ExitReason::MmioRead {
                            addr,
                            width,
                            reg: syndrome.access_reg(),
                            reg_width,
                        },
                    )
                }
            },
            _ => Err(VcpuError::InvalidInput),
        },
    }
}

/// A synchronous trap that the engine cannot go on from: a fatal data abort,
/// or an exception class other than a data abort from a lower level and a
/// hypervisor call.
pub open spec fn spec_sync_is_fatal(syndrome: Syndrome) -> bool {
    match syndrome.class() {
        Some(ExceptionClass::DataAbortLowerEL) => spec_data_abort_is_fatal(syndrome),
        Some(ExceptionClass::HVC64) => false,
        _ => true,
    }
}

/// The frame after the decode of a synchronous trap that is not fatal.
pub open spec fn sync_frame(ctx: TrapFrame, syndrome: Syndrome) -> TrapFrame {
    if syndrome.class() == Some(ExceptionClass::DataAbortLowerEL) {
        data_abort_frame(ctx, syndrome)
    } else {
        ctx
    }
}

/// What the decode of a synchronous trap that is not fatal gives.
pub open spec fn sync_exit(ctx: TrapFrame, syndrome: Syndrome) -> Result<ExitReason, VcpuError> {
    if syndrome.class() == Some(ExceptionClass::DataAbortLowerEL) {
        data_abort_exit(ctx, syndrome)
    } else {
        hvc_exit(ctx)
    }
}

/// Whether a data abort with this syndrome is fatal.
pub fn data_abort_is_fatal(syndrome: &Syndrome) -> (fatal: bool)
    ensures
        fatal == spec_data_abort_is_fatal(*syndrome),
{
    if exception_fault_addr(syndrome).is_err() {
        return false;
    }
    if !exception_data_abort_handleable(syndrome) {
        return true;
    }
    !exception_data_abort_is_translate_fault(syndrome)
        && !exception_data_abort_is_permission_fault(syndrome)
}

/// Whether a synchronous trap with this syndrome is fatal.
pub fn sync_is_fatal(syndrome: &Syndrome) -> (fatal: bool)
    ensures
        fatal == spec_sync_is_fatal(*syndrome),
{
    match exception_class(syndrome) {
        Some(ExceptionClass::DataAbortLowerEL) => data_abort_is_fatal(syndrome),
        Some(ExceptionClass::HVC64) => false,
        _ => true,
    }
}

/// Whether the exception return address of `ctx` can be moved past the
/// trapped instruction.
pub fn can_step_over(ctx: &TrapFrame, syndrome: &Syndrome) -> (fits: bool)
    ensures
        fits == spec_can_step_over(*ctx, *syndrome),
{
    let step: u64 = exception_next_instruction_step(syndrome);
    ctx.elr <= u64::MAX - step
}

/// Handles an interrupt request that arrived while the guest ran. The frame
/// is left as it is.
pub fn handle_exception_irq(ctx: &mut TrapFrame) -> (exit: Result<ExitReason, VcpuError>)
    ensures
        exit == Ok::<ExitReason, VcpuError>(ExitReason::ExternalInterrupt { vector: IRQ_VECTOR }),
        *final(ctx) == *old(ctx),
{
    Ok(ExitReason::ExternalInterrupt { vector: IRQ_VECTOR })
}

/// Handles a hypervisor call as a PSCI call, where x0 holds a PSCI function
/// identifier. Returns `None` where it holds none. The frame is left as it
/// is.
pub fn handle_psci_call(ctx: &mut TrapFrame) -> (exit: Option<Result<ExitReason, VcpuError>>)
    ensures
        exit == psci_exit(old(ctx).gpr@[0]),
        *final(ctx) == *old(ctx),
{
    let fn_id: u64 = ctx.gpr[0];
    let fn_offset: Option<u64> = if PSCI_FN_RANGE_32_START <= fn_id && fn_id
        <= PSCI_FN_RANGE_32_END {
        Some(fn_id - PSCI_FN_RANGE_32_START)
    } else if PSCI_FN_RANGE_64_START <= fn_id && fn_id <= PSCI_FN_RANGE_64_END {
        Some(fn_id - PSCI_FN_RANGE_64_START)
    } else {
        None
    };
    match fn_offset {
        Some(offset) => {
            if offset == PSCI_FN_SYSTEM_OFF {
                Some(Ok(ExitReason::SystemDown))
            } else {
                Some(Err(VcpuError::Unsupported))
            }
        },
        None => None,
    }
}

/// Handles a data abort taken from the guest.
///
/// Where the fault address is not known the error comes back and the frame
/// is left as it is. Otherwise the exception return address is moved past
/// the trapped instruction, and the access comes back as a memory-mapped
/// read or write; a permission fault comes back as `Unsupported`.
pub fn handle_data_abort(context_frame: &mut TrapFrame, syndrome: &Syndrome) -> (exit: Result<
    ExitReason,
    VcpuError,
>)
    requires
        !spec_data_abort_is_fatal(*syndrome),
        syndrome.fault_addr() is Ok ==> spec_can_step_over(*old(context_frame), *syndrome),
    ensures
        exit == data_abort_exit(*old(context_frame), *syndrome),
        *final(context_frame) == data_abort_frame(*old(context_frame), *syndrome),
        exit != Err::<ExitReason, VcpuError>(VcpuError::InvalidInput),
        exit is Ok ==> final(context_frame).elr == old(context_frame).elr
            + syndrome.next_instruction_step(),
        syndrome.is_stage2_abort() && syndrome.isv() && syndrome.is_translate_fault()
            ==> match exit {
            Ok(ExitReason::MmioRead { addr, width, reg, reg_width }) => {
                &&& !syndrome.is_write()
                &&& addr == syndrome.fault_ipa()
                &&& width.spec_size() == syndrome.access_width()
                &&& (width.spec_size() == 1 || width.spec_size() == 2 || width.spec_size() == 4
                    || width.spec_size() == 8)
                &&& reg == syndrome.access_reg()
                &&& reg <= 31
                &&& reg_width.spec_size() == syndrome.access_reg_width()
                &&& (reg_width.spec_size() == 4 || reg_width.spec_size() == 8)
            },
            Ok(ExitReason::MmioWrite { addr, width, data }) => {
                &&& syndrome.is_write()
                &&& addr == syndrome.fault_ipa()
                &&& width.spec_size() == syndrome.access_width()
                &&& (width.spec_size() == 1 || width.spec_size() == 2 || width.spec_size() == 4
                    || width.spec_size() == 8)
                &&& data == old(context_frame).spec_gpr(syndrome.access_reg() as int)
            },
            _ => false,
        },
{
    let addr: u64 = match exception_fault_addr(syndrome) {
        Ok(addr) => addr,
        Err(e) => {
            return Err(e);
        },
    };
    let access_width: usize = exception_data_abort_access_width(syndrome);
    let is_write: bool = exception_data_abort_access_is_write(syndrome);
    let reg: usize = exception_data_abort_access_reg(syndrome);
    let reg_width: usize = exception_data_abort_access_reg_width(syndrome);

    let elr: u64 = context_frame.exception_pc();
    let val: u64 = elr + exception_next_instruction_step(syndrome);
    context_frame.set_exception_pc(val);

    let width: AccessWidth = match AccessWidth::try_from(access_width) {
        Ok(width) => width,
        Err(_) => {
            return Err(VcpuError::InvalidInput);
        },
    };
    let reg_width: AccessWidth = match AccessWidth::try_from(reg_width) {
        Ok(reg_width) => reg_width,
        Err(_) => {
            return Err(VcpuError::InvalidInput);
        },
    };

    if !exception_data_abort_is_translate_fault(syndrome) {
        return Err(VcpuError::Unsupported);
    }
    if is_write {
        return Ok(ExitReason::MmioWrite { addr, width, data: context_frame.gpr(reg) });
    }
    Ok(ExitReason::MmioRead { addr, width, reg, reg_width })
}

/// Handles a synchronous exception taken from the guest: a data abort is
/// decoded into a memory-mapped access, a hypervisor call into a PSCI result
/// or a generic hypercall.
pub fn handle_exception_sync(ctx: &mut TrapFrame, syndrome: &Syndrome) -> (exit: Result<
    ExitReason,
    VcpuError,
>)
    requires
        !spec_sync_is_fatal(*syndrome),
        syndrome.class() == Some(ExceptionClass::DataAbortLowerEL) ==> spec_can_step_over(
            *old(ctx),
            *syndrome,
        ),
    ensures
        exit == sync_exit(*old(ctx), *syndrome),
        *final(ctx) == sync_frame(*old(ctx), *syndrome),
        syndrome.class() == Some(ExceptionClass::HVC64) && psci_fn_offset(old(ctx).gpr@[0])
            is None ==> {
            &&& exit matches Ok(ExitReason::Hypercall { nr, args })
            &&& nr == old(ctx).gpr@[0]
            &&& forall|i: int| 0 <= i < 6 ==> args@[i] == old(ctx).gpr@[i + 1]
        },
        syndrome.class() == Some(ExceptionClass::HVC64) && psci_fn_offset(old(ctx).gpr@[0])
            is Some ==> {
            &&& exit == Ok::<ExitReason, VcpuError>(ExitReason::SystemDown) || exit == Err::<
                ExitReason,
                VcpuError,
            >(VcpuError::Unsupported)
            &&& !(exit matches Ok(ExitReason::Hypercall { .. }))
            &&& exit is Ok <==> psci_fn_offset(old(ctx).gpr@[0]) == Some(PSCI_FN_SYSTEM_OFF)
        },
{
    match exception_class(syndrome) {
        Some(ExceptionClass::DataAbortLowerEL) => handle_data_abort(ctx, syndrome),
        _ => {
            if let Some(result) = handle_psci_call(ctx) {
                return result;
            }
            Ok(
                ExitReason::Hypercall {
                    nr: ctx.gpr[0],
                    args: [ctx.gpr[1], ctx.gpr[2], ctx.gpr[3], ctx.gpr[4], ctx.gpr[5], ctx.gpr[6]],
                },
            )
        },
    }
}

} // verus!
