//! Decode of a data abort that does not look at the kind of fault.

use crate::context_frame::TrapFrame;
use crate::error::VcpuError;
use crate::exception::{spec_can_step_over, AccessWidth, ExitReason};
use crate::exception_utils::{
    exception_data_abort_access_is_write, exception_data_abort_access_reg,
    exception_data_abort_access_reg_width, exception_data_abort_access_width,
    exception_fault_addr, exception_next_instruction_step, Syndrome,
};
use vstd::prelude::*;

verus! {

/// The frame after [`data_abort_handler`]: where the fault address is known
/// the exception return address is moved past the trapped instruction.
pub open spec fn data_abort_handler_frame(ctx: TrapFrame, syndrome: Syndrome) -> TrapFrame {
    if syndrome.fault_addr() is Ok {
        TrapFrame { elr: (ctx.elr + syndrome.next_instruction_step()) as u64, ..ctx }
    } else {
        ctx
    }
}

/// What [`data_abort_handler`] gives: the access that the syndrome
/// describes, whatever the fault status.
pub open spec fn data_abort_handler_exit(ctx: TrapFrame, syndrome: Syndrome) -> Result<
    ExitReason,
    VcpuError,
> {
    match syndrome.fault_addr() {
        Err(e) => Err(e),
        Ok(addr) => match (
            AccessWidth::spec_try_from(syndrome.access_width()),
            AccessWidth::spec_try_from(syndrome.access_reg_width()),
        ) {
            (Ok(width), Ok(reg_width)) => {
                if syndrome.is_write() {
                    Ok(
                        ExitReason::MmioWrite {
                            addr,
                            width,
                            data: ctx.spec_gpr(syndrome.access_reg() as int),
                        },
                    )
                } else {
                    Ok(
                        ExitReason::MmioRead {
                            addr,
                            width,
                            reg: syndrome.access_reg(),
                            reg_width,
                        },
                    )
                }
            },
            _ => Err(VcpuError::InvalidInput),
        },
    }
}

/// Handles a data abort as a memory-mapped access without a look at the
/// fault status or at the validity of the syndrome.
///
/// Where the fault address is not known the error comes back and the frame
/// is left as it is. Otherwise the exception return address is moved past
/// the trapped instruction and the access comes back as a read or a write.
pub fn data_abort_handler(context_frame: &mut TrapFrame, syndrome: &Syndrome) -> (exit: Result<
    ExitReason,
    VcpuError,
>)
    requires
        syndrome.fault_addr() is Ok ==> spec_can_step_over(*old(context_frame), *syndrome),
    ensures
        exit == data_abort_handler_exit(*old(context_frame), *syndrome),
        *final(context_frame) == data_abort_handler_frame(*old(context_frame), *syndrome),
        exit is Ok <==> syndrome.is_stage2_abort(),
        exit is Err ==> exit == Err::<ExitReason, VcpuError>(VcpuError::BadState),
{
    let address: u64 = match exception_fault_addr(syndrome) {
        Ok(address) => address,
        Err(e) => {
            return Err(e);
        },
    };
    let width: usize = exception_data_abort_access_width(syndrome);
    let is_write: bool = exception_data_abort_access_is_write(syndrome);
    let reg: usize = exception_data_abort_access_reg(syndrome);
    let reg_width: usize = exception_data_abort_access_reg_width(syndrome);

    let elr: u64 = context_frame.exception_pc();
    let val: u64 = elr + exception_next_instruction_step(syndrome);
    context_frame.set_exception_pc(val);

    let access_width: AccessWidth = match AccessWidth::try_from(width) {
        Ok(width) => width,
        Err(_) => {
            return Err(VcpuError::InvalidInput);
        },
    };
    let reg_width: AccessWidth = match AccessWidth::try_from(reg_width) {
        Ok(reg_width) => reg_width,
        Err(_) => {
            return Err(VcpuError::InvalidInput);
        },
    };

    if is_write {
        return Ok(
            ExitReason::MmioWrite {
                addr: address,
                width: access_width,
                data: context_frame.gpr(reg),
            },
        );
    }
    Ok(ExitReason::MmioRead { addr: address, width: access_width, reg, reg_width })
}

} // verus!
