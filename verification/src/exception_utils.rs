//! Decode of the fault registers that describe a synchronous trap.
//!
//! The fault registers are taken as a [`Syndrome`] value. Each function reads
//! one field of it; the specification of a field is stated as arithmetic on
//! the register value, the code extracts it with shifts and masks.

use crate::error::VcpuError;
use crate::registers::{
    esr_ec, esr_iss, esr_named_ec, is_named_exception_class, read_esr_ec, read_esr_iss,
    read_esr_named_ec,
};
use vstd::prelude::*;

verus! {

/// Exception class of a hypervisor call from AArch64.
pub const EC_HVC64: u64 = 0x16;

/// Exception class of an instruction abort from a lower exception level.
pub const EC_INSTR_ABORT_LOWER_EL: u64 = 0x20;

/// Exception class of a data abort from a lower exception level.
pub const EC_DATA_ABORT_LOWER_EL: u64 = 0x24;

/// The values of ESR_EL2, FAR_EL2 and HPFAR_EL2 at a synchronous trap.
#[derive(Clone, Copy, Debug, PartialEq, Eq, Structural)]
pub struct Syndrome {
    /// Exception syndrome register.
    pub esr: u64,
    /// Faulting virtual address.
    pub far: u64,
    /// Faulting intermediate-physical address, as the hardware reports it.
    pub hpfar: u64,
}

/// The cause of a synchronous trap, as far as the engine tells causes apart.
#[derive(Clone, Copy, Debug, PartialEq, Eq, Structural)]
pub enum ExceptionClass {
    /// Hypervisor call from AArch64.
    HVC64,
    /// Instruction abort from a lower exception level.
    InstrAbortLowerEL,
    /// Data abort from a lower exception level.
    DataAbortLowerEL,
    /// Another named class, with its number.
    Other(u64),
}

impl ExceptionClass {
    /// The class with the given number.
    pub open spec fn of_code(ec: u64) -> ExceptionClass {
        if ec == EC_HVC64 {
            ExceptionClass::HVC64
        } else if ec == EC_INSTR_ABORT_LOWER_EL {
            ExceptionClass::InstrAbortLowerEL
        } else if ec == EC_DATA_ABORT_LOWER_EL {
            ExceptionClass::DataAbortLowerEL
        } else {
            ExceptionClass::Other(ec)
        }
    }
}

impl Syndrome {
    /// The number in the exception-class field, bits 31 to 26 of ESR_EL2.
    pub open spec fn class_value(self) -> u64 {
        esr_ec(self.esr)
    }

    /// The exception class, where the field holds a named one.
    pub open spec fn class(self) -> Option<ExceptionClass> {
        match esr_named_ec(self.esr) {
            Some(ec) => Some(ExceptionClass::of_code(ec)),
            None => None,
        }
    }

    /// The instruction-specific syndrome, bits 24 to 0 of ESR_EL2.
    pub open spec fn iss(self) -> u64 {
        esr_iss(self.esr)
    }

    /// Whether the trap is an abort taken from a lower exception level, for
    /// which the hardware reports the faulting intermediate-physical address.
    pub open spec fn is_stage2_abort(self) -> bool {
        self.class_value() == EC_DATA_ABORT_LOWER_EL || self.class_value()
            == EC_INSTR_ABORT_LOWER_EL
    }

    /// The faulting intermediate-physical address: bits 39 to 4 of HPFAR_EL2
    /// give its bits 47 to 12, bits 11 to 0 of FAR_EL2 its offset in the page.
    pub open spec fn fault_ipa(self) -> u64 {
        (((self.hpfar / 0x10) % 0x10_0000_0000) * 0x1000 + self.far % 0x1000) as u64
    }

    /// The faulting address, or `BadState` outside a stage-2 abort.
    pub open spec fn fault_addr(self) -> Result<u64, VcpuError> {
        if self.is_stage2_abort() {
            Ok(self.fault_ipa())
        } else {
            Err(VcpuError::BadState)
        }
    }

    /// Bit 25 of ESR_EL2: the trapped instruction is 32 bits long.
    pub open spec fn il(self) -> bool {
        (self.esr / 0x200_0000) % 2 == 1
    }

    /// The length in bytes of the trapped instruction.
    pub open spec fn next_instruction_step(self) -> u64 {
        if self.il() {
            4
        } else {
            2
        }
    }

    /// Bit 24 of the syndrome: the access is described by the fields below.
    pub open spec fn isv(self) -> bool {
        (self.iss() / 0x100_0000) % 2 == 1
    }

    /// Bits 23 to 22 of the syndrome: the size of the access, as a power of
    /// two.
    pub open spec fn sas(self) -> u64 {
        (self.iss() / 0x40_0000) % 4
    }

    /// The number of bytes that the access moves.
    pub open spec fn access_width(self) -> usize {
        if self.sas() == 0 {
            1
        } else if self.sas() == 1 {
            2
        } else if self.sas() == 2 {
            4
        } else {
            8
        }
    }

    /// Bits 20 to 16 of the syndrome: the register that the access moves.
    pub open spec fn access_reg(self) -> usize {
        ((self.iss() / 0x1_0000) % 32) as usize
    }

    /// Bit 15 of the syndrome: the register is used with 64 bits.
    pub open spec fn sf(self) -> bool {
        (self.iss() / 0x8000) % 2 == 1
    }

    /// The number of bytes of the register that the access uses.
    pub open spec fn access_reg_width(self) -> usize {
        if self.sf() {
            8
        } else {
            4
        }
    }

    /// Bit 6 of the syndrome: the access is a write.
    pub open spec fn is_write(self) -> bool {
        (self.iss() / 0x40) % 2 == 1
    }

    /// Bits 5 to 0 of the syndrome: the fault status code.
    pub open spec fn dfsc(self) -> u64 {
        self.iss() % 0x40
    }

    /// The fault status code names a translation fault, at any level.
    pub open spec fn is_translate_fault(self) -> bool {
        self.dfsc() / 4 == 1
    }

    /// The fault status code names a permission fault, at any level.
    pub open spec fn is_permission_fault(self) -> bool {
        self.dfsc() / 4 == 3
    }
}

/// The raw syndrome register.
pub fn exception_esr(syndrome: &Syndrome) -> (esr: u64)
    ensures
        esr == syndrome.esr,
{
    syndrome.esr
}

/// The number in the exception-class field.
pub fn exception_class_value(syndrome: &Syndrome) -> (ec: u64)
    ensures
        ec == syndrome.class_value(),
        ec < 0x40,
{
    read_esr_ec(syndrome.esr)
}

/// The exception class, or `None` where the field holds no named class.
pub fn exception_class(syndrome: &Syndrome) -> (class: Option<ExceptionClass>)
    ensures
        class == syndrome.class(),
        class is Some <==> is_named_exception_class(syndrome.class_value()),
{
    match read_esr_named_ec(syndrome.esr) {
        Some(ec) => {
            if ec == EC_HVC64 {
                Some(ExceptionClass::HVC64)
            } else if ec == EC_INSTR_ABORT_LOWER_EL {
                Some(ExceptionClass::InstrAbortLowerEL)
            } else if ec == EC_DATA_ABORT_LOWER_EL {
                Some(ExceptionClass::DataAbortLowerEL)
            } else {
                Some(ExceptionClass::Other(ec))
            }
        },
        None => None,
    }
}

/// The instruction-specific syndrome.
pub fn exception_iss(syndrome: &Syndrome) -> (iss: u64)
    ensures
        iss == syndrome.iss(),
        iss < 0x200_0000,
{
    read_esr_iss(syndrome.esr)
}

/// The guest intermediate-physical address of the fault.
///
/// Fails with `BadState` when the trap is not an abort from a lower
/// exception level.
pub fn exception_fault_addr(syndrome: &Syndrome) -> (addr: Result<u64, VcpuError>)
    ensures
        addr == syndrome.fault_addr(),
        addr matches Ok(ipa) ==> ipa < 0x1_0000_0000_0000,
{
    let ec: u64 = read_esr_ec(syndrome.esr);
    if ec != EC_DATA_ABORT_LOWER_EL && ec != EC_INSTR_ABORT_LOWER_EL {
        return Err(VcpuError::BadState);
    }
    let far: u64 = syndrome.far;
    let hpfar: u64 = syndrome.hpfar;
    let ipa: u64 = ((hpfar & 0xff_ffff_fff0) << 8) | (far & 0xfff);
    assert(ipa == ((hpfar / 0x10) % 0x10_0000_0000) * 0x1000 + far % 0x1000
        && ipa < 0x1_0000_0000_0000) by (bit_vector)
        requires
            ipa == ((hpfar & 0xff_ffff_fff0) << 8) | (far & 0xfff),
    ;
    Ok(ipa)
}

/// The number of bytes to add to the exception return address to step over
/// the trapped instruction: 4 for a 32-bit instruction, 2 for a 16-bit one.
pub fn exception_next_instruction_step(syndrome: &Syndrome) -> (step: u64)
    ensures
        step == syndrome.next_instruction_step(),
        step == 2 || step == 4,
{
    let esr: u64 = syndrome.esr;
    let il: u64 = (esr >> 25) & 1;
    assert(il == (esr / 0x200_0000) % 2) by (bit_vector)
        requires
            il == (esr >> 25) & 1,
    ;
    2 + 2 * il
}

/// The number of bytes that the aborted access moves: 1, 2, 4 or 8.
pub fn exception_data_abort_access_width(syndrome: &Syndrome) -> (width: usize)
    ensures
        width == syndrome.access_width(),
        width == 1 || width == 2 || width == 4 || width == 8,
{
    let iss: u64 = exception_iss(syndrome);
    let sas: u64 = (iss >> 22) & 0b11;
    assert(sas == (iss / 0x40_0000) % 4 && sas < 4) by (bit_vector)
        requires
            sas == (iss >> 22) & 0b11,
    ;
    let width: u64 = 1u64 << sas;
    assert((sas == 0 ==> width == 1) && (sas == 1 ==> width == 2) && (sas == 2 ==> width == 4)
        && (sas == 3 ==> width == 8)) by (bit_vector)
        requires
            width == 1u64 << sas,
    ;
    width as usize
}

/// Whether the syndrome describes the aborted access (ISV is set), so that
/// the access can be emulated.
pub fn exception_data_abort_handleable(syndrome: &Syndrome) -> (handleable: bool)
    ensures
        handleable == syndrome.isv(),
{
    let iss: u64 = exception_iss(syndrome);
    let isv: u64 = iss & (1u64 << 24);
    assert((isv != 0) == ((iss / 0x100_0000) % 2 == 1)) by (bit_vector)
        requires
            isv == iss & (1u64 << 24),
    ;
    isv != 0
}

/// Whether the abort is a translation fault.
pub fn exception_data_abort_is_translate_fault(syndrome: &Syndrome) -> (translate: bool)
    ensures
        translate == syndrome.is_translate_fault(),
{
    let iss: u64 = exception_iss(syndrome);
    let status: u64 = iss & 0b111111 & (0xfu64 << 2);
    assert((status == 4) == ((iss % 0x40) / 4 == 1)) by (bit_vector)
        requires
            status == iss & 0b111111 & (0xfu64 << 2),
    ;
    status == 4
}

/// Whether the abort is a permission fault.
pub fn exception_data_abort_is_permission_fault(syndrome: &Syndrome) -> (permission: bool)
    ensures
        permission == syndrome.is_permission_fault(),
{
    let iss: u64 = exception_iss(syndrome);
    let status: u64 = iss & 0b111111 & (0xfu64 << 2);
    assert((status == 12) == ((iss % 0x40) / 4 == 3)) by (bit_vector)
        requires
            status == iss & 0b111111 & (0xfu64 << 2),
    ;
    status == 12
}

/// Whether the aborted access is a write.
pub fn exception_data_abort_access_is_write(syndrome: &Syndrome) -> (write: bool)
    ensures
        write == syndrome.is_write(),
{
    let iss: u64 = exception_iss(syndrome);
    let wnr: u64 = iss & (1u64 << 6);
    assert((wnr != 0) == ((iss / 0x40) % 2 == 1)) by (bit_vector)
        requires
            wnr == iss & (1u64 << 6),
    ;
    wnr != 0
}

/// The index of the register that the aborted access moves: 0 to 31.
pub fn exception_data_abort_access_reg(syndrome: &Syndrome) -> (reg: usize)
    ensures
        reg == syndrome.access_reg(),
        reg <= 31,
{
    let iss: u64 = exception_iss(syndrome);
    let srt: u64 = (iss >> 16) & 0b11111;
    assert(srt == (iss / 0x1_0000) % 32 && srt <= 31) by (bit_vector)
        requires
            srt == (iss >> 16) & 0b11111,
    ;
    srt as usize
}

/// The number of bytes of the register that the aborted access uses: 4 or 8.
pub fn exception_data_abort_access_reg_width(syndrome: &Syndrome) -> (width: usize)
    ensures
        width == syndrome.access_reg_width(),
        width == 4 || width == 8,
{
    let iss: u64 = exception_iss(syndrome);
    let sf: u64 = (iss >> 15) & 1;
    assert(sf == (iss / 0x8000) % 2 && sf <= 1) by (bit_vector)
        requires
            sf == (iss >> 15) & 1,
    ;
    (4 + 4 * sf) as usize
}

} // verus!
