//! Field layouts of the system registers, taken from the `aarch64_cpu`
//! register definitions.
//!
//! Each function here is a thin call into `aarch64_cpu` and `tock_registers`
//! on a plain value. None of them touches a hardware register. Their
//! contracts are not proved: they restate what the register definitions of
//! `aarch64_cpu` and the field arithmetic of `tock_registers` compute.

use aarch64_cpu::registers::{CNTHCTL_EL2, ESR_EL2, HCR_EL2, SPSR_EL1, VTCR_EL2};
use vstd::prelude::*;

verus! {

/// The exception-class field of a syndrome value: bits 31 to 26.
pub open spec fn esr_ec(esr: u64) -> u64 {
    (esr / 0x400_0000) % 0x40
}

/// The instruction-specific syndrome of a syndrome value: bits 24 to 0.
pub open spec fn esr_iss(esr: u64) -> u64 {
    esr % 0x200_0000
}

/// Whether `ec` is one of the exception classes to which `aarch64_cpu` gives
/// a name.
pub open spec fn is_named_exception_class(ec: u64) -> bool {
    ||| ec == 0x00
    ||| ec == 0x01
    ||| 0x03 <= ec <= 0x07
    ||| 0x0c <= ec <= 0x0e
    ||| ec == 0x11
    ||| 0x15 <= ec <= 0x19
    ||| ec == 0x1c
    ||| 0x20 <= ec <= 0x22
    ||| 0x24 <= ec <= 0x26
    ||| ec == 0x28
    ||| ec == 0x2c
    ||| ec == 0x2f
    ||| 0x30 <= ec <= 0x35
    ||| ec == 0x38
    ||| ec == 0x3c
}

/// The exception class of a syndrome value, if it is a named one.
pub open spec fn esr_named_ec(esr: u64) -> Option<u64> {
    if is_named_exception_class(esr_ec(esr)) {
        Some(esr_ec(esr))
    } else {
        None
    }
}

/// The value that `modify` gives a counter-timer control register whose two
/// low bits, EL1PCTEN and EL1PCEN, are set and whose other bits are kept.
pub open spec fn cnthctl_with_el1_access(current: u64) -> u64 {
    (current - current % 4 + 3) as u64
}

/// HCR_EL2 with the virtualization bit, bit 0, set and every other bit as
/// in `current`.
pub open spec fn hcr_with_vm_set(current: u64) -> u64 {
    (current - current % 2 + 1) as u64
}

/// HCR_EL2 with the virtualization bit, bit 0, clear and every other bit as
/// in `current`.
pub open spec fn hcr_with_vm_clear(current: u64) -> u64 {
    (current - current % 2) as u64
}

/// The stage-2 translation control value for a 40-bit physical address
/// space, a 4 KiB granule and inner-shareable write-back read-allocate
/// write-allocate walks, with the given start level and region size fields.
pub open spec fn vtcr_el2_value(sl0: u64, t0sz: u64) -> u64 {
    (0x2_3500 + (sl0 % 4) * 0x40 + t0sz % 0x40) as u64
}

/// Calls `Field::read` of `tock_registers` on the field `ESR_EL2::EC` of
/// `aarch64_cpu`. The field is six bits wide at offset 26, and `read` masks
/// the field out of `esr` and shifts it down to bit 0.
#[verifier::external_body]
pub(crate) fn read_esr_ec(esr: u64) -> (ec: u64)
    ensures
        ec == esr_ec(esr),
{
    ESR_EL2::EC.read(esr)
}

/// Calls `Field::read` of `tock_registers` on the field `ESR_EL2::ISS` of
/// `aarch64_cpu`. The field is 25 bits wide at offset 0, and `read` masks
/// the field out of `esr`.
#[verifier::external_body]
pub(crate) fn read_esr_iss(esr: u64) -> (iss: u64)
    ensures
        iss == esr_iss(esr),
{
    ESR_EL2::ISS.read(esr)
}

/// Calls `Field::read_as_enum` of `tock_registers` on the field
/// `ESR_EL2::EC` of `aarch64_cpu`. It reads the field as `read` does and
/// gives the variant of `ESR_EL2::EC::Value` that has this number, or
/// nothing where the register definition lists none; the numbers it lists
/// are those of [`is_named_exception_class`]. The variant is handed back as
/// its number.
#[verifier::external_body]
pub(crate) fn read_esr_named_ec(esr: u64) -> (ec: Option<u64>)
    ensures
        ec == esr_named_ec(esr),
{
    match ESR_EL2::EC.read_as_enum::<ESR_EL2::EC::Value>(esr) {
        Some(class) => Some(class as u64),
        None => None,
    }
}

/// Adds the `SPSR_EL1` field values `M::EL1h`, `I::Masked`, `F::Masked`,
/// `A::Masked` and `D::Masked` of `aarch64_cpu` with `FieldValue::add` of
/// `tock_registers`, which is the bitwise or of the values: the mode field
/// in bits 3 to 0 holds 0b0101, and bits 6, 7, 8 and 9 are set.
#[verifier::external_body]
pub(crate) fn spsr_el1h_masked() -> (spsr: u64)
    ensures
        spsr == 0x3c5,
{
    (SPSR_EL1::M::EL1h
        + SPSR_EL1::I::Masked
        + SPSR_EL1::F::Masked
        + SPSR_EL1::A::Masked
        + SPSR_EL1::D::Masked)
        .value
}

/// Adds the `VTCR_EL2` field values `PS::PA_40B_1TB` (0b010 at bit 16),
/// `TG0::Granule4KB` (0b00 at bit 14), `SH0::Inner` (0b11 at bit 12),
/// `ORGN0::NormalWBRAWA` (0b01 at bit 10), `IRGN0::NormalWBRAWA` (0b01 at
/// bit 8), `SL0.val(sl0)` (at bit 6) and `T0SZ.val(t0sz)` (at bit 0) of
/// `aarch64_cpu` with `FieldValue::add` of `tock_registers`. `Field::val`
/// keeps the low two bits of `sl0` and the low six bits of `t0sz`.
#[verifier::external_body]
pub(crate) fn vtcr_el2_stage2(sl0: u64, t0sz: u64) -> (vtcr: u64)
    ensures
        vtcr == vtcr_el2_value(sl0, t0sz),
{
    (VTCR_EL2::PS::PA_40B_1TB
        + VTCR_EL2::TG0::Granule4KB
        + VTCR_EL2::SH0::Inner
        + VTCR_EL2::ORGN0::NormalWBRAWA
        + VTCR_EL2::IRGN0::NormalWBRAWA
        + VTCR_EL2::SL0.val(sl0)
        + VTCR_EL2::T0SZ.val(t0sz))
        .into()
}

/// Adds the `HCR_EL2` field values `VM::Enable` and `RW::EL1IsAarch64` of
/// `aarch64_cpu` with `FieldValue::add` of `tock_registers`: bits 0 and 31
/// are set.
#[verifier::external_body]
pub(crate) fn hcr_el2_guest() -> (hcr: u64)
    ensures
        hcr == 0x8000_0001,
{
    (HCR_EL2::VM::Enable + HCR_EL2::RW::EL1IsAarch64).into()
}

/// Calls `FieldValue::modify` of `tock_registers` on the `HCR_EL2` field
/// value `VM::Enable` of `aarch64_cpu`. The field is one bit wide at offset
/// 0: in `current`, bit 0 is set and the other bits are kept.
#[verifier::external_body]
pub(crate) fn hcr_el2_vm_enable(current: u64) -> (hcr: u64)
    ensures
        hcr == hcr_with_vm_set(current),
{
    HCR_EL2::VM::Enable.modify(current)
}

/// Calls `FieldValue::modify` of `tock_registers` on the `HCR_EL2` field
/// value `VM::Disable` of `aarch64_cpu`. The field is one bit wide at offset
/// 0: in `current`, bit 0 is cleared and the other bits are kept.
#[verifier::external_body]
pub(crate) fn hcr_el2_vm_disable(current: u64) -> (hcr: u64)
    ensures
        hcr == hcr_with_vm_clear(current),
{
    HCR_EL2::VM::Disable.modify(current)
}

/// Calls `FieldValue::modify` of `tock_registers` on the sum of the
/// `CNTHCTL_EL2` field values `EL1PCEN::SET` and `EL1PCTEN::SET` of
/// `aarch64_cpu`: in `current`, bits 1 and 0 are set and the other bits are
/// kept.
#[verifier::external_body]
pub(crate) fn cnthctl_el2_el1_access(current: u64) -> (cnthctl: u64)
    ensures
        cnthctl == cnthctl_with_el1_access(current),
{
    (CNTHCTL_EL2::EL1PCEN::SET + CNTHCTL_EL2::EL1PCTEN::SET).modify(current)
}

} // verus!
