use arm_vcpu::context_frame::{GuestSystemRegisters, TrapFrame};
use arm_vcpu::error::VcpuError;
use arm_vcpu::exception::{AccessWidth, ExitReason, TrapKind};
use arm_vcpu::exception_utils::Syndrome;
use arm_vcpu::hardware::PhysicalCpu;
use arm_vcpu::{do_register_lower_aarch64_irq_handler, has_hardware_support};
use arm_vcpu::pcpu::Aarch64PerCpu;
use arm_vcpu::vcpu::{
    exit_is_fatal, restore_host_sp_el0, save_host_sp_el0, Aarch64VCpu, Aarch64VCpuCreateConfig,
    RunState, VmCpuRegisters, HOST_STACK_TOP_OFFSET,
};

fn host_cpu() -> PhysicalCpu {
    let mut sys = GuestSystemRegisters::new();
    sys.sp_el0 = 0xffff_0000_1234_0000;
    sys.hcr_el2 = 1;
    sys.sctlr_el1 = 0x1111;
    PhysicalCpu { sys, vbar_el2: 0x4020_0800, cptr_el2: 0x33ff, cnthctl_el2: 0x100, host_sp_el0: 0 }
}

fn new_vcpu(mpidr_el1: u64) -> Aarch64VCpu {
    Aarch64VCpu::new(Aarch64VCpuCreateConfig { mpidr_el1 }).unwrap()
}

fn ready_vcpu() -> (Aarch64VCpu, PhysicalCpu) {
    let mut cpu = host_cpu();
    let mut vcpu = new_vcpu(1);
    vcpu.setup(&mut cpu).unwrap();
    vcpu.set_entry(0x4008_0000).unwrap();
    vcpu.set_ept_root(0x5000_0000).unwrap();
    (vcpu, cpu)
}

#[test]
fn hardware_support_is_reported() {
    assert!(has_hardware_support());
}

#[test]
fn new_vcpu_is_zero_and_ready() {
    let vcpu = new_vcpu(0x8000_0003);
    assert_eq!(*vcpu.ctx(), TrapFrame::new());
    assert_eq!(*vcpu.guest_system_regs(), GuestSystemRegisters::new());
    assert_eq!(vcpu.host_stack_top(), 0);
    assert_eq!(vcpu.mpidr(), 0x8000_0003);
    assert_eq!(vcpu.state(), RunState::Ready);
    assert_eq!(Aarch64VCpuCreateConfig::default().mpidr_el1, 0);
    let regs = VmCpuRegisters::default();
    assert_eq!(regs.trap_context_regs, TrapFrame::new());
    assert_eq!(regs.vm_system_regs, GuestSystemRegisters::new());
}

#[test]
fn setup_programs_the_guest() {
    let mut cpu = host_cpu();
    let before = cpu;
    let mut vcpu = new_vcpu(0x0000_0000_0000_0102);
    assert_eq!(vcpu.setup(&mut cpu), Ok(()));

    assert_eq!(vcpu.ctx().spsr, 0x3c5);
    assert_eq!(vcpu.ctx().elr, 0);
    assert_eq!(vcpu.ctx().sp_el0, 0);
    assert_eq!(vcpu.ctx().gpr, [0u64; 31]);

    let mut expected = GuestSystemRegisters::new();
    expected.sctlr_el1 = 0x30C5_0830;
    expected.vtcr_el2 = 0x2_3559;
    expected.hcr_el2 = 0x8000_0001;
    expected.vmpidr_el2 = 0x8000_0102;
    assert_eq!(*vcpu.guest_system_regs(), expected);
    assert_eq!(vcpu.guest_system_regs().cntvoff_el2, 0);

    assert_eq!(cpu.cnthctl_el2, 0x103);
    assert_eq!(cpu.sys, before.sys);
    assert_eq!(cpu.vbar_el2, before.vbar_el2);
    assert_eq!(cpu.cptr_el2, before.cptr_el2);
    assert_eq!(cpu.host_sp_el0, before.host_sp_el0);
    assert_eq!(vcpu.state(), RunState::Ready);
}

#[test]
fn setup_keeps_the_other_timer_control_bits() {
    for (before, after) in [(0u64, 3u64), (1, 3), (2, 3), (3, 3), (0xFFFF_FF00, 0xFFFF_FF03), (0x8, 0xb)]
    {
        let mut cpu = host_cpu();
        cpu.cnthctl_el2 = before;
        let mut vcpu = new_vcpu(0);
        vcpu.setup(&mut cpu).unwrap();
        assert_eq!(cpu.cnthctl_el2, after);
    }
}

#[test]
fn setup_sets_bit_31_of_the_virtual_mpidr() {
    for (mpidr, vmpidr) in [
        (0u64, 0x8000_0000u64),
        (3, 0x8000_0003),
        (0x8000_0000, 0x8000_0000),
        (0x8000_0101, 0x8000_0101),
        (0xFF_0000_0001, 0xFF_8000_0001),
    ] {
        let mut cpu = host_cpu();
        let mut vcpu = new_vcpu(mpidr);
        vcpu.setup(&mut cpu).unwrap();
        assert_eq!(vcpu.guest_system_regs().vmpidr_el2, vmpidr);
    }
}

#[test]
fn setup_overrides_programmed_registers_only() {
    let mut cpu = host_cpu();
    let mut vcpu = new_vcpu(0);
    vcpu.set_ept_root(0x7000_0000).unwrap();
    vcpu.set_entry(0x4008_0000).unwrap();
    vcpu.setup(&mut cpu).unwrap();
    assert_eq!(vcpu.guest_system_regs().vttbr_el2, 0x7000_0000);
    assert_eq!(vcpu.ctx().elr, 0x4008_0000);
    assert_eq!(vcpu.ctx().spsr, 0x3c5);
}

#[test]
fn entry_root_and_registers() {
    let mut vcpu = new_vcpu(0);
    assert_eq!(vcpu.set_entry(0x4008_0000), Ok(()));
    assert_eq!(vcpu.ctx().elr, 0x4008_0000);
    assert_eq!(vcpu.set_ept_root(0x5000_0000), Ok(()));
    assert_eq!(vcpu.guest_system_regs().vttbr_el2, 0x5000_0000);
    assert_eq!(vcpu.ctx().elr, 0x4008_0000);

    vcpu.set_gpr(0, 0xAB);
    vcpu.set_gpr(30, 0xCD);
    vcpu.set_gpr(31, 0xEF);
    vcpu.set_gpr(64, 0xEF);
    assert_eq!(vcpu.get_gpr(0), 0xAB);
    assert_eq!(vcpu.get_gpr(30), 0xCD);
    assert_eq!(vcpu.get_gpr(31), 0);
    assert_eq!(vcpu.get_gpr(64), 0);
    assert_eq!(vcpu.ctx().gpr[0], 0xAB);

    vcpu.set_elr(0x1234);
    assert_eq!(vcpu.ctx().elr, 0x1234);
    assert_eq!(vcpu.get_gpr(0), 0xAB);

    let before_ctx = *vcpu.ctx();
    let before_bank = *vcpu.guest_system_regs();
    assert_eq!(vcpu.bind(), Ok(()));
    assert_eq!(vcpu.unbind(), Ok(()));
    assert_eq!(*vcpu.ctx(), before_ctx);
    assert_eq!(*vcpu.guest_system_regs(), before_bank);


}

#[test]
fn image_prefix_holds_the_frame_and_the_host_stack_slot() {
    let mut vcpu = new_vcpu(5);
    vcpu.set_ept_root(0x5000_0000).unwrap();
    let mut words = [0u64; 35];
    for (i, w) in words.iter_mut().enumerate() {
        *w = 0x100 + i as u64;
    }
    vcpu.set_image_prefix(&words);
    assert_eq!(vcpu.image_prefix(), words);
    assert_eq!(vcpu.get_gpr(0), 0x100);
    assert_eq!(vcpu.get_gpr(30), 0x11e);
    assert_eq!(vcpu.ctx().sp_el0, 0x11f);
    assert_eq!(vcpu.ctx().elr, 0x120);
    assert_eq!(vcpu.ctx().spsr, 0x121);
    assert_eq!(vcpu.host_stack_top(), 0x122);
    assert_eq!(vcpu.image_prefix()[HOST_STACK_TOP_OFFSET / 8], vcpu.host_stack_top());
    assert_eq!(vcpu.image_prefix()[..34], vcpu.ctx().to_words()[..]);
    assert_eq!(vcpu.mpidr(), 5);
    assert_eq!(vcpu.guest_system_regs().vttbr_el2, 0x5000_0000);
    assert_eq!(vcpu.state(), RunState::Ready);

    vcpu.set_entry(0x4008_0000).unwrap();
    assert_eq!(vcpu.image_prefix()[32], 0x4008_0000);
    assert_eq!(vcpu.image_prefix()[34], 0x122);
}

#[test]
fn registration_of_the_irq_handler_succeeds() {
    assert_eq!(do_register_lower_aarch64_irq_handler(), Ok(()));
}

#[test]
fn host_sp_el0_is_parked_and_put_back() {
    let mut cpu = host_cpu();
    let host_sp = cpu.sys.sp_el0;
    save_host_sp_el0(&mut cpu);
    assert_eq!(cpu.host_sp_el0, host_sp);
    assert_eq!(cpu.sys.sp_el0, host_sp);
    cpu.sys.sp_el0 = 0x55;
    restore_host_sp_el0(&mut cpu);
    assert_eq!(cpu.sys.sp_el0, host_sp);
}

#[test]
fn begin_run_loads_the_guest_bank() {
    let (mut vcpu, mut cpu) = ready_vcpu();
    let before = cpu;
    let bank = *vcpu.guest_system_regs();
    vcpu.begin_run(&mut cpu);
    assert_eq!(vcpu.state(), RunState::Running);
    assert_eq!(cpu.sys, bank);
    assert_eq!(cpu.cptr_el2, 0);
    assert_eq!(cpu.host_sp_el0, before.sys.sp_el0);
    assert_eq!(cpu.vbar_el2, before.vbar_el2);
    assert_eq!(cpu.cnthctl_el2, before.cnthctl_el2);
    assert_eq!(*vcpu.guest_system_regs(), bank);
}

#[test]
fn restore_vm_system_regs_clears_the_trap_control() {
    let (vcpu, mut cpu) = ready_vcpu();
    let before = cpu;
    vcpu.restore_vm_system_regs(&mut cpu);
    assert_eq!(cpu.sys, *vcpu.guest_system_regs());
    assert_eq!(cpu.cptr_el2, 0);
    assert_eq!(cpu.host_sp_el0, before.host_sp_el0);
    assert_eq!(cpu.vbar_el2, before.vbar_el2);
}

#[test]
fn exit_captures_the_guest_bank_before_the_host_sp_el0_returns() {
    let (mut vcpu, mut cpu) = ready_vcpu();
    let host_sp = cpu.sys.sp_el0;
    vcpu.begin_run(&mut cpu);

    cpu.sys.sp_el0 = 0x0000_0000_dead_0000;
    cpu.sys.elr_el1 = 0x4242;
    cpu.sys.sctlr_el1 = 0x30C5_0831;
    let guest_bank = cpu.sys;
    vcpu.set_gpr(0, 42);
    vcpu.set_gpr(1, 7);
    let frame = *vcpu.ctx();

    let syndrome = Syndrome { esr: 0x16 << 26 | 1 << 25, far: 0, hpfar: 0 };
    assert!(!exit_is_fatal(TrapKind::Synchronous, &syndrome));
    let exit = vcpu.vmexit_handler(&mut cpu, TrapKind::Synchronous, &syndrome);
    assert_eq!(exit, Ok(ExitReason::Hypercall { nr: 42, args: [7, 0, 0, 0, 0, 0] }));

    assert_eq!(vcpu.state(), RunState::Ready);
    assert_eq!(*vcpu.guest_system_regs(), guest_bank);
    assert_eq!(vcpu.guest_system_regs().sp_el0, 0x0000_0000_dead_0000);
    assert_eq!(cpu.sys.sp_el0, host_sp);
    assert_eq!(cpu.sys.elr_el1, 0x4242);
    assert_eq!(*vcpu.ctx(), frame);
}

#[test]
fn exit_on_irq() {
    let (mut vcpu, mut cpu) = ready_vcpu();
    vcpu.begin_run(&mut cpu);
    let frame = *vcpu.ctx();
    let syndrome = Syndrome { esr: 0, far: 0, hpfar: 0 };
    assert!(!exit_is_fatal(TrapKind::Irq, &syndrome));
    let exit = vcpu.vmexit_handler(&mut cpu, TrapKind::Irq, &syndrome);
    assert_eq!(exit, Ok(ExitReason::ExternalInterrupt { vector: 33 }));
    assert_eq!(*vcpu.ctx(), frame);
    assert_eq!(vcpu.state(), RunState::Ready);
}

#[test]
fn exit_on_mmio_read_then_resume_with_the_value() {
    let (mut vcpu, mut cpu) = ready_vcpu();
    vcpu.begin_run(&mut cpu);
    let syndrome = Syndrome { esr: 0x93C3_8004, far: 0x0123_4008, hpfar: 0x0000_0000_0009_0000 };
    let exit = vcpu.vmexit_handler(&mut cpu, TrapKind::Synchronous, &syndrome);
    assert_eq!(
        exit,
        Ok(ExitReason::MmioRead {
            addr: 0x0900_0008,
            width: AccessWidth::Qword,
            reg: 3,
            reg_width: AccessWidth::Qword
        })
    );
    assert_eq!(vcpu.ctx().elr, 0x4008_0004);
    vcpu.set_gpr(3, 0x1122_3344);
    assert_eq!(vcpu.get_gpr(3), 0x1122_3344);

    let host_sp = cpu.sys.sp_el0;
    vcpu.begin_run(&mut cpu);
    assert_eq!(vcpu.state(), RunState::Running);
    assert_eq!(cpu.host_sp_el0, host_sp);
}

#[test]
fn exit_on_permission_fault_is_unsupported() {
    let (mut vcpu, mut cpu) = ready_vcpu();
    vcpu.begin_run(&mut cpu);
    let syndrome = Syndrome { esr: 0x9385_004D, far: 0, hpfar: 0 };
    assert!(!exit_is_fatal(TrapKind::Synchronous, &syndrome));
    let exit = vcpu.vmexit_handler(&mut cpu, TrapKind::Synchronous, &syndrome);
    assert_eq!(exit, Err(VcpuError::Unsupported));
    assert_eq!(vcpu.ctx().elr, 0x4008_0004);
    assert_eq!(vcpu.state(), RunState::Ready);
}

#[test]
fn fatal_exits() {
    let hvc = Syndrome { esr: 0x16 << 26, far: 0, hpfar: 0 };
    assert!(exit_is_fatal(TrapKind::Fiq, &hvc));
    assert!(exit_is_fatal(TrapKind::SError, &hvc));
    assert!(!exit_is_fatal(TrapKind::Irq, &hvc));
    assert!(!exit_is_fatal(TrapKind::Synchronous, &hvc));
    let no_syndrome = Syndrome { esr: 0x9285_0044, far: 0, hpfar: 0 };
    assert!(exit_is_fatal(TrapKind::Synchronous, &no_syndrome));
    assert!(!exit_is_fatal(TrapKind::Irq, &no_syndrome));
    let wfi = Syndrome { esr: 0x01 << 26, far: 0, hpfar: 0 };
    assert!(exit_is_fatal(TrapKind::Synchronous, &wfi));
    let unnamed = Syndrome { esr: 0x02 << 26, far: 0, hpfar: 0 };
    assert!(exit_is_fatal(TrapKind::Synchronous, &unnamed));
}

#[test]
fn percpu_new() {
    let percpu = Aarch64PerCpu::new(3).unwrap();
    assert_eq!(percpu.cpu_id, 3);
    assert_eq!(percpu.ctx, None);
    assert_eq!(percpu.ori_exception_vector_base, 0);
}

#[test]
fn enable_installs_the_vector_and_sets_the_vm_bit() {
    let mut cpu = host_cpu();
    cpu.sys.hcr_el2 = 0x8000_0000;
    let before = cpu;
    let mut percpu = Aarch64PerCpu::new(0).unwrap();
    assert!(!percpu.is_enabled(&cpu));
    assert_eq!(percpu.hardware_enable(&mut cpu, 0x4030_0000), Ok(()));
    assert!(percpu.is_enabled(&cpu));
    assert_eq!(percpu.ori_exception_vector_base, before.vbar_el2);
    assert_eq!(cpu.vbar_el2, 0x4030_0000);
    assert_eq!(cpu.sys.hcr_el2, 0x8000_0001);
    assert_eq!(cpu.sys.sp_el0, before.sys.sp_el0);
    assert_eq!(cpu.cptr_el2, before.cptr_el2);
    assert_eq!(cpu.cnthctl_el2, before.cnthctl_el2);
    assert_eq!(cpu.host_sp_el0, before.host_sp_el0);
    assert_eq!(percpu.cpu_id, 0);
    assert_eq!(percpu.ctx, None);
}

#[test]
fn enable_keeps_the_other_bits_of_hcr_el2() {
    for (before, after) in [
        (0u64, 1u64),
        (1, 1),
        (2, 3),
        (0x8000_0000, 0x8000_0001),
        (0x8000_0001, 0x8000_0001),
        (0x0000_0004_8800_003a, 0x0000_0004_8800_003b),
        (u64::MAX - 1, u64::MAX),
        (u64::MAX, u64::MAX),
    ] {
        let mut cpu = host_cpu();
        cpu.sys.hcr_el2 = before;
        let mut percpu = Aarch64PerCpu::new(0).unwrap();
        percpu.hardware_enable(&mut cpu, 0x4030_0000).unwrap();
        assert_eq!(cpu.sys.hcr_el2, after);
        assert_eq!(cpu.sys.hcr_el2, before | 1);
    }
}

#[test]
fn disable_keeps_the_other_bits_of_hcr_el2() {
    for (before, after) in [
        (0u64, 0u64),
        (1, 0),
        (3, 2),
        (0x8000_0001, 0x8000_0000),
        (0x8000_0000, 0x8000_0000),
        (0x0000_0004_8800_003b, 0x0000_0004_8800_003a),
        (u64::MAX, u64::MAX - 1),
    ] {
        let mut cpu = host_cpu();
        cpu.sys.hcr_el2 = before;
        let mut percpu = Aarch64PerCpu::new(0).unwrap();
        percpu.hardware_disable(&mut cpu).unwrap();
        assert_eq!(cpu.sys.hcr_el2, after);
        assert_eq!(cpu.sys.hcr_el2, before & !1);
    }
}

#[test]
fn disable_puts_the_vector_back() {
    let mut cpu = host_cpu();
    let installed = cpu.vbar_el2;
    let mut percpu = Aarch64PerCpu::new(1).unwrap();
    percpu.hardware_enable(&mut cpu, 0x4030_0000).unwrap();
    cpu.sys.hcr_el2 = 0x8000_0001;
    cpu.sys.sp_el0 = 0x99;
    assert_eq!(percpu.hardware_disable(&mut cpu), Ok(()));
    assert_eq!(cpu.vbar_el2, installed);
    assert_eq!(cpu.sys.hcr_el2, 0x8000_0000);
    assert!(!percpu.is_enabled(&cpu));
    assert_eq!(cpu.sys.sp_el0, 0x99);
    assert_eq!(percpu.ori_exception_vector_base, installed);
}

#[test]
fn enable_then_disable_leaves_the_cpu_as_it_was() {
    let mut cpu = host_cpu();
    cpu.sys.hcr_el2 = 0x8000_0000;
    let before = cpu;
    let mut percpu = Aarch64PerCpu::new(2).unwrap();
    percpu.hardware_enable(&mut cpu, 0x4030_0000).unwrap();
    percpu.hardware_disable(&mut cpu).unwrap();
    assert_eq!(cpu, before);
}

#[test]
fn store_vm_system_regs_captures_before_the_host_sp_el0_returns() {
    let (mut vcpu, mut cpu) = ready_vcpu();
    let host_sp = cpu.sys.sp_el0;
    vcpu.begin_run(&mut cpu);
    cpu.sys.sp_el0 = 0xdead_0000;
    cpu.sys.far_el1 = 0x77;
    let guest_bank = cpu.sys;
    let frame = *vcpu.ctx();
    vcpu.store_vm_system_regs(&mut cpu);
    assert_eq!(*vcpu.guest_system_regs(), guest_bank);
    assert_eq!(cpu.sys.sp_el0, host_sp);
    assert_eq!(cpu.sys.far_el1, 0x77);
    assert_eq!(*vcpu.ctx(), frame);
    assert_eq!(vcpu.state(), RunState::Running);
}

#[test]
fn is_enabled_reads_bit_0_only() {
    let percpu = Aarch64PerCpu::new(0).unwrap();
    for (hcr, enabled) in
        [(0u64, false), (1, true), (2, false), (3, true), (0x8000_0000, false), (u64::MAX, true)]
    {
        let mut cpu = host_cpu();
        cpu.sys.hcr_el2 = hcr;
        assert_eq!(percpu.is_enabled(&cpu), enabled);
    }
}
