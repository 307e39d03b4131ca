use gameboy_core::cpu::registers::flags::CPUFlagsRegister;
use gameboy_core::cpu::registers::{CPURegisters, CpuRegistersAccessTrait};
use gameboy_core::cpu::CPU;

#[test]
fn power_up_state() {
    let registers = CPURegisters::initialize();
    assert_eq!(registers.get_pc(), 0x0100);
    assert_eq!(registers.get_sp(), 0xFFFE);
    assert_eq!(registers.get_a(), 0x01);
    assert!(!registers.get_f_zero());
    assert!(!registers.get_f_subtract());
    assert!(!registers.get_f_half_carry());
    assert!(!registers.get_f_carry());
}

#[test]
fn power_up_state_of_the_other_registers() {
    let registers = CPURegisters::initialize();
    assert_eq!(registers.get_b(), 0xFF);
    assert_eq!(registers.get_c(), 0x13);
    assert_eq!(registers.get_d(), 0x00);
    assert_eq!(registers.get_e(), 0xC1);
    assert_eq!(registers.get_h(), 0x84);
    assert_eq!(registers.get_l(), 0x03);
    assert_eq!(registers.get_f(), 0x00);
    assert_eq!(registers.get_af(), 0x0100);
    assert_eq!(registers.get_bc(), 0xFF13);
    assert_eq!(registers.get_de(), 0x00C1);
    assert_eq!(registers.get_hl(), 0x8403);
}

#[test]
fn reset_state_is_all_zero() {
    let registers = CPURegisters::default();
    assert_eq!(registers.get_af(), 0);
    assert_eq!(registers.get_bc(), 0);
    assert_eq!(registers.get_de(), 0);
    assert_eq!(registers.get_hl(), 0);
    assert_eq!(registers.get_pc(), 0);
    assert_eq!(registers.get_sp(), 0);
    assert_eq!(registers.f, CPUFlagsRegister::default());
}

#[test]
fn pair_write_sets_both_halves() {
    let mut registers = CPURegisters::default();
    registers.set_bc(0x1234);
    assert_eq!(registers.get_b(), 0x12);
    assert_eq!(registers.get_c(), 0x34);

    let mut registers = CPURegisters::default();
    registers.set_bc(0x1234);
    assert_eq!(registers.get_c(), 0x34);
    assert_eq!(registers.get_b(), 0x12);
}

#[test]
fn every_pair_has_its_first_register_as_high_byte() {
    let mut registers = CPURegisters::default();
    registers.set_de(0xABCD);
    registers.set_hl(0x5678);
    registers.set_af(0x9AF0);
    assert_eq!((registers.get_d(), registers.get_e()), (0xAB, 0xCD));
    assert_eq!((registers.get_h(), registers.get_l()), (0x56, 0x78));
    assert_eq!((registers.get_a(), registers.get_f()), (0x9A, 0xF0));

    let mut registers = CPURegisters::default();
    registers.set_b(0x12);
    registers.set_c(0x34);
    registers.set_d(0x56);
    registers.set_e(0x78);
    registers.set_h(0x9A);
    registers.set_l(0xBC);
    registers.set_a(0xDE);
    registers.set_f(0xF0);
    assert_eq!(registers.get_bc(), 0x1234);
    assert_eq!(registers.get_de(), 0x5678);
    assert_eq!(registers.get_hl(), 0x9ABC);
    assert_eq!(registers.get_af(), 0xDEF0);
}

#[test]
fn pairs_read_back_what_was_written() {
    for value in (0..=0xFFFFu16).step_by(7) {
        let mut registers = CPURegisters::initialize();
        registers.set_bc(value);
        assert_eq!(registers.get_bc(), value);
        registers.set_de(value);
        assert_eq!(registers.get_de(), value);
        registers.set_hl(value);
        assert_eq!(registers.get_hl(), value);
        registers.set_af(value);
        assert_eq!(registers.get_af(), value & 0xFFF0);
    }
}

#[test]
fn pair_write_leaves_the_other_registers() {
    let before = CPURegisters::initialize();

    let mut registers = before;
    registers.set_bc(0x1234);
    assert_eq!(registers, CPURegisters { b: 0x12, c: 0x34, ..before });

    let mut registers = before;
    registers.set_de(0x1234);
    assert_eq!(registers, CPURegisters { d: 0x12, e: 0x34, ..before });

    let mut registers = before;
    registers.set_hl(0x1234);
    assert_eq!(registers, CPURegisters { h: 0x12, l: 0x34, ..before });

    let mut registers = before;
    registers.set_af(0x12F4);
    assert_eq!(registers, CPURegisters { a: 0x12, f: CPUFlagsRegister::from(0xF0u8), ..before });
}

#[test]
fn flags_byte_drops_the_low_nibble() {
    let mut registers = CPURegisters::default();
    registers.set_f(0xFF);
    assert_eq!(registers.get_f(), 0xF0);
    registers.set_f(0x0F);
    assert_eq!(registers.get_f(), 0x00);
    registers.set_f(0xA5);
    assert_eq!(registers.get_f(), 0xA0);
    assert!(registers.get_f_zero());
    assert!(!registers.get_f_subtract());
    assert!(registers.get_f_half_carry());
    assert!(!registers.get_f_carry());
    registers.set_af(0x12FF);
    assert_eq!(registers.get_af(), 0x12F0);
}

#[test]
fn single_flags_do_not_touch_each_other() {
    let mut registers = CPURegisters::default();
    registers.set_f_zero(true);
    assert_eq!(registers.get_f(), 0x80);
    registers.set_f_subtract(true);
    assert_eq!(registers.get_f(), 0xC0);
    registers.set_f_half_carry(true);
    assert_eq!(registers.get_f(), 0xE0);
    registers.set_f_carry(true);
    assert_eq!(registers.get_f(), 0xF0);
    registers.set_f_subtract(false);
    assert_eq!(registers.get_f(), 0xB0);
    assert!(registers.get_f_zero());
    assert!(!registers.get_f_subtract());
    assert!(registers.get_f_half_carry());
    assert!(registers.get_f_carry());
    assert_eq!(registers, CPURegisters { f: CPUFlagsRegister::from(0xB0u8), ..CPURegisters::default() });
}

#[test]
fn single_registers_write_only_themselves() {
    let before = CPURegisters::initialize();
    let mut registers = before;
    registers.set_a(0x11);
    assert_eq!(registers, CPURegisters { a: 0x11, ..before });
    let mut registers = before;
    registers.set_b(0x22);
    assert_eq!(registers, CPURegisters { b: 0x22, ..before });
    let mut registers = before;
    registers.set_c(0x33);
    assert_eq!(registers, CPURegisters { c: 0x33, ..before });
    let mut registers = before;
    registers.set_d(0x44);
    assert_eq!(registers, CPURegisters { d: 0x44, ..before });
    let mut registers = before;
    registers.set_e(0x55);
    assert_eq!(registers, CPURegisters { e: 0x55, ..before });
    let mut registers = before;
    registers.set_h(0x66);
    assert_eq!(registers, CPURegisters { h: 0x66, ..before });
    let mut registers = before;
    registers.set_l(0x77);
    assert_eq!(registers, CPURegisters { l: 0x77, ..before });
    let mut registers = before;
    registers.set_pc(0x8888);
    assert_eq!(registers, CPURegisters { pc: 0x8888, ..before });
    let mut registers = before;
    registers.set_sp(0x9999);
    assert_eq!(registers, CPURegisters { sp: 0x9999, ..before });
}

#[test]
fn stack_pointer_wraps() {
    let mut registers = CPURegisters::default();
    registers.set_sp(0xFFFF);
    registers.increment_sp();
    assert_eq!(registers.get_sp(), 0x0000);
    registers.decrement_sp();
    assert_eq!(registers.get_sp(), 0xFFFF);
    registers.decrement_sp();
    assert_eq!(registers.get_sp(), 0xFFFE);
    registers.increment_sp();
    registers.increment_sp();
    registers.increment_sp();
    assert_eq!(registers.get_sp(), 0x0001);
    assert_eq!(registers, CPURegisters { sp: 0x0001, ..CPURegisters::default() });
}

#[test]
fn processor_gives_access_to_its_registers() {
    let mut cpu = CPU::default();
    assert_eq!(*cpu.get_registers(), CPURegisters::default());
    cpu.set_bc(0x1234);
    cpu.set_f_carry(true);
    cpu.set_pc(0x0150);
    cpu.decrement_sp();
    assert_eq!(cpu.get_b(), 0x12);
    assert_eq!(cpu.get_c(), 0x34);
    assert_eq!(cpu.get_f(), 0x10);
    assert_eq!(cpu.get_pc(), 0x0150);
    assert_eq!(cpu.get_sp(), 0xFFFF);
    cpu.get_registers_mut().a = 0x42;
    assert_eq!(cpu.get_af(), 0x4210);
    assert_eq!(cpu.registers, CPURegisters { a: 0x42, b: 0x12, c: 0x34, f: CPUFlagsRegister::from(0x10u8), pc: 0x0150, sp: 0xFFFF, ..CPURegisters::default() });
}
