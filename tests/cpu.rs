use nesemu::cpu::{CpuError, Registers, CARRY_FLAG, CPU, NEG_FLAG, ZERO_FLAG};
use nesemu::opcode::AddressingMode;
use nesemu::rom::FormatError;

/// An image with one PRG bank whose reset vector holds `reset`.
fn image(reset: u16) -> Vec<u8> {
    let mut v = vec![0x4E, 0x45, 0x53, 0x1A, 1, 0, 0, 0, 0, 0, 0, 0, 0, 0, 0, 0];
    let mut prg = vec![0u8; 16384];
    prg[0x3FFC] = (reset & 0xFF) as u8;
    prg[0x3FFD] = (reset >> 8) as u8;
    prg[0x0000] = 0xA9;
    prg[0x0001] = 0x5C;
    v.extend(prg);
    v
}

/// A processor with `program` in RAM at 0x0200, PC there, and the registers
/// otherwise as given.
fn with_program(program: &[u8], a: u8, x: u8, y: u8, flags: u8) -> CPU {
    let mut cpu = CPU::new(&image(0x8000)).ok().unwrap();
    for (i, b) in program.iter().enumerate() {
        cpu.storeb(0x0200 + i as u16, *b);
    }
    cpu.set_registers(Registers { a, x, y, s: 0, flags, pc: 0x0200 });
    cpu
}

fn carry(cpu: &CPU) -> bool {
    cpu.registers().flags & CARRY_FLAG != 0
}

fn zero(cpu: &CPU) -> bool {
    cpu.registers().flags & ZERO_FLAG != 0
}

#[test]
fn new_cpu_is_zeroed() {
    let cpu = CPU::new(&image(0x1234)).ok().unwrap();
    assert_eq!(cpu.registers(), Registers::new());
    assert_eq!(cpu.loadb(0x0000), 0);
    assert_eq!(cpu.loadb(0x8000), 0xA9);
}

#[test]
fn new_cpu_refuses_a_bad_image() {
    let mut v = image(0);
    v[2] = 0;
    assert!(matches!(CPU::new(&v), Err(FormatError::BadMagic { .. })));
}

#[test]
fn reset_loads_the_vector() {
    let mut cpu = CPU::new(&image(0x1234)).ok().unwrap();
    cpu.set_registers(Registers { a: 1, x: 2, y: 3, s: 4, flags: 5, pc: 6 });
    cpu.reset();
    assert_eq!(cpu.registers(), Registers { a: 1, x: 2, y: 3, s: 4, flags: 5, pc: 0x1234 });
}

#[test]
fn reset_then_run_from_prg() {
    let mut cpu = CPU::new(&image(0x8000)).ok().unwrap();
    cpu.reset();
    assert_eq!(cpu.emulate_cycle(), Ok(()));
    assert_eq!(cpu.registers().a, 0x5C);
    assert_eq!(cpu.registers().pc, 0x8002);
}

#[test]
fn adc_carry() {
    let mut cpu = with_program(&[0x69, 0x01], 0xFF, 0, 0, 0);
    assert_eq!(cpu.emulate_cycle(), Ok(()));
    assert_eq!(cpu.registers().a, 0x00);
    assert!(carry(&cpu));
    assert_eq!(cpu.registers().pc, 0x0202);
}

#[test]
fn adc_adds_carry_in() {
    let mut cpu = with_program(&[0x69, 0x10], 0x20, 0, 0, CARRY_FLAG);
    cpu.emulate_cycle().unwrap();
    assert_eq!(cpu.registers().a, 0x31);
    assert!(!carry(&cpu));
}

#[test]
fn sbc_without_and_with_borrow() {
    let mut cpu = with_program(&[0xE9, 0x03, 0xE9, 0x05], 0x05, 0, 0, 0);
    cpu.emulate_cycle().unwrap();
    assert_eq!(cpu.registers().a, 0x02);
    assert!(!carry(&cpu));
    cpu.emulate_cycle().unwrap();
    assert_eq!(cpu.registers().a, 0xFD);
    assert!(carry(&cpu));
}

#[test]
fn sbc_takes_one_more_when_carry_is_set() {
    let mut cpu = with_program(&[0xE9, 0x03], 0x05, 0, 0, CARRY_FLAG);
    cpu.emulate_cycle().unwrap();
    assert_eq!(cpu.registers().a, 0x01);
    assert!(!carry(&cpu));
}

#[test]
fn cmp_no_borrow() {
    let mut cpu = with_program(&[0xC9, 0x10], 0x10, 0, 0, 0);
    cpu.emulate_cycle().unwrap();
    assert!(zero(&cpu));
    assert!(carry(&cpu));
    assert_eq!(cpu.registers().a, 0x10);
}

#[test]
fn compare_below_and_above() {
    let mut cpu = with_program(&[0xE0, 0x20, 0xC0, 0x01], 0, 0x10, 0x10, ZERO_FLAG | CARRY_FLAG);
    cpu.emulate_cycle().unwrap();
    assert!(!zero(&cpu));
    assert!(!carry(&cpu));
    cpu.emulate_cycle().unwrap();
    assert!(!zero(&cpu));
    assert!(carry(&cpu));
}

#[test]
fn logic_operations() {
    let mut cpu = with_program(&[0x29, 0x0F, 0x09, 0xA0, 0x49, 0xFF], 0x3C, 0, 0, 0);
    cpu.emulate_cycle().unwrap();
    assert_eq!(cpu.registers().a, 0x0C);
    cpu.emulate_cycle().unwrap();
    assert_eq!(cpu.registers().a, 0xAC);
    cpu.emulate_cycle().unwrap();
    assert_eq!(cpu.registers().a, 0x53);
}

#[test]
fn shifts_on_the_accumulator() {
    let mut cpu = with_program(&[0x0A, 0x2A, 0x4A, 0x6A], 0x81, 0, 0, 0);
    cpu.emulate_cycle().unwrap();
    assert_eq!(cpu.registers().a, 0x02);
    assert!(carry(&cpu));
    cpu.emulate_cycle().unwrap();
    assert_eq!(cpu.registers().a, 0x05);
    assert!(!carry(&cpu));
    cpu.emulate_cycle().unwrap();
    assert_eq!(cpu.registers().a, 0x02);
    assert!(carry(&cpu));
    cpu.emulate_cycle().unwrap();
    assert_eq!(cpu.registers().a, 0x81);
    assert!(!carry(&cpu));
}

#[test]
fn shift_in_memory_reads_and_writes_one_address() {
    let mut cpu = with_program(&[0x06, 0x40, 0xEA], 0, 0, 0, 0);
    cpu.storeb(0x0040, 0xC1);
    cpu.emulate_cycle().unwrap();
    assert_eq!(cpu.loadb(0x0040), 0x82);
    assert!(carry(&cpu));
    assert_eq!(cpu.registers().pc, 0x0202);
    assert_eq!(cpu.loadb(0x0202), 0xEA);
}

#[test]
fn rotate_in_memory_with_index() {
    let mut cpu = with_program(&[0x7E, 0x00, 0x03], 0, 0x05, 0, CARRY_FLAG);
    cpu.storeb(0x0305, 0x02);
    cpu.emulate_cycle().unwrap();
    assert_eq!(cpu.loadb(0x0305), 0x81);
    assert!(!carry(&cpu));
    assert_eq!(cpu.registers().pc, 0x0203);
}

#[test]
fn loads_through_each_mode() {
    let mut cpu = with_program(
        &[0xA5, 0x10, 0xB5, 0xFF, 0xAD, 0x00, 0x03, 0xBD, 0x00, 0x03, 0xB9, 0x00, 0x03, 0xA2, 0x07, 0xB6, 0x10, 0xA4, 0x12],
        0,
        0x11,
        0x02,
        0,
    );
    cpu.storeb(0x0010, 0xAA);
    cpu.storeb(0x0012, 0x44);
    cpu.storeb(0x0017, 0x66);
    cpu.storeb(0x0300, 0xBB);
    cpu.storeb(0x0302, 0x33);
    cpu.storeb(0x0311, 0xCC);
    cpu.emulate_cycle().unwrap();
    assert_eq!(cpu.registers().a, 0xAA);
    // page zero plus X wraps within page zero: 0xFF + 0x11 is 0x10.
    cpu.emulate_cycle().unwrap();
    assert_eq!(cpu.registers().a, 0xAA);
    cpu.emulate_cycle().unwrap();
    assert_eq!(cpu.registers().a, 0xBB);
    cpu.emulate_cycle().unwrap();
    assert_eq!(cpu.registers().a, 0xCC);
    cpu.emulate_cycle().unwrap();
    assert_eq!(cpu.registers().a, 0x33);
    cpu.emulate_cycle().unwrap();
    assert_eq!(cpu.registers().x, 0x07);
    cpu.emulate_cycle().unwrap();
    assert_eq!(cpu.registers().x, 0x44);
    cpu.emulate_cycle().unwrap();
    assert_eq!(cpu.registers().y, 0x44);
    assert_eq!(cpu.registers().a, 0x33);
    assert_eq!(cpu.registers().pc, 0x0213);
}

#[test]
fn stores() {
    let mut cpu = with_program(&[0x85, 0x20, 0x96, 0x20, 0x8C, 0x00, 0x04, 0x9D, 0x00, 0x04], 0x0A, 0x0B, 0x0C, 0);
    cpu.emulate_cycle().unwrap();
    cpu.emulate_cycle().unwrap();
    cpu.emulate_cycle().unwrap();
    cpu.emulate_cycle().unwrap();
    assert_eq!(cpu.loadb(0x0020), 0x0A);
    assert_eq!(cpu.loadb(0x002C), 0x0B);
    assert_eq!(cpu.loadb(0x0400), 0x0C);
    assert_eq!(cpu.loadb(0x040B), 0x0A);
}

#[test]
fn store_to_prg_is_dropped() {
    let mut cpu = with_program(&[0x8D, 0x00, 0x80], 0x77, 0, 0, 0);
    cpu.emulate_cycle().unwrap();
    assert_eq!(cpu.loadb(0x8000), 0xA9);
}

#[test]
fn branches() {
    let mut cpu = with_program(&[0xF0, 0x10, 0xD0, 0x10], 0, 0, 0, 0);
    cpu.emulate_cycle().unwrap();
    assert_eq!(cpu.registers().pc, 0x0202);
    cpu.emulate_cycle().unwrap();
    assert_eq!(cpu.registers().pc, 0x0214);
    let mut neg = with_program(&[0x30, 0x05], 0, 0, 0, NEG_FLAG);
    neg.emulate_cycle().unwrap();
    assert_eq!(neg.registers().pc, 0x0207);
    let mut c = with_program(&[0x90, 0x05], 0, 0, 0, CARRY_FLAG);
    c.emulate_cycle().unwrap();
    assert_eq!(c.registers().pc, 0x0202);
}

#[test]
fn branch_offset_is_unsigned() {
    let mut cpu = with_program(&[0x10, 0xFE], 0, 0, 0, 0);
    cpu.emulate_cycle().unwrap();
    assert_eq!(cpu.registers().pc, 0x0300);
}

#[test]
fn jump() {
    let mut cpu = with_program(&[0x4C, 0x34, 0x12], 0, 0, 0, 0);
    cpu.emulate_cycle().unwrap();
    assert_eq!(cpu.registers().pc, 0x1234);
}

#[test]
fn increments_and_decrements_wrap() {
    let mut cpu = with_program(&[0xE8, 0xC8, 0xCA, 0xCA, 0x88], 0, 0xFF, 0x7F, 0);
    cpu.emulate_cycle().unwrap();
    assert_eq!(cpu.registers().x, 0x00);
    cpu.emulate_cycle().unwrap();
    assert_eq!(cpu.registers().y, 0x80);
    cpu.emulate_cycle().unwrap();
    cpu.emulate_cycle().unwrap();
    assert_eq!(cpu.registers().x, 0xFE);
    cpu.emulate_cycle().unwrap();
    assert_eq!(cpu.registers().y, 0x7F);
}

#[test]
fn nop_only_moves_pc() {
    let mut cpu = with_program(&[0xEA], 1, 2, 3, 4);
    cpu.emulate_cycle().unwrap();
    assert_eq!(cpu.registers(), Registers { a: 1, x: 2, y: 3, s: 0, flags: 4, pc: 0x0201 });
}

#[test]
fn illegal_opcode_halts() {
    let mut cpu = with_program(&[0xFF], 1, 2, 3, 4);
    let before = cpu.registers();
    assert_eq!(cpu.emulate_cycle(), Err(CpuError::IllegalOpcode { opcode: 0xFF, addr: 0x0200 }));
    assert_eq!(cpu.registers(), before);
    assert_eq!(cpu.emulate_cycle(), Err(CpuError::IllegalOpcode { opcode: 0xFF, addr: 0x0200 }));
}

#[test]
fn indirect_jump_is_illegal() {
    let mut cpu = with_program(&[0x6C, 0x00, 0x03], 0, 0, 0, 0);
    assert_eq!(cpu.emulate_cycle(), Err(CpuError::IllegalOpcode { opcode: 0x6C, addr: 0x0200 }));
    assert_eq!(cpu.registers().pc, 0x0200);
}

#[test]
fn error_variant_for_a_mode_is_distinct() {
    let e = CpuError::InvalidAddressingMode { opcode: 0x69, addr: 0, mode: AddressingMode::Immediate };
    assert_ne!(e, CpuError::IllegalOpcode { opcode: 0x69, addr: 0 });
}
