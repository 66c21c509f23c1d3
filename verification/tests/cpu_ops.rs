//! Register pairs, flags, the dispatch tables and single operations.

use dmg_core::cpu::{CPU, Flags};
use dmg_core::instruction::{
    generate_main_inst_table, generate_sub_inst_table, Inst, InstKind, JumpCond, Operand8,
    Operand16,
};
use dmg_core::memory::Memory;

#[test]
fn register_pair_roundtrip() {
    let mut cpu = CPU::new();
    for y in [0x0000u16, 0x0001, 0x1234, 0xabcd, 0xffff] {
        cpu.registers.set_bc(y);
        assert_eq!(cpu.registers.get_bc(), y);
        cpu.registers.set_de(y);
        assert_eq!(cpu.registers.get_de(), y);
        cpu.registers.set_hl(y);
        assert_eq!(cpu.registers.get_hl(), y);
    }
}

#[test]
fn af_write_masks_low_nibble() {
    let mut cpu = CPU::new();
    cpu.registers.set_af(0x12ff);
    assert_eq!(cpu.registers.get_af(), 0x12f0);
    assert_eq!(cpu.registers.f & 0x0f, 0);
    cpu.registers.set_af(0xabcd);
    assert_eq!(cpu.registers.a, 0xab);
    assert_eq!(cpu.registers.f, 0xc0);
}

#[test]
fn flag_bits_roundtrip() {
    let fl = Flags { z: true, n: false, h: true, c: false };
    assert_eq!(fl.to_bits(), 0xa0);
    let back = Flags::from_bits(0xa0);
    assert_eq!(back, fl);
    assert_eq!(Flags::from_bits(0x80).z, true);
    assert_eq!(Flags::from_bits(0x10).c, true);
}

#[test]
fn main_table_spot_checks() {
    let t = generate_main_inst_table();
    assert_eq!(t.len(), 256);
    let nop = t[0x00].unwrap();
    assert!(matches!(nop.kind, InstKind::Nop));
    assert_eq!(nop.clocks, 4);
    assert_eq!(nop.length, 1);
    let halt = t[0x76].unwrap();
    assert!(matches!(halt.kind, InstKind::Halt));
    let ld = t[0x41].unwrap();
    assert!(matches!(ld.kind, InstKind::Load8(Operand8::RegB, Operand8::RegC)));
    assert_eq!(ld.clocks, 4);
    let ldhl = t[0x46].unwrap();
    assert!(matches!(
        ldhl.kind,
        InstKind::Load8(Operand8::RegB, Operand8::Address(Operand16::RegHL))
    ));
    assert_eq!(ldhl.clocks, 8);
    let jp = t[0xc3].unwrap();
    assert!(matches!(jp.kind, InstKind::JumpImm(0)));
    assert_eq!(jp.clocks, 16);
    assert_eq!(jp.length, 3);
    let jpz = t[0xca].unwrap();
    assert!(matches!(jpz.kind, InstKind::JumpCondImm(JumpCond::Z, 0)));
    assert_eq!(jpz.clocks, 12);
    let call = t[0xcd].unwrap();
    assert_eq!(call.clocks, 24);
    let rst38 = t[0xff].unwrap();
    assert!(matches!(rst38.kind, InstKind::Restart(0x38)));
    // the prefix byte and the undefined opcodes have no entry
    assert!(t[0xcb].is_none());
    for op in [0xd3usize, 0xdb, 0xdd, 0xe3, 0xe4, 0xeb, 0xec, 0xed, 0xf4, 0xfc, 0xfd] {
        assert!(t[op].is_none());
    }
    assert_eq!(t.iter().filter(|e| e.is_none()).count(), 12);
}

#[test]
fn sub_table_spot_checks() {
    let t = generate_sub_inst_table();
    assert_eq!(t.len(), 256);
    assert!(matches!(t[0x00].kind, InstKind::RotateLeft(Operand8::RegB)));
    assert!(matches!(t[0x37].kind, InstKind::Swap(Operand8::RegA)));
    assert!(matches!(t[0x7c].kind, InstKind::TestBit(7, Operand8::RegH)));
    assert_eq!(t[0x46].clocks, 12);
    assert!(matches!(t[0x46].kind, InstKind::TestBit(0, Operand8::Address(Operand16::RegHL))));
    assert!(matches!(t[0x87].kind, InstKind::ResetBit(0, Operand8::RegA)));
    assert!(matches!(t[0xff].kind, InstKind::SetBit(7, Operand8::RegA)));
    for e in t.iter() {
        assert_eq!(e.length, 2);
    }
}

#[test]
fn sub_flag_laws() {
    let mut mem = Memory::new();
    // equal operands: Z set, no borrow
    let mut cpu = CPU::new();
    cpu.registers.a = 0x42;
    cpu.execute(&mut mem, InstKind::Sub8(Operand8::Imm(0x42)));
    assert_eq!(cpu.registers.a, 0);
    assert_eq!(cpu.registers.f, 0xc0);
    // low-nibble borrow only
    let mut cpu = CPU::new();
    cpu.registers.a = 0x20;
    cpu.execute(&mut mem, InstKind::Sub8(Operand8::Imm(0x01)));
    assert_eq!(cpu.registers.a, 0x1f);
    assert_eq!(cpu.registers.f, 0x60);
    // full borrow
    let mut cpu = CPU::new();
    cpu.registers.a = 0x10;
    cpu.execute(&mut mem, InstKind::Sub8(Operand8::Imm(0x20)));
    assert_eq!(cpu.registers.a, 0xf0);
    assert_eq!(cpu.registers.f, 0x50);
}

#[test]
fn add_flag_laws() {
    let mut mem = Memory::new();
    // half carry
    let mut cpu = CPU::new();
    cpu.registers.a = 0x0f;
    cpu.execute(&mut mem, InstKind::Add8(Operand8::Imm(0x01)));
    assert_eq!(cpu.registers.a, 0x10);
    assert_eq!(cpu.registers.f, 0x20);
    // full carry wrapping to zero
    let mut cpu = CPU::new();
    cpu.registers.a = 0xff;
    cpu.execute(&mut mem, InstKind::Add8(Operand8::Imm(0x01)));
    assert_eq!(cpu.registers.a, 0x00);
    assert_eq!(cpu.registers.f, 0xb0);
}

#[test]
fn adc_includes_carry_in_value_and_half_carry() {
    let mut mem = Memory::new();
    let mut cpu = CPU::new();
    cpu.registers.a = 0x0f;
    cpu.registers.f = 0x10;
    cpu.execute(&mut mem, InstKind::AddCarry8(Operand8::Imm(0x00)));
    assert_eq!(cpu.registers.a, 0x10);
    assert_eq!(cpu.registers.f, 0x20);
}

#[test]
fn daa_adjusts_bcd_sums() {
    let mut mem = Memory::new();
    // 0x45 + 0x38 = 0x7d, adjusted to the BCD sum 0x83
    let mut cpu = CPU::new();
    cpu.registers.a = 0x45;
    cpu.execute(&mut mem, InstKind::Add8(Operand8::Imm(0x38)));
    assert_eq!(cpu.registers.a, 0x7d);
    cpu.execute(&mut mem, InstKind::DecimalAdjustA);
    assert_eq!(cpu.registers.a, 0x83);
    assert_eq!(cpu.registers.f & 0x10, 0);
    // 0x99 + 0x01 = 0x9a, adjusted to 0x00 with carry
    let mut cpu = CPU::new();
    cpu.registers.a = 0x99;
    cpu.execute(&mut mem, InstKind::Add8(Operand8::Imm(0x01)));
    cpu.execute(&mut mem, InstKind::DecimalAdjustA);
    assert_eq!(cpu.registers.a, 0x00);
    assert_eq!(cpu.registers.f, 0x90);
    // BCD subtraction: 0x20 - 0x13 = 0x0d, adjusted to 0x07
    let mut cpu = CPU::new();
    cpu.registers.a = 0x20;
    cpu.execute(&mut mem, InstKind::Sub8(Operand8::Imm(0x13)));
    assert_eq!(cpu.registers.a, 0x0d);
    cpu.execute(&mut mem, InstKind::DecimalAdjustA);
    assert_eq!(cpu.registers.a, 0x07);
}

#[test]
fn rotates_and_swap() {
    let mut mem = Memory::new();
    let mut cpu = CPU::new();
    cpu.registers.a = 0x81;
    cpu.execute(&mut mem, InstKind::RotateALeft);
    assert_eq!(cpu.registers.a, 0x03);
    assert_eq!(cpu.registers.f, 0x10);
    cpu.registers.a = 0xf1;
    cpu.execute(&mut mem, InstKind::Swap(Operand8::RegA));
    assert_eq!(cpu.registers.a, 0x1f);
    assert_eq!(cpu.registers.f, 0x00);
}

#[test]
fn bit_test_set_reset() {
    let mut mem = Memory::new();
    let mut cpu = CPU::new();
    cpu.registers.b = 0x00;
    cpu.execute(&mut mem, InstKind::TestBit(3, Operand8::RegB));
    assert_eq!(cpu.registers.f & 0x80, 0x80);
    cpu.execute(&mut mem, InstKind::SetBit(3, Operand8::RegB));
    assert_eq!(cpu.registers.b, 0x08);
    cpu.execute(&mut mem, InstKind::TestBit(3, Operand8::RegB));
    assert_eq!(cpu.registers.f & 0x80, 0x00);
    cpu.execute(&mut mem, InstKind::ResetBit(3, Operand8::RegB));
    assert_eq!(cpu.registers.b, 0x00);
}

#[test]
fn push_pop_roundtrip() {
    let mut mem = Memory::new();
    let mut cpu = CPU::new();
    cpu.registers.sp = 0xd000;
    cpu.registers.set_bc(0xbeef);
    cpu.execute(&mut mem, InstKind::Push(Operand16::RegBC));
    assert_eq!(cpu.registers.sp, 0xcffe);
    // the word is little-endian on the stack
    assert_eq!(mem.get_byte(0xcffe), 0xef);
    assert_eq!(mem.get_byte(0xcfff), 0xbe);
    cpu.execute(&mut mem, InstKind::Pop(Operand16::RegDE));
    assert_eq!(cpu.registers.get_de(), 0xbeef);
    assert_eq!(cpu.registers.sp, 0xd000);
}

#[test]
fn interrupt_dispatch_takes_lowest_pending_bit() {
    let mut mem = Memory::new();
    let mut cpu = CPU::new();
    cpu.registers.pc = 0xc123;
    cpu.registers.sp = 0xd000;
    mem.interrupt_master_enable = true;
    mem.interrupt_enable = 0x1f;
    mem.interrupt_flag = 0x06;
    // bit 1 (LCD STAT) is the lowest pending: vector 0x48
    for _ in 0..20 {
        cpu.tick(&mut mem);
    }
    assert_eq!(cpu.registers.pc, 0x48);
    assert_eq!(mem.interrupt_flag, 0x04);
    assert!(!mem.interrupt_master_enable);
    assert_eq!(mem.get_word(0xcffe), 0xc123);
}
