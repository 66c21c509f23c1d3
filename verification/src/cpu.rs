//! The SM83 CPU: registers, flags, the instruction-level interpreter and
//! the per-T-cycle driver with interrupt dispatch, HALT, the HALT bug and
//! the delayed effect of EI.
//!
//! [`spec_execute`], [`spec_decode`] and [`spec_cpu_tick`] define the whole
//! processor as functions of the machine state; `execute`, `decode` and
//! `tick` are proved to follow them exactly.

use vstd::prelude::*;
use crate::memory::{Memory, MemView};
use crate::instruction::{
    Inst, InstKind, JumpCond, Operand8, Operand16, inst_kind_wf, spec_main_inst, spec_sub_inst,
    main_inst_entry, sub_inst_entry, lemma_main_inst_wf, lemma_sub_inst_wf,
};

verus! {

/// 16-bit addition that wraps around 0xFFFF.
pub open spec fn wrap_add16(x: u16, d: u16) -> u16 {
    ((x + d) % 0x10000) as u16
}

/// 16-bit subtraction that wraps around 0.
pub open spec fn wrap_sub16(x: u16, d: u16) -> u16 {
    ((x + 0x10000 - d) % 0x10000) as u16
}

/// The sign extension of an 8-bit displacement to a 16-bit offset.
pub open spec fn sign_ext(n: i8) -> u16 {
    if n >= 0 {
        n as u16
    } else {
        (n + 0x10000) as u16
    }
}

pub fn wadd16(x: u16, d: u16) -> (r: u16)
    ensures
        r == wrap_add16(x, d),
{
    (((x as u32) + (d as u32)) % 0x10000) as u16
}

pub fn wsub16(x: u16, d: u16) -> (r: u16)
    ensures
        r == wrap_sub16(x, d),
{
    (((x as u32) + 0x10000 - (d as u32)) % 0x10000) as u16
}

pub fn sign_extend(n: i8) -> (r: u16)
    ensures
        r == sign_ext(n),
{
    if n >= 0 {
        n as u16
    } else {
        ((n as i32) + 0x10000) as u16
    }
}

/// The power of two selecting bit `n` of a byte.
pub open spec fn spec_pow2(n: int) -> u8 {
    if n == 0 {
        1
    } else if n == 1 {
        2
    } else if n == 2 {
        4
    } else if n == 3 {
        8
    } else if n == 4 {
        16
    } else if n == 5 {
        32
    } else if n == 6 {
        64
    } else {
        128
    }
}

pub fn pow2(n: usize) -> (r: u8)
    requires
        n < 8,
    ensures
        r == spec_pow2(n as int),
{
    if n == 0 {
        1
    } else if n == 1 {
        2
    } else if n == 2 {
        4
    } else if n == 3 {
        8
    } else if n == 4 {
        16
    } else if n == 5 {
        32
    } else if n == 6 {
        64
    } else {
        128
    }
}

/// The four SM83 condition flags, stored in the high nibble of F.
#[derive(Clone, Copy, Debug, PartialEq, Eq, Structural)]
pub struct Flags {
    pub z: bool,
    pub n: bool,
    pub h: bool,
    pub c: bool,
}

/// The F register value holding the given flags: Z in bit 7, N in bit 6,
/// H in bit 5, C in bit 4, low nibble zero.
pub open spec fn spec_flag_bits(fl: Flags) -> u8 {
    ((if fl.z {
        128int
    } else {
        0int
    }) + (if fl.n {
        64int
    } else {
        0int
    }) + (if fl.h {
        32int
    } else {
        0int
    }) + (if fl.c {
        16int
    } else {
        0int
    })) as u8
}

/// The flags held in an F register value.
pub open spec fn spec_flags_of(f: u8) -> Flags {
    Flags {
        z: (f / 128) % 2 == 1,
        n: (f / 64) % 2 == 1,
        h: (f / 32) % 2 == 1,
        c: (f / 16) % 2 == 1,
    }
}

/// Whether a branch condition holds under the given flags.
pub open spec fn spec_cond_met(cond: JumpCond, fl: Flags) -> bool {
    match cond {
        JumpCond::NZ => !fl.z,
        JumpCond::Z => fl.z,
        JumpCond::NC => !fl.c,
        JumpCond::C => fl.c,
    }
}

impl Flags {
    pub fn from_bits(f: u8) -> (r: Flags)
        ensures
            r == spec_flags_of(f),
    {
        Flags {
            z: (f / 128) % 2 == 1,
            n: (f / 64) % 2 == 1,
            h: (f / 32) % 2 == 1,
            c: (f / 16) % 2 == 1,
        }
    }

    pub fn to_bits(self) -> (r: u8)
        ensures
            r == spec_flag_bits(self),
            r % 16 == 0,
    {
        let mut v: u8 = 0;
        if self.z {
            v = v + 128;
        }
        if self.n {
            v = v + 64;
        }
        if self.h {
            v = v + 32;
        }
        if self.c {
            v = v + 16;
        }
        v
    }
}

/// The CPU register file: eight 8-bit registers plus SP and PC. The low
/// nibble of F is always zero.
#[derive(Clone, Copy, Debug, PartialEq, Eq, Structural)]
pub struct Registers {
    pub a: u8,
    pub b: u8,
    pub c: u8,
    pub d: u8,
    pub e: u8,
    pub f: u8,
    pub h: u8,
    pub l: u8,
    pub sp: u16,
    pub pc: u16,
}

impl Registers {
    pub open spec fn spec_af(self) -> u16 {
        (self.a * 256 + self.f) as u16
    }

    pub open spec fn spec_bc(self) -> u16 {
        (self.b * 256 + self.c) as u16
    }

    pub open spec fn spec_de(self) -> u16 {
        (self.d * 256 + self.e) as u16
    }

    pub open spec fn spec_hl(self) -> u16 {
        (self.h * 256 + self.l) as u16
    }

    /// AF writes mask the low nibble of F to zero.
    pub open spec fn spec_set_af(self, v: u16) -> Registers {
        Registers { a: (v / 256) as u8, f: ((v % 256) / 16 * 16) as u8, ..self }
    }

    pub open spec fn spec_set_bc(self, v: u16) -> Registers {
        Registers { b: (v / 256) as u8, c: (v % 256) as u8, ..self }
    }

    pub open spec fn spec_set_de(self, v: u16) -> Registers {
        Registers { d: (v / 256) as u8, e: (v % 256) as u8, ..self }
    }

    pub open spec fn spec_set_hl(self, v: u16) -> Registers {
        Registers { h: (v / 256) as u8, l: (v % 256) as u8, ..self }
    }

    pub fn get_af(&self) -> (r: u16)
        ensures
            r == self.spec_af(),
    {
        (self.a as u16) * 256 + (self.f as u16)
    }

    pub fn set_af(&mut self, value: u16)
        ensures
            *final(self) == old(self).spec_set_af(value),
            final(self).f % 16 == 0,
    {
        self.a = (value / 256) as u8;
        self.f = ((value % 256) / 16 * 16) as u8;
    }

    pub fn get_bc(&self) -> (r: u16)
        ensures
            r == self.spec_bc(),
    {
        (self.b as u16) * 256 + (self.c as u16)
    }

    pub fn set_bc(&mut self, value: u16)
        ensures
            *final(self) == old(self).spec_set_bc(value),
    {
        self.b = (value / 256) as u8;
        self.c = (value % 256) as u8;
    }

    pub fn get_de(&self) -> (r: u16)
        ensures
            r == self.spec_de(),
    {
        (self.d as u16) * 256 + (self.e as u16)
    }

    pub fn set_de(&mut self, value: u16)
        ensures
            *final(self) == old(self).spec_set_de(value),
    {
        self.d = (value / 256) as u8;
        self.e = (value % 256) as u8;
    }

    pub fn get_hl(&self) -> (r: u16)
        ensures
            r == self.spec_hl(),
    {
        (self.h as u16) * 256 + (self.l as u16)
    }

    pub fn set_hl(&mut self, value: u16)
        ensures
            *final(self) == old(self).spec_set_hl(value),
    {
        self.h = (value / 256) as u8;
        self.l = (value % 256) as u8;
    }
}

/// The SM83 core state: the register file, the pending instruction with its
/// remaining T-cycles, the previously completed operation (for the delayed
/// effect of EI), the halt state and the latched HALT bug.
pub struct CPU {
    pub registers: Registers,
    pub prev_inst: Option<InstKind>,
    pub current_inst: Option<InstKind>,
    pub clocks_to_finish: usize,
    pub is_halt: bool,
    pub is_halt_bug_occured: bool,
}

impl CPU {
    /// Well-formedness: the low nibble of F is zero, and a pending
    /// instruction is well formed with at least one T-cycle left.
    pub open spec fn wf(self) -> bool {
        &&& self.registers.f % 16 == 0
        &&& (self.current_inst matches Some(k) ==> inst_kind_wf(k) && self.clocks_to_finish >= 1)
    }
}

/// The reset-state CPU.
pub open spec fn spec_cpu_init() -> CPU {
    CPU {
        registers: Registers { a: 0, b: 0, c: 0, d: 0, e: 0, f: 0, h: 0, l: 0, sp: 0, pc: 0 },
        prev_inst: None,
        current_inst: None,
        clocks_to_finish: 0,
        is_halt: false,
        is_halt_bug_occured: false,
    }
}

/// The 16-bit value an operand names (`AddressImm` never occurs as a
/// 16-bit source; it reads as 0).
pub open spec fn spec_get16(cpu: CPU, op: Operand16) -> u16 {
    match op {
        Operand16::RegBC => cpu.registers.spec_bc(),
        Operand16::RegDE => cpu.registers.spec_de(),
        Operand16::RegHL => cpu.registers.spec_hl(),
        Operand16::RegSP => cpu.registers.sp,
        Operand16::RegAF => cpu.registers.spec_af(),
        Operand16::Imm(v) => v,
        Operand16::AddressImm(_) => 0,
    }
}

/// The byte an 8-bit operand reads.
pub open spec fn spec_get8(cpu: CPU, m: MemView, op: Operand8) -> u8 {
    match op {
        Operand8::RegA => cpu.registers.a,
        Operand8::RegB => cpu.registers.b,
        Operand8::RegC => cpu.registers.c,
        Operand8::RegD => cpu.registers.d,
        Operand8::RegE => cpu.registers.e,
        Operand8::RegH => cpu.registers.h,
        Operand8::RegL => cpu.registers.l,
        Operand8::Imm(v) => v,
        Operand8::Address(op16) => m.read(spec_get16(cpu, op16)),
        Operand8::IOPortImm(n) => m.read((0xff00 + n as int) as u16),
        Operand8::IOPortC => m.read((0xff00 + cpu.registers.c as int) as u16),
    }
}

/// The machine state after storing a byte into an 8-bit operand
/// (an immediate destination stores nowhere).
pub open spec fn spec_set8(cpu: CPU, m: MemView, op: Operand8, v: u8) -> (CPU, MemView) {
    match op {
        Operand8::RegA => (CPU { registers: Registers { a: v, ..cpu.registers }, ..cpu }, m),
        Operand8::RegB => (CPU { registers: Registers { b: v, ..cpu.registers }, ..cpu }, m),
        Operand8::RegC => (CPU { registers: Registers { c: v, ..cpu.registers }, ..cpu }, m),
        Operand8::RegD => (CPU { registers: Registers { d: v, ..cpu.registers }, ..cpu }, m),
        Operand8::RegE => (CPU { registers: Registers { e: v, ..cpu.registers }, ..cpu }, m),
        Operand8::RegH => (CPU { registers: Registers { h: v, ..cpu.registers }, ..cpu }, m),
        Operand8::RegL => (CPU { registers: Registers { l: v, ..cpu.registers }, ..cpu }, m),
        Operand8::Imm(_) => (cpu, m),
        Operand8::Address(op16) => (cpu, m.write(spec_get16(cpu, op16), v)),
        Operand8::IOPortImm(n) => (cpu, m.write((0xff00 + n as int) as u16, v)),
        Operand8::IOPortC => (cpu, m.write((0xff00 + cpu.registers.c as int) as u16, v)),
    }
}

/// The machine state after storing a word into a 16-bit operand
/// (an immediate destination stores nowhere).
pub open spec fn spec_set16(cpu: CPU, m: MemView, op: Operand16, v: u16) -> (CPU, MemView) {
    match op {
        Operand16::RegBC => (CPU { registers: cpu.registers.spec_set_bc(v), ..cpu }, m),
        Operand16::RegDE => (CPU { registers: cpu.registers.spec_set_de(v), ..cpu }, m),
        Operand16::RegHL => (CPU { registers: cpu.registers.spec_set_hl(v), ..cpu }, m),
        Operand16::RegSP => (CPU { registers: Registers { sp: v, ..cpu.registers }, ..cpu }, m),
        Operand16::RegAF => (CPU { registers: cpu.registers.spec_set_af(v), ..cpu }, m),
        Operand16::Imm(_) => (cpu, m),
        Operand16::AddressImm(a) => (cpu, m.write_word(a, v)),
    }
}

pub open spec fn spec_ex_load8(cpu: CPU, m: MemView, dst: Operand8, src: Operand8) -> (CPU, MemView) {
    let v = spec_get8(cpu, m, src);
    spec_set8(cpu, m, dst, v)
}
pub open spec fn spec_ex_load_inc_from_a(cpu: CPU, m: MemView) -> (CPU, MemView) {
    let hl = cpu.registers.spec_hl();
    let m2 = m.write(hl, cpu.registers.a);
    (CPU { registers: cpu.registers.spec_set_hl(wrap_add16(hl, 1)), ..cpu }, m2)
}
pub open spec fn spec_ex_load_inc_to_a(cpu: CPU, m: MemView) -> (CPU, MemView) {
    let hl = cpu.registers.spec_hl();
    let v = m.read(hl);
    (
        CPU {
            registers: Registers {
                a: v,
                ..cpu.registers
            }.spec_set_hl(wrap_add16(hl, 1)),
            ..cpu
        },
        m,
    )
}
pub open spec fn spec_ex_load_dec_from_a(cpu: CPU, m: MemView) -> (CPU, MemView) {
    let hl = cpu.registers.spec_hl();
    let m2 = m.write(hl, cpu.registers.a);
    (CPU { registers: cpu.registers.spec_set_hl(wrap_sub16(hl, 1)), ..cpu }, m2)
}
pub open spec fn spec_ex_load_dec_to_a(cpu: CPU, m: MemView) -> (CPU, MemView) {
    let hl = cpu.registers.spec_hl();
    let v = m.read(hl);
    (
        CPU {
            registers: Registers {
                a: v,
                ..cpu.registers
            }.spec_set_hl(wrap_sub16(hl, 1)),
            ..cpu
        },
        m,
    )
}
pub open spec fn spec_ex_load16(cpu: CPU, m: MemView, dst: Operand16, src: Operand16) -> (CPU, MemView) {
    let v = spec_get16(cpu, src);
    spec_set16(cpu, m, dst, v)
}
pub open spec fn spec_ex_add_and_load_hl(cpu: CPU, m: MemView, n: i8) -> (CPU, MemView) {
    let a = cpu.registers.sp;
    let b = sign_ext(n);
    let value = wrap_add16(a, b);
    let f2 = Flags {
        z: false,
        n: false,
        h: a % 16 + b % 16 > 15,
        c: a % 256 + b % 256 > 255,
    };
    (
        CPU {
            registers: Registers {
                f: spec_flag_bits(f2),
                ..cpu.registers
            }.spec_set_hl(value),
            ..cpu
        },
        m,
    )
}
pub open spec fn spec_ex_push(cpu: CPU, m: MemView, op: Operand16) -> (CPU, MemView) {
    let v = spec_get16(cpu, op);
    let sp2 = wrap_sub16(cpu.registers.sp, 2);
    let m2 = m.write_word(sp2, v);
    (CPU { registers: Registers { sp: sp2, ..cpu.registers }, ..cpu }, m2)
}
pub open spec fn spec_ex_pop(cpu: CPU, m: MemView, op: Operand16) -> (CPU, MemView) {
    let v = m.read_word(cpu.registers.sp);
    let cpu2 = CPU {
        registers: Registers {
            sp: wrap_add16(cpu.registers.sp, 2),
            ..cpu.registers
        },
        ..cpu
    };
    spec_set16(cpu2, m, op, v)
}
pub open spec fn spec_ex_add8(cpu: CPU, m: MemView, op: Operand8) -> (CPU, MemView) {
    let a = cpu.registers.a;
    let b = spec_get8(cpu, m, op);
    let value = ((a + b) % 256) as u8;
    let f2 = Flags { z: value == 0, n: false, h: a % 16 + b % 16 > 15, c: a + b > 255 };
    (
        CPU {
            registers: Registers { a: value, f: spec_flag_bits(f2), ..cpu.registers },
            ..cpu
        },
        m,
    )
}
pub open spec fn spec_ex_add_carry8(cpu: CPU, m: MemView, op: Operand8) -> (CPU, MemView) {
    let fl = spec_flags_of(cpu.registers.f);
    let a = cpu.registers.a;
    let b = spec_get8(cpu, m, op);
    let cy: int = if fl.c {
        1
    } else {
        0
    };
    let value = ((a + b + cy) % 256) as u8;
    let f2 = Flags {
        z: value == 0,
        n: false,
        h: a % 16 + b % 16 + cy > 15,
        c: a + b + cy > 255,
    };
    (
        CPU {
            registers: Registers { a: value, f: spec_flag_bits(f2), ..cpu.registers },
            ..cpu
        },
        m,
    )
}
pub open spec fn spec_ex_add_hl(cpu: CPU, m: MemView, op: Operand16) -> (CPU, MemView) {
    let fl = spec_flags_of(cpu.registers.f);
    let a = cpu.registers.spec_hl();
    let b = spec_get16(cpu, op);
    let value = wrap_add16(a, b);
    let f2 = Flags {
        z: fl.z,
        n: false,
        h: a % 0x1000 + b % 0x1000 > 0xfff,
        c: a + b > 0xffff,
    };
    (
        CPU {
            registers: Registers {
                f: spec_flag_bits(f2),
                ..cpu.registers
            }.spec_set_hl(value),
            ..cpu
        },
        m,
    )
}
pub open spec fn spec_ex_add_sp(cpu: CPU, m: MemView, n: i8) -> (CPU, MemView) {
    let a = cpu.registers.sp;
    let b = sign_ext(n);
    let value = wrap_add16(a, b);
    let f2 = Flags {
        z: false,
        n: false,
        h: a % 16 + b % 16 > 15,
        c: a % 256 + b % 256 > 255,
    };
    (
        CPU {
            registers: Registers { sp: value, f: spec_flag_bits(f2), ..cpu.registers },
            ..cpu
        },
        m,
    )
}
pub open spec fn spec_ex_sub8(cpu: CPU, m: MemView, op: Operand8) -> (CPU, MemView) {
    let a = cpu.registers.a;
    let b = spec_get8(cpu, m, op);
    let value = ((a + 256 - b) % 256) as u8;
    let f2 = Flags { z: value == 0, n: true, h: a % 16 < b % 16, c: a < b };
    (
        CPU {
            registers: Registers { a: value, f: spec_flag_bits(f2), ..cpu.registers },
            ..cpu
        },
        m,
    )
}
pub open spec fn spec_ex_sub_carry8(cpu: CPU, m: MemView, op: Operand8) -> (CPU, MemView) {
    let fl = spec_flags_of(cpu.registers.f);
    let a = cpu.registers.a;
    let b = spec_get8(cpu, m, op);
    let cy: int = if fl.c {
        1
    } else {
        0
    };
    let value = ((a + 512 - b - cy) % 256) as u8;
    let f2 = Flags {
        z: value == 0,
        n: true,
        h: (a % 16) < b % 16 + cy,
        c: (a as int) < b + cy,
    };
    (
        CPU {
            registers: Registers { a: value, f: spec_flag_bits(f2), ..cpu.registers },
            ..cpu
        },
        m,
    )
}
pub open spec fn spec_ex_and8(cpu: CPU, m: MemView, op: Operand8) -> (CPU, MemView) {
    let value = cpu.registers.a & spec_get8(cpu, m, op);
    let f2 = Flags { z: value == 0, n: false, h: true, c: false };
    (
        CPU {
            registers: Registers { a: value, f: spec_flag_bits(f2), ..cpu.registers },
            ..cpu
        },
        m,
    )
}
pub open spec fn spec_ex_or8(cpu: CPU, m: MemView, op: Operand8) -> (CPU, MemView) {
    let value = cpu.registers.a | spec_get8(cpu, m, op);
    let f2 = Flags { z: value == 0, n: false, h: false, c: false };
    (
        CPU {
            registers: Registers { a: value, f: spec_flag_bits(f2), ..cpu.registers },
            ..cpu
        },
        m,
    )
}
pub open spec fn spec_ex_xor8(cpu: CPU, m: MemView, op: Operand8) -> (CPU, MemView) {
    let value = cpu.registers.a ^ spec_get8(cpu, m, op);
    let f2 = Flags { z: value == 0, n: false, h: false, c: false };
    (
        CPU {
            registers: Registers { a: value, f: spec_flag_bits(f2), ..cpu.registers },
            ..cpu
        },
        m,
    )
}
pub open spec fn spec_ex_compare8(cpu: CPU, m: MemView, op: Operand8) -> (CPU, MemView) {
    let a = cpu.registers.a;
    let b = spec_get8(cpu, m, op);
    let value = ((a + 256 - b) % 256) as u8;
    let f2 = Flags { z: value == 0, n: true, h: a % 16 < b % 16, c: a < b };
    (
        CPU { registers: Registers { f: spec_flag_bits(f2), ..cpu.registers }, ..cpu },
        m,
    )
}
pub open spec fn spec_ex_inc8(cpu: CPU, m: MemView, op: Operand8) -> (CPU, MemView) {
    let fl = spec_flags_of(cpu.registers.f);
    let a = spec_get8(cpu, m, op);
    let value = ((a + 1) % 256) as u8;
    let (c2, m2) = spec_set8(cpu, m, op, value);
    let f2 = Flags { z: value == 0, n: false, h: a % 16 == 15, c: fl.c };
    (CPU { registers: Registers { f: spec_flag_bits(f2), ..c2.registers }, ..c2 }, m2)
}
pub open spec fn spec_ex_dec8(cpu: CPU, m: MemView, op: Operand8) -> (CPU, MemView) {
    let fl = spec_flags_of(cpu.registers.f);
    let a = spec_get8(cpu, m, op);
    let value = ((a + 255) % 256) as u8;
    let (c2, m2) = spec_set8(cpu, m, op, value);
    let f2 = Flags { z: value == 0, n: true, h: a % 16 == 0, c: fl.c };
    (CPU { registers: Registers { f: spec_flag_bits(f2), ..c2.registers }, ..c2 }, m2)
}
pub open spec fn spec_ex_inc16(cpu: CPU, m: MemView, op: Operand16) -> (CPU, MemView) {
    let v = spec_get16(cpu, op);
    spec_set16(cpu, m, op, wrap_add16(v, 1))
}
pub open spec fn spec_ex_dec16(cpu: CPU, m: MemView, op: Operand16) -> (CPU, MemView) {
    let v = spec_get16(cpu, op);
    spec_set16(cpu, m, op, wrap_sub16(v, 1))
}
pub open spec fn spec_ex_decimal_adjust_a(cpu: CPU, m: MemView) -> (CPU, MemView) {
    let fl = spec_flags_of(cpu.registers.f);
    let a = cpu.registers.a;
    let lo: int = if fl.h || (!fl.n && a % 16 > 0x9) {
        0x6
    } else {
        0
    };
    let carry = fl.c || (!fl.n && a > 0x99);
    let correction: int = lo + if carry {
        0x60int
    } else {
        0int
    };
    let value = if fl.n {
        ((a + 256 - correction) % 256) as u8
    } else {
        ((a + correction) % 256) as u8
    };
    let f2 = Flags { z: value == 0, n: fl.n, h: false, c: carry };
    (
        CPU {
            registers: Registers { a: value, f: spec_flag_bits(f2), ..cpu.registers },
            ..cpu
        },
        m,
    )
}
pub open spec fn spec_ex_complement_a(cpu: CPU, m: MemView) -> (CPU, MemView) {
    let fl = spec_flags_of(cpu.registers.f);
    let value = cpu.registers.a ^ 0xff;
    let f2 = Flags { z: fl.z, n: true, h: true, c: fl.c };
    (
        CPU {
            registers: Registers { a: value, f: spec_flag_bits(f2), ..cpu.registers },
            ..cpu
        },
        m,
    )
}
pub open spec fn spec_ex_rotate_a_left(cpu: CPU, m: MemView) -> (CPU, MemView) {
    let a = cpu.registers.a;
    let value = ((a % 128) * 2 + a / 128) as u8;
    let f2 = Flags { z: false, n: false, h: false, c: a >= 128 };
    (
        CPU {
            registers: Registers { a: value, f: spec_flag_bits(f2), ..cpu.registers },
            ..cpu
        },
        m,
    )
}
pub open spec fn spec_ex_rotate_a_left_carry(cpu: CPU, m: MemView) -> (CPU, MemView) {
    let fl = spec_flags_of(cpu.registers.f);
    let a = cpu.registers.a;
    let cy: int = if fl.c {
        1
    } else {
        0
    };
    let value = ((a % 128) * 2 + cy) as u8;
    let f2 = Flags { z: false, n: false, h: false, c: a >= 128 };
    (
        CPU {
            registers: Registers { a: value, f: spec_flag_bits(f2), ..cpu.registers },
            ..cpu
        },
        m,
    )
}
pub open spec fn spec_ex_rotate_a_right(cpu: CPU, m: MemView) -> (CPU, MemView) {
    let a = cpu.registers.a;
    let value = (a / 2 + (a % 2) * 128) as u8;
    let f2 = Flags { z: false, n: false, h: false, c: a % 2 == 1 };
    (
        CPU {
            registers: Registers { a: value, f: spec_flag_bits(f2), ..cpu.registers },
            ..cpu
        },
        m,
    )
}
pub open spec fn spec_ex_rotate_a_right_carry(cpu: CPU, m: MemView) -> (CPU, MemView) {
    let fl = spec_flags_of(cpu.registers.f);
    let a = cpu.registers.a;
    let cy: int = if fl.c {
        1
    } else {
        0
    };
    let value = (a / 2 + cy * 128) as u8;
    let f2 = Flags { z: false, n: false, h: false, c: a % 2 == 1 };
    (
        CPU {
            registers: Registers { a: value, f: spec_flag_bits(f2), ..cpu.registers },
            ..cpu
        },
        m,
    )
}
pub open spec fn spec_ex_rotate_left(cpu: CPU, m: MemView, op: Operand8) -> (CPU, MemView) {
    let a = spec_get8(cpu, m, op);
    let value = ((a % 128) * 2 + a / 128) as u8;
    let (c2, m2) = spec_set8(cpu, m, op, value);
    let f2 = Flags { z: value == 0, n: false, h: false, c: a >= 128 };
    (CPU { registers: Registers { f: spec_flag_bits(f2), ..c2.registers }, ..c2 }, m2)
}
pub open spec fn spec_ex_rotate_left_carry(cpu: CPU, m: MemView, op: Operand8) -> (CPU, MemView) {
    let fl = spec_flags_of(cpu.registers.f);
    let a = spec_get8(cpu, m, op);
    let cy: int = if fl.c {
        1
    } else {
        0
    };
    let value = ((a % 128) * 2 + cy) as u8;
    let (c2, m2) = spec_set8(cpu, m, op, value);
    let f2 = Flags { z: value == 0, n: false, h: false, c: a >= 128 };
    (CPU { registers: Registers { f: spec_flag_bits(f2), ..c2.registers }, ..c2 }, m2)
}
pub open spec fn spec_ex_rotate_right(cpu: CPU, m: MemView, op: Operand8) -> (CPU, MemView) {
    let a = spec_get8(cpu, m, op);
    let value = (a / 2 + (a % 2) * 128) as u8;
    let (c2, m2) = spec_set8(cpu, m, op, value);
    let f2 = Flags { z: value == 0, n: false, h: false, c: a % 2 == 1 };
    (CPU { registers: Registers { f: spec_flag_bits(f2), ..c2.registers }, ..c2 }, m2)
}
pub open spec fn spec_ex_rotate_right_carry(cpu: CPU, m: MemView, op: Operand8) -> (CPU, MemView) {
    let fl = spec_flags_of(cpu.registers.f);
    let a = spec_get8(cpu, m, op);
    let cy: int = if fl.c {
        1
    } else {
        0
    };
    let value = (a / 2 + cy * 128) as u8;
    let (c2, m2) = spec_set8(cpu, m, op, value);
    let f2 = Flags { z: value == 0, n: false, h: false, c: a % 2 == 1 };
    (CPU { registers: Registers { f: spec_flag_bits(f2), ..c2.registers }, ..c2 }, m2)
}
pub open spec fn spec_ex_shift_left_arithmetic(cpu: CPU, m: MemView, op: Operand8) -> (CPU, MemView) {
    let a = spec_get8(cpu, m, op);
    let value = ((a % 128) * 2) as u8;
    let (c2, m2) = spec_set8(cpu, m, op, value);
    let f2 = Flags { z: value == 0, n: false, h: false, c: a >= 128 };
    (CPU { registers: Registers { f: spec_flag_bits(f2), ..c2.registers }, ..c2 }, m2)
}
pub open spec fn spec_ex_shift_right_arithmetic(cpu: CPU, m: MemView, op: Operand8) -> (CPU, MemView) {
    let a = spec_get8(cpu, m, op);
    let value = (a / 2 + (a / 128) * 128) as u8;
    let (c2, m2) = spec_set8(cpu, m, op, value);
    let f2 = Flags { z: value == 0, n: false, h: false, c: a % 2 == 1 };
    (CPU { registers: Registers { f: spec_flag_bits(f2), ..c2.registers }, ..c2 }, m2)
}
pub open spec fn spec_ex_shift_right_logical(cpu: CPU, m: MemView, op: Operand8) -> (CPU, MemView) {
    let a = spec_get8(cpu, m, op);
    let value = (a / 2) as u8;
    let (c2, m2) = spec_set8(cpu, m, op, value);
    let f2 = Flags { z: value == 0, n: false, h: false, c: a % 2 == 1 };
    (CPU { registers: Registers { f: spec_flag_bits(f2), ..c2.registers }, ..c2 }, m2)
}
pub open spec fn spec_ex_swap(cpu: CPU, m: MemView, op: Operand8) -> (CPU, MemView) {
    let a = spec_get8(cpu, m, op);
    let value = ((a % 16) * 16 + a / 16) as u8;
    let (c2, m2) = spec_set8(cpu, m, op, value);
    let f2 = Flags { z: value == 0, n: false, h: false, c: false };
    (CPU { registers: Registers { f: spec_flag_bits(f2), ..c2.registers }, ..c2 }, m2)
}
pub open spec fn spec_ex_test_bit(cpu: CPU, m: MemView, n: usize, op: Operand8) -> (CPU, MemView) {
    let fl = spec_flags_of(cpu.registers.f);
    let a = spec_get8(cpu, m, op);
    let f2 = Flags { z: (a / spec_pow2(n as int)) % 2 == 0, n: false, h: true, c: fl.c };
    (CPU { registers: Registers { f: spec_flag_bits(f2), ..cpu.registers }, ..cpu }, m)
}
pub open spec fn spec_ex_set_bit(cpu: CPU, m: MemView, n: usize, op: Operand8) -> (CPU, MemView) {
    let a = spec_get8(cpu, m, op);
    spec_set8(cpu, m, op, a | spec_pow2(n as int))
}
pub open spec fn spec_ex_reset_bit(cpu: CPU, m: MemView, n: usize, op: Operand8) -> (CPU, MemView) {
    let a = spec_get8(cpu, m, op);
    spec_set8(cpu, m, op, a & (0xff ^ spec_pow2(n as int)))
}
pub open spec fn spec_ex_complement_carry_flag(cpu: CPU, m: MemView) -> (CPU, MemView) {
    let fl = spec_flags_of(cpu.registers.f);
    let f2 = Flags { z: fl.z, n: false, h: false, c: !fl.c };
    (CPU { registers: Registers { f: spec_flag_bits(f2), ..cpu.registers }, ..cpu }, m)
}
pub open spec fn spec_ex_set_carry_flag(cpu: CPU, m: MemView) -> (CPU, MemView) {
    let fl = spec_flags_of(cpu.registers.f);
    let f2 = Flags { z: fl.z, n: false, h: false, c: true };
    (CPU { registers: Registers { f: spec_flag_bits(f2), ..cpu.registers }, ..cpu }, m)
}
pub open spec fn spec_ex_halt(cpu: CPU, m: MemView) -> (CPU, MemView) {
    if cpu.is_halt {
        (cpu, m)
    } else {
        let pending = m.interrupt_flag & m.interrupt_enable & 0x1f;
        if !m.interrupt_master_enable && pending != 0 {
            (CPU { is_halt_bug_occured: true, ..cpu }, m)
        } else {
            (CPU { is_halt: true, ..cpu }, m)
        }
    }
}
pub open spec fn spec_ex_disable_interrupt(cpu: CPU, m: MemView) -> (CPU, MemView) {
    (cpu, MemView { interrupt_master_enable: false, ..m })

}
pub open spec fn spec_ex_jump_imm(cpu: CPU, m: MemView, addr: u16) -> (CPU, MemView) {
    (
    CPU { registers: Registers { pc: addr, ..cpu.registers }, ..cpu },
    m,
)
}
pub open spec fn spec_ex_jump_hl(cpu: CPU, m: MemView) -> (CPU, MemView) {
    (
    CPU { registers: Registers { pc: cpu.registers.spec_hl(), ..cpu.registers }, ..cpu },
    m,
)
}
pub open spec fn spec_ex_jump_cond_imm(cpu: CPU, m: MemView, cond: JumpCond, addr: u16) -> (CPU, MemView) {
    let fl = spec_flags_of(cpu.registers.f);
    if spec_cond_met(cond, fl) {
        (
            CPU { current_inst: Some(InstKind::JumpImm(addr)), clocks_to_finish: 4, ..cpu },
            m,
        )
    } else {
        (cpu, m)
    }
}
pub open spec fn spec_ex_jump_rel(cpu: CPU, m: MemView, offset: i8) -> (CPU, MemView) {
    (
    CPU {
        registers: Registers {
            pc: wrap_add16(cpu.registers.pc, sign_ext(offset)),
            ..cpu.registers
        },
        ..cpu
    },
    m,
)
}
pub open spec fn spec_ex_jump_cond_rel(cpu: CPU, m: MemView, cond: JumpCond, offset: i8) -> (CPU, MemView) {
    let fl = spec_flags_of(cpu.registers.f);
    if spec_cond_met(cond, fl) {
        (
            CPU {
                current_inst: Some(InstKind::JumpRel(offset)),
                clocks_to_finish: 4,
                ..cpu
            },
            m,
        )
    } else {
        (cpu, m)
    }
}
pub open spec fn spec_ex_call_imm(cpu: CPU, m: MemView, addr: u16) -> (CPU, MemView) {
    let sp2 = wrap_sub16(cpu.registers.sp, 2);
    let m2 = m.write_word(sp2, cpu.registers.pc);
    (CPU { registers: Registers { sp: sp2, pc: addr, ..cpu.registers }, ..cpu }, m2)
}
pub open spec fn spec_ex_call_cond_imm(cpu: CPU, m: MemView, cond: JumpCond, addr: u16) -> (CPU, MemView) {
    let fl = spec_flags_of(cpu.registers.f);
    if spec_cond_met(cond, fl) {
        (
            CPU {
                current_inst: Some(InstKind::CallImm(addr)),
                clocks_to_finish: 12,
                ..cpu
            },
            m,
        )
    } else {
        (cpu, m)
    }
}
pub open spec fn spec_ex_return(cpu: CPU, m: MemView) -> (CPU, MemView) {
    let addr = m.read_word(cpu.registers.sp);
    (
        CPU {
            registers: Registers {
                pc: addr,
                sp: wrap_add16(cpu.registers.sp, 2),
                ..cpu.registers
            },
            ..cpu
        },
        m,
    )
}
pub open spec fn spec_ex_return_cond(cpu: CPU, m: MemView, cond: JumpCond) -> (CPU, MemView) {
    let fl = spec_flags_of(cpu.registers.f);
    if spec_cond_met(cond, fl) {
        (
            CPU { current_inst: Some(InstKind::Return), clocks_to_finish: 12, ..cpu },
            m,
        )
    } else {
        (cpu, m)
    }
}
pub open spec fn spec_ex_return_enable_interrupt(cpu: CPU, m: MemView) -> (CPU, MemView) {
    let addr = m.read_word(cpu.registers.sp);
    (
        CPU {
            registers: Registers {
                pc: addr,
                sp: wrap_add16(cpu.registers.sp, 2),
                ..cpu.registers
            },
            ..cpu
        },
        MemView { interrupt_master_enable: true, ..m },
    )
}
pub open spec fn spec_ex_restart(cpu: CPU, m: MemView, addr: u16) -> (CPU, MemView) {
    let sp2 = wrap_sub16(cpu.registers.sp, 2);
    let m2 = m.write_word(sp2, cpu.registers.pc);
    (CPU { registers: Registers { sp: sp2, pc: addr, ..cpu.registers }, ..cpu }, m2)
}

/// The machine state after committing one operation: the new CPU state and
/// the new bus state.
pub open spec fn spec_execute(cpu: CPU, m: MemView, inst: InstKind) -> (CPU, MemView) {
    match inst {
        InstKind::Nop => (cpu, m),
        InstKind::Load8(dst, src) => spec_ex_load8(cpu, m, dst, src),
        InstKind::LoadIncFromA => spec_ex_load_inc_from_a(cpu, m),
        InstKind::LoadIncToA => spec_ex_load_inc_to_a(cpu, m),
        InstKind::LoadDecFromA => spec_ex_load_dec_from_a(cpu, m),
        InstKind::LoadDecToA => spec_ex_load_dec_to_a(cpu, m),
        InstKind::Load16(dst, src) => spec_ex_load16(cpu, m, dst, src),
        InstKind::AddAndLoadHL(n) => spec_ex_add_and_load_hl(cpu, m, n),
        InstKind::Push(op) => spec_ex_push(cpu, m, op),
        InstKind::Pop(op) => spec_ex_pop(cpu, m, op),
        InstKind::Add8(op) => spec_ex_add8(cpu, m, op),
        InstKind::AddCarry8(op) => spec_ex_add_carry8(cpu, m, op),
        InstKind::AddHL(op) => spec_ex_add_hl(cpu, m, op),
        InstKind::AddSP(n) => spec_ex_add_sp(cpu, m, n),
        InstKind::Sub8(op) => spec_ex_sub8(cpu, m, op),
        InstKind::SubCarry8(op) => spec_ex_sub_carry8(cpu, m, op),
        InstKind::And8(op) => spec_ex_and8(cpu, m, op),
        InstKind::Or8(op) => spec_ex_or8(cpu, m, op),
        InstKind::Xor8(op) => spec_ex_xor8(cpu, m, op),
        InstKind::Compare8(op) => spec_ex_compare8(cpu, m, op),
        InstKind::Inc8(op) => spec_ex_inc8(cpu, m, op),
        InstKind::Dec8(op) => spec_ex_dec8(cpu, m, op),
        InstKind::Inc16(op) => spec_ex_inc16(cpu, m, op),
        InstKind::Dec16(op) => spec_ex_dec16(cpu, m, op),
        InstKind::DecimalAdjustA => spec_ex_decimal_adjust_a(cpu, m),
        InstKind::ComplementA => spec_ex_complement_a(cpu, m),
        InstKind::RotateALeft => spec_ex_rotate_a_left(cpu, m),
        InstKind::RotateALeftCarry => spec_ex_rotate_a_left_carry(cpu, m),
        InstKind::RotateARight => spec_ex_rotate_a_right(cpu, m),
        InstKind::RotateARightCarry => spec_ex_rotate_a_right_carry(cpu, m),
        InstKind::RotateLeft(op) => spec_ex_rotate_left(cpu, m, op),
        InstKind::RotateLeftCarry(op) => spec_ex_rotate_left_carry(cpu, m, op),
        InstKind::RotateRight(op) => spec_ex_rotate_right(cpu, m, op),
        InstKind::RotateRightCarry(op) => spec_ex_rotate_right_carry(cpu, m, op),
        InstKind::ShiftLeftArithmetic(op) => spec_ex_shift_left_arithmetic(cpu, m, op),
        InstKind::ShiftRightArithmetic(op) => spec_ex_shift_right_arithmetic(cpu, m, op),
        InstKind::ShiftRightLogical(op) => spec_ex_shift_right_logical(cpu, m, op),
        InstKind::Swap(op) => spec_ex_swap(cpu, m, op),
        InstKind::TestBit(n, op) => spec_ex_test_bit(cpu, m, n, op),
        InstKind::SetBit(n, op) => spec_ex_set_bit(cpu, m, n, op),
        InstKind::ResetBit(n, op) => spec_ex_reset_bit(cpu, m, n, op),
        InstKind::ComplementCarryFlag => spec_ex_complement_carry_flag(cpu, m),
        InstKind::SetCarryFlag => spec_ex_set_carry_flag(cpu, m),
        InstKind::Halt => spec_ex_halt(cpu, m),
        InstKind::Stop => (cpu, m),
        InstKind::DisableInterrupt => spec_ex_disable_interrupt(cpu, m),
        InstKind::EnableInterrupt => (cpu, m),
        InstKind::JumpImm(addr) => spec_ex_jump_imm(cpu, m, addr),
        InstKind::JumpHL => spec_ex_jump_hl(cpu, m),
        InstKind::JumpCondImm(cond, addr) => spec_ex_jump_cond_imm(cpu, m, cond, addr),
        InstKind::JumpRel(offset) => spec_ex_jump_rel(cpu, m, offset),
        InstKind::JumpCondRel(cond, offset) => spec_ex_jump_cond_rel(cpu, m, cond, offset),
        InstKind::CallImm(addr) => spec_ex_call_imm(cpu, m, addr),
        InstKind::CallCondImm(cond, addr) => spec_ex_call_cond_imm(cpu, m, cond, addr),
        InstKind::Return => spec_ex_return(cpu, m),
        InstKind::ReturnCond(cond) => spec_ex_return_cond(cpu, m, cond),
        InstKind::ReturnEnableInterrupt => spec_ex_return_enable_interrupt(cpu, m),
        InstKind::Restart(addr) => spec_ex_restart(cpu, m, addr),
    }
}

/// Advance the program counter by `k`, wrapping.
pub open spec fn spec_adv(cpu: CPU, k: u16) -> CPU {
    CPU {
        registers: Registers { pc: wrap_add16(cpu.registers.pc, k), ..cpu.registers },
        ..cpu
    }
}

/// Substitute the immediate operands that follow the opcode into a
/// dispatch-table entry, advancing the program counter past them.
pub open spec fn spec_fetch_imm(cpu: CPU, m: MemView, inst: Inst) -> (CPU, Inst) {
    let pc = cpu.registers.pc;
    match inst.kind {
        InstKind::Load8(dst, Operand8::Imm(_)) => {
            let v = m.read(pc);
            (spec_adv(cpu, 1), Inst { kind: InstKind::Load8(dst, Operand8::Imm(v)), ..inst })
        },
        InstKind::Load8(dst, Operand8::Address(Operand16::Imm(_))) => {
            let v = m.read_word(pc);
            (
                spec_adv(cpu, 2),
                Inst {
                    kind: InstKind::Load8(dst, Operand8::Address(Operand16::Imm(v))),
                    ..inst
                },
            )
        },
        InstKind::Load8(Operand8::Address(Operand16::Imm(_)), src) => {
            let v = m.read_word(pc);
            (
                spec_adv(cpu, 2),
                Inst {
                    kind: InstKind::Load8(Operand8::Address(Operand16::Imm(v)), src),
                    ..inst
                },
            )
        },
        InstKind::Load8(dst, Operand8::IOPortImm(_)) => {
            let v = m.read(pc);
            (
                spec_adv(cpu, 1),
                Inst { kind: InstKind::Load8(dst, Operand8::IOPortImm(v)), ..inst },
            )
        },
        InstKind::Load8(Operand8::IOPortImm(_), src) => {
            let v = m.read(pc);
            (
                spec_adv(cpu, 1),
                Inst { kind: InstKind::Load8(Operand8::IOPortImm(v), src), ..inst },
            )
        },
        InstKind::Load16(dst, Operand16::Imm(_)) => {
            let v = m.read_word(pc);
            (spec_adv(cpu, 2), Inst { kind: InstKind::Load16(dst, Operand16::Imm(v)), ..inst })
        },
        InstKind::Load16(Operand16::AddressImm(_), src) => {
            let v = m.read_word(pc);
            (
                spec_adv(cpu, 2),
                Inst { kind: InstKind::Load16(Operand16::AddressImm(v), src), ..inst },
            )
        },
        InstKind::Add8(Operand8::Imm(_)) => {
            let v = m.read(pc);
            (spec_adv(cpu, 1), Inst { kind: InstKind::Add8(Operand8::Imm(v)), ..inst })
        },
        InstKind::AddCarry8(Operand8::Imm(_)) => {
            let v = m.read(pc);
            (spec_adv(cpu, 1), Inst { kind: InstKind::AddCarry8(Operand8::Imm(v)), ..inst })
        },
        InstKind::Sub8(Operand8::Imm(_)) => {
            let v = m.read(pc);
            (spec_adv(cpu, 1), Inst { kind: InstKind::Sub8(Operand8::Imm(v)), ..inst })
        },
        InstKind::SubCarry8(Operand8::Imm(_)) => {
            let v = m.read(pc);
            (spec_adv(cpu, 1), Inst { kind: InstKind::SubCarry8(Operand8::Imm(v)), ..inst })
        },
        InstKind::And8(Operand8::Imm(_)) => {
            let v = m.read(pc);
            (spec_adv(cpu, 1), Inst { kind: InstKind::And8(Operand8::Imm(v)), ..inst })
        },
        InstKind::Xor8(Operand8::Imm(_)) => {
            let v = m.read(pc);
            (spec_adv(cpu, 1), Inst { kind: InstKind::Xor8(Operand8::Imm(v)), ..inst })
        },
        InstKind::Or8(Operand8::Imm(_)) => {
            let v = m.read(pc);
            (spec_adv(cpu, 1), Inst { kind: InstKind::Or8(Operand8::Imm(v)), ..inst })
        },
        InstKind::Compare8(Operand8::Imm(_)) => {
            let v = m.read(pc);
            (spec_adv(cpu, 1), Inst { kind: InstKind::Compare8(Operand8::Imm(v)), ..inst })
        },
        InstKind::AddSP(_) => {
            let v = m.read(pc);
            (spec_adv(cpu, 1), Inst { kind: InstKind::AddSP(v as i8), ..inst })
        },
        InstKind::AddAndLoadHL(_) => {
            let v = m.read(pc);
            (spec_adv(cpu, 1), Inst { kind: InstKind::AddAndLoadHL(v as i8), ..inst })
        },
        InstKind::JumpImm(_) => {
            let v = m.read_word(pc);
            (spec_adv(cpu, 2), Inst { kind: InstKind::JumpImm(v), ..inst })
        },
        InstKind::JumpCondImm(cond, _) => {
            let v = m.read_word(pc);
            (spec_adv(cpu, 2), Inst { kind: InstKind::JumpCondImm(cond, v), ..inst })
        },
        InstKind::JumpRel(_) => {
            let v = m.read(pc);
            (spec_adv(cpu, 1), Inst { kind: InstKind::JumpRel(v as i8), ..inst })
        },
        InstKind::JumpCondRel(cond, _) => {
            let v = m.read(pc);
            (spec_adv(cpu, 1), Inst { kind: InstKind::JumpCondRel(cond, v as i8), ..inst })
        },
        InstKind::CallImm(_) => {
            let v = m.read_word(pc);
            (spec_adv(cpu, 2), Inst { kind: InstKind::CallImm(v), ..inst })
        },
        InstKind::CallCondImm(cond, _) => {
            let v = m.read_word(pc);
            (spec_adv(cpu, 2), Inst { kind: InstKind::CallCondImm(cond, v), ..inst })
        },
        _ => (cpu, inst),
    }
}

/// Fetch and decode one instruction at PC: the new CPU state (PC advanced
/// past opcode and immediates, HALT-bug latch consumed) and the decoded
/// instruction.
///
/// A latched HALT bug suppresses the PC increment of the opcode fetch once.
/// An undefined primary opcode leaves PC on the offending byte and yields a
/// 4-cycle no-op, so the processor spins there forever, like the hardware,
/// which hangs on undefined opcodes.
pub open spec fn spec_decode(cpu: CPU, m: MemView) -> (CPU, Inst) {
    let pc0 = cpu.registers.pc;
    let op = m.read(pc0);
    let cpu1 = if cpu.is_halt_bug_occured {
        CPU { is_halt_bug_occured: false, ..cpu }
    } else {
        spec_adv(cpu, 1)
    };
    if op == 0xcb {
        let op2 = m.read(cpu1.registers.pc);
        (spec_adv(cpu1, 1), spec_sub_inst(op2))
    } else {
        match spec_main_inst(op) {
            Some(inst) => spec_fetch_imm(cpu1, m, inst),
            None => (
                CPU { registers: Registers { pc: pc0, ..cpu1.registers }, ..cpu1 },
                Inst { opcode: op as usize, kind: InstKind::Nop, clocks: 4, length: 1 },
            ),
        }
    }
}

/// One T-cycle of the CPU: start an instruction if none is pending (idle
/// halt cycles, interrupt dispatch, or fetch/decode), count one cycle down,
/// and commit the operation when its last cycle elapses. A completed EI
/// takes effect when the following instruction completes, before that
/// instruction's own effect.
pub open spec fn spec_cpu_tick(cpu: CPU, m: MemView) -> (CPU, MemView) {
    let pending = m.interrupt_flag & m.interrupt_enable & 0x1f;
    let (cpu1, m1): (CPU, MemView) = if cpu.current_inst is None {
        if cpu.is_halt && pending == 0 {
            (CPU { current_inst: Some(InstKind::Halt), clocks_to_finish: 4, ..cpu }, m)
        } else if m.interrupt_master_enable && pending != 0 {
            let i: int = if pending % 2 == 1 {
                0
            } else if (pending / 2) % 2 == 1 {
                1
            } else if (pending / 4) % 2 == 1 {
                2
            } else if (pending / 8) % 2 == 1 {
                3
            } else {
                4
            };
            (
                CPU {
                    current_inst: Some(InstKind::CallImm((0x40 + 8 * i) as u16)),
                    clocks_to_finish: 20,
                    is_halt: false,
                    ..cpu
                },
                MemView {
                    interrupt_master_enable: false,
                    interrupt_flag: (m.interrupt_flag - spec_pow2(i)) as u8,
                    ..m
                },
            )
        } else {
            let (c2, inst) = spec_decode(cpu, m);
            (
                CPU {
                    current_inst: Some(inst.kind),
                    clocks_to_finish: inst.clocks,
                    is_halt: false,
                    ..c2
                },
                m,
            )
        }
    } else {
        (cpu, m)
    };
    let cpu2 = CPU { clocks_to_finish: (cpu1.clocks_to_finish - 1) as usize, ..cpu1 };
    if cpu2.clocks_to_finish == 0 {
        match cpu1.current_inst {
            Some(inst) => {
                let cpu3 = CPU { current_inst: None, ..cpu2 };
                let m2 = if cpu1.prev_inst == Some(InstKind::EnableInterrupt) {
                    MemView { interrupt_master_enable: true, ..m1 }
                } else {
                    m1
                };
                let (cpu4, m3) = spec_execute(cpu3, m2, inst);
                (CPU { prev_inst: Some(inst), ..cpu4 }, m3)
            },
            None => (cpu2, m1),
        }
    } else {
        (cpu2, m1)
    }
}

/// Bit `i` of the masked pending-interrupt byte can only be set when the
/// same bit is set in the raw interrupt flag, and the mask keeps the value
/// below 32.
proof fn lemma_pending_bits(f: u8, e: u8)
    by (bit_vector)
    ensures
        (f & e & 0x1f) < 32,
        ((f & e & 0x1f) / 1) % 2 == 1 ==> (f / 1) % 2 == 1,
        ((f & e & 0x1f) / 2) % 2 == 1 ==> (f / 2) % 2 == 1,
        ((f & e & 0x1f) / 4) % 2 == 1 ==> (f / 4) % 2 == 1,
        ((f & e & 0x1f) / 8) % 2 == 1 ==> (f / 8) % 2 == 1,
        ((f & e & 0x1f) / 16) % 2 == 1 ==> (f / 16) % 2 == 1,
{
}

impl CPU {
    /// The reset-state CPU.
    pub fn new() -> (r: CPU)
        ensures
            r == spec_cpu_init(),
            r.wf(),
    {
        CPU {
            registers: Registers { a: 0, b: 0, c: 0, d: 0, e: 0, f: 0, h: 0, l: 0, sp: 0, pc: 0 },
            prev_inst: None,
            current_inst: None,
            clocks_to_finish: 0,
            is_halt: false,
            is_halt_bug_occured: false,
        }
    }

    fn get16(&self, op: Operand16) -> (r: u16)
        ensures
            r == spec_get16(*self, op),
    {
        match op {
            Operand16::RegBC => self.registers.get_bc(),
            Operand16::RegDE => self.registers.get_de(),
            Operand16::RegHL => self.registers.get_hl(),
            Operand16::RegSP => self.registers.sp,
            Operand16::RegAF => self.registers.get_af(),
            Operand16::Imm(v) => v,
            Operand16::AddressImm(_) => 0,
        }
    }

    fn get8(&self, mem: &Memory, op: Operand8) -> (r: u8)
        requires
            mem.wf(),
        ensures
            r == spec_get8(*self, mem@, op),
    {
        match op {
            Operand8::RegA => self.registers.a,
            Operand8::RegB => self.registers.b,
            Operand8::RegC => self.registers.c,
            Operand8::RegD => self.registers.d,
            Operand8::RegE => self.registers.e,
            Operand8::RegH => self.registers.h,
            Operand8::RegL => self.registers.l,
            Operand8::Imm(v) => v,
            Operand8::Address(op16) => {
                let addr = self.get16(op16);
                mem.get_byte(addr)
            },
            Operand8::IOPortImm(n) => mem.get_byte(0xff00 + (n as u16)),
            Operand8::IOPortC => mem.get_byte(0xff00 + (self.registers.c as u16)),
        }
    }

    fn set8(&mut self, mem: &mut Memory, op: Operand8, value: u8)
        requires
            old(mem).wf(),
        ensures
            *final(self) == spec_set8(*old(self), old(mem)@, op, value).0,
            final(mem)@ == spec_set8(*old(self), old(mem)@, op, value).1,
            final(mem).wf(),
    {
        match op {
            Operand8::RegA => self.registers.a = value,
            Operand8::RegB => self.registers.b = value,
            Operand8::RegC => self.registers.c = value,
            Operand8::RegD => self.registers.d = value,
            Operand8::RegE => self.registers.e = value,
            Operand8::RegH => self.registers.h = value,
            Operand8::RegL => self.registers.l = value,
            Operand8::Imm(_) => {},
            Operand8::Address(op16) => {
                let addr = self.get16(op16);
                mem.set_byte(addr, value);
            },
            Operand8::IOPortImm(n) => mem.set_byte(0xff00 + (n as u16), value),
            Operand8::IOPortC => mem.set_byte(0xff00 + (self.registers.c as u16), value),
        }
    }

    fn set16(&mut self, mem: &mut Memory, op: Operand16, value: u16)
        requires
            old(mem).wf(),
        ensures
            *final(self) == spec_set16(*old(self), old(mem)@, op, value).0,
            final(mem)@ == spec_set16(*old(self), old(mem)@, op, value).1,
            final(mem).wf(),
    {
        match op {
            Operand16::RegBC => self.registers.set_bc(value),
            Operand16::RegDE => self.registers.set_de(value),
            Operand16::RegHL => self.registers.set_hl(value),
            Operand16::RegSP => self.registers.sp = value,
            Operand16::RegAF => self.registers.set_af(value),
            Operand16::Imm(_) => {},
            Operand16::AddressImm(addr) => {
                mem.set_word(addr, value);
            },
        }
    }

    /// Commit one operation's effects to the registers and the bus.
    pub fn execute(&mut self, mem: &mut Memory, inst: InstKind)
        requires
            old(self).wf(),
            old(mem).wf(),
            inst_kind_wf(inst),
        ensures
            *final(self) == spec_execute(*old(self), old(mem)@, inst).0,
            final(mem)@ == spec_execute(*old(self), old(mem)@, inst).1,
            final(self).wf(),
            final(mem).wf(),
    {
        match inst {
            InstKind::Nop | InstKind::Load8(_, _) | InstKind::LoadIncFromA | InstKind::LoadIncToA | InstKind::LoadDecFromA | InstKind::LoadDecToA | InstKind::Load16(_, _) | InstKind::Push(_) | InstKind::Pop(_) => self.ex_loads(mem, inst),
            InstKind::AddAndLoadHL(_) | InstKind::Add8(_) | InstKind::AddCarry8(_) | InstKind::AddHL(_) | InstKind::AddSP(_) | InstKind::Sub8(_) | InstKind::SubCarry8(_) => self.ex_adds(mem, inst),
            InstKind::And8(_) | InstKind::Or8(_) | InstKind::Xor8(_) | InstKind::Compare8(_) | InstKind::Inc8(_) | InstKind::Dec8(_) | InstKind::Inc16(_) | InstKind::Dec16(_) => self.ex_logic(mem, inst),
            InstKind::DecimalAdjustA | InstKind::ComplementA | InstKind::RotateALeft | InstKind::RotateALeftCarry | InstKind::RotateARight | InstKind::RotateARightCarry => self.ex_acc(mem, inst),
            InstKind::RotateLeft(_) | InstKind::RotateLeftCarry(_) | InstKind::RotateRight(_) | InstKind::RotateRightCarry(_) => self.ex_rots(mem, inst),
            InstKind::ShiftLeftArithmetic(_) | InstKind::ShiftRightArithmetic(_) | InstKind::ShiftRightLogical(_) | InstKind::Swap(_) => self.ex_shifts(mem, inst),
            InstKind::TestBit(_, _) | InstKind::SetBit(_, _) | InstKind::ResetBit(_, _) | InstKind::ComplementCarryFlag | InstKind::SetCarryFlag | InstKind::Halt | InstKind::Stop | InstKind::DisableInterrupt | InstKind::EnableInterrupt => self.ex_bits(mem, inst),
            InstKind::JumpImm(_) | InstKind::JumpHL | InstKind::JumpCondImm(_, _) | InstKind::JumpRel(_) | InstKind::JumpCondRel(_, _) => self.ex_jumps(mem, inst),
            InstKind::CallImm(_) | InstKind::CallCondImm(_, _) | InstKind::Return | InstKind::ReturnCond(_) | InstKind::ReturnEnableInterrupt | InstKind::Restart(_) => self.ex_calls(mem, inst),
        }
    }

    #[verifier::rlimit(100)]
    #[verifier::spinoff_prover]
    fn ex_loads(&mut self, mem: &mut Memory, inst: InstKind)
        requires
            old(self).wf(),
            old(mem).wf(),
            inst_kind_wf(inst),
            (inst matches InstKind::Nop) || (inst matches InstKind::Load8(_, _)) || (inst matches InstKind::LoadIncFromA) || (inst matches InstKind::LoadIncToA) || (inst matches InstKind::LoadDecFromA) || (inst matches InstKind::LoadDecToA) || (inst matches InstKind::Load16(_, _)) || (inst matches InstKind::Push(_)) || (inst matches InstKind::Pop(_)),
        ensures
            *final(self) == spec_execute(*old(self), old(mem)@, inst).0,
            final(mem)@ == spec_execute(*old(self), old(mem)@, inst).1,
            final(self).wf(),
            final(mem).wf(),
    {
        match inst {
            InstKind::Nop => {},
            InstKind::Load8(dst, src) => {
                let v = self.get8(mem, src);
                self.set8(mem, dst, v);
            },
            InstKind::LoadIncFromA => {
                let hl = self.registers.get_hl();
                let a = self.registers.a;
                mem.set_byte(hl, a);
                self.registers.set_hl(wadd16(hl, 1));
            },
            InstKind::LoadIncToA => {
                let hl = self.registers.get_hl();
                let v = mem.get_byte(hl);
                self.registers.a = v;
                self.registers.set_hl(wadd16(hl, 1));
            },
            InstKind::LoadDecFromA => {
                let hl = self.registers.get_hl();
                let a = self.registers.a;
                mem.set_byte(hl, a);
                self.registers.set_hl(wsub16(hl, 1));
            },
            InstKind::LoadDecToA => {
                let hl = self.registers.get_hl();
                let v = mem.get_byte(hl);
                self.registers.a = v;
                self.registers.set_hl(wsub16(hl, 1));
            },
            InstKind::Load16(dst, src) => {
                let v = self.get16(src);
                self.set16(mem, dst, v);
            },
            InstKind::Push(op) => {
                let v = self.get16(op);
                let sp2 = wsub16(self.registers.sp, 2);
                mem.set_word(sp2, v);
                self.registers.sp = sp2;
            },
            InstKind::Pop(op) => {
                let v = mem.get_word(self.registers.sp);
                self.registers.sp = wadd16(self.registers.sp, 2);
                self.set16(mem, op, v);
            },
            _ => {},
        }
    }

    #[verifier::rlimit(100)]
    #[verifier::spinoff_prover]
    fn ex_adds(&mut self, mem: &mut Memory, inst: InstKind)
        requires
            old(self).wf(),
            old(mem).wf(),
            inst_kind_wf(inst),
            (inst matches InstKind::AddAndLoadHL(_)) || (inst matches InstKind::Add8(_)) || (inst matches InstKind::AddCarry8(_)) || (inst matches InstKind::AddHL(_)) || (inst matches InstKind::AddSP(_)) || (inst matches InstKind::Sub8(_)) || (inst matches InstKind::SubCarry8(_)),
        ensures
            *final(self) == spec_execute(*old(self), old(mem)@, inst).0,
            final(mem)@ == spec_execute(*old(self), old(mem)@, inst).1,
            final(self).wf(),
            final(mem).wf(),
    {
        match inst {
            InstKind::AddAndLoadHL(n) => {
                let a = self.registers.sp;
                let b = sign_extend(n);
                let value = wadd16(a, b);
                let f2 = Flags {
                    z: false,
                    n: false,
                    h: a % 16 + b % 16 > 15,
                    c: (a % 256) + (b % 256) > 255,
                };
                self.registers.f = f2.to_bits();
                self.registers.set_hl(value);
            },
            InstKind::Add8(op) => {
                let a = self.registers.a;
                let b = self.get8(mem, op);
                let value = (((a as u16) + (b as u16)) % 256) as u8;
                let f2 = Flags {
                    z: value == 0,
                    n: false,
                    h: a % 16 + b % 16 > 15,
                    c: (a as u16) + (b as u16) > 255,
                };
                self.registers.a = value;
                self.registers.f = f2.to_bits();
            },
            InstKind::AddCarry8(op) => {
                let fl = Flags::from_bits(self.registers.f);
                let a = self.registers.a;
                let b = self.get8(mem, op);
                let cy: u16 = if fl.c {
                    1
                } else {
                    0
                };
                let value = (((a as u16) + (b as u16) + cy) % 256) as u8;
                let f2 = Flags {
                    z: value == 0,
                    n: false,
                    h: (a % 16) as u16 + (b % 16) as u16 + cy > 15,
                    c: (a as u16) + (b as u16) + cy > 255,
                };
                self.registers.a = value;
                self.registers.f = f2.to_bits();
            },
            InstKind::AddHL(op) => {
                let fl = Flags::from_bits(self.registers.f);
                let a = self.registers.get_hl();
                let b = self.get16(op);
                let value = wadd16(a, b);
                let f2 = Flags {
                    z: fl.z,
                    n: false,
                    h: a % 0x1000 + b % 0x1000 > 0xfff,
                    c: (a as u32) + (b as u32) > 0xffff,
                };
                self.registers.f = f2.to_bits();
                self.registers.set_hl(value);
            },
            InstKind::AddSP(n) => {
                let a = self.registers.sp;
                let b = sign_extend(n);
                let value = wadd16(a, b);
                let f2 = Flags {
                    z: false,
                    n: false,
                    h: a % 16 + b % 16 > 15,
                    c: (a % 256) + (b % 256) > 255,
                };
                self.registers.sp = value;
                self.registers.f = f2.to_bits();
            },
            InstKind::Sub8(op) => {
                let a = self.registers.a;
                let b = self.get8(mem, op);
                let value = (((a as u16) + 256 - (b as u16)) % 256) as u8;
                let f2 = Flags { z: value == 0, n: true, h: a % 16 < b % 16, c: a < b };
                self.registers.a = value;
                self.registers.f = f2.to_bits();
            },
            InstKind::SubCarry8(op) => {
                let fl = Flags::from_bits(self.registers.f);
                let a = self.registers.a;
                let b = self.get8(mem, op);
                let cy: u16 = if fl.c {
                    1
                } else {
                    0
                };
                let value = (((a as u16) + 512 - (b as u16) - cy) % 256) as u8;
                let f2 = Flags {
                    z: value == 0,
                    n: true,
                    h: ((a % 16) as u16) < (b % 16) as u16 + cy,
                    c: (a as u16) < (b as u16) + cy,
                };
                self.registers.a = value;
                self.registers.f = f2.to_bits();
            },
            _ => {},
        }
    }

    #[verifier::rlimit(100)]
    #[verifier::spinoff_prover]
    fn ex_logic(&mut self, mem: &mut Memory, inst: InstKind)
        requires
            old(self).wf(),
            old(mem).wf(),
            inst_kind_wf(inst),
            (inst matches InstKind::And8(_)) || (inst matches InstKind::Or8(_)) || (inst matches InstKind::Xor8(_)) || (inst matches InstKind::Compare8(_)) || (inst matches InstKind::Inc8(_)) || (inst matches InstKind::Dec8(_)) || (inst matches InstKind::Inc16(_)) || (inst matches InstKind::Dec16(_)),
        ensures
            *final(self) == spec_execute(*old(self), old(mem)@, inst).0,
            final(mem)@ == spec_execute(*old(self), old(mem)@, inst).1,
            final(self).wf(),
            final(mem).wf(),
    {
        match inst {
            InstKind::And8(op) => {
                let b = self.get8(mem, op);
                let value = self.registers.a & b;
                let f2 = Flags { z: value == 0, n: false, h: true, c: false };
                self.registers.a = value;
                self.registers.f = f2.to_bits();
            },
            InstKind::Or8(op) => {
                let b = self.get8(mem, op);
                let value = self.registers.a | b;
                let f2 = Flags { z: value == 0, n: false, h: false, c: false };
                self.registers.a = value;
                self.registers.f = f2.to_bits();
            },
            InstKind::Xor8(op) => {
                let b = self.get8(mem, op);
                let value = self.registers.a ^ b;
                let f2 = Flags { z: value == 0, n: false, h: false, c: false };
                self.registers.a = value;
                self.registers.f = f2.to_bits();
            },
            InstKind::Compare8(op) => {
                let a = self.registers.a;
                let b = self.get8(mem, op);
                let value = (((a as u16) + 256 - (b as u16)) % 256) as u8;
                let f2 = Flags { z: value == 0, n: true, h: a % 16 < b % 16, c: a < b };
                self.registers.f = f2.to_bits();
            },
            InstKind::Inc8(op) => {
                let fl = Flags::from_bits(self.registers.f);
                let a = self.get8(mem, op);
                let value = (((a as u16) + 1) % 256) as u8;
                self.set8(mem, op, value);
                let f2 = Flags { z: value == 0, n: false, h: a % 16 == 15, c: fl.c };
                self.registers.f = f2.to_bits();
            },
            InstKind::Dec8(op) => {
                let fl = Flags::from_bits(self.registers.f);
                let a = self.get8(mem, op);
                let value = (((a as u16) + 255) % 256) as u8;
                self.set8(mem, op, value);
                let f2 = Flags { z: value == 0, n: true, h: a % 16 == 0, c: fl.c };
                self.registers.f = f2.to_bits();
            },
            InstKind::Inc16(op) => {
                let v = self.get16(op);
                let value = wadd16(v, 1);
                self.set16(mem, op, value);
            },
            InstKind::Dec16(op) => {
                let v = self.get16(op);
                let value = wsub16(v, 1);
                self.set16(mem, op, value);
            },
            _ => {},
        }
    }

    #[verifier::rlimit(100)]
    #[verifier::spinoff_prover]
    fn ex_acc(&mut self, mem: &mut Memory, inst: InstKind)
        requires
            old(self).wf(),
            old(mem).wf(),
            inst_kind_wf(inst),
            (inst matches InstKind::DecimalAdjustA) || (inst matches InstKind::ComplementA) || (inst matches InstKind::RotateALeft) || (inst matches InstKind::RotateALeftCarry) || (inst matches InstKind::RotateARight) || (inst matches InstKind::RotateARightCarry),
        ensures
            *final(self) == spec_execute(*old(self), old(mem)@, inst).0,
            final(mem)@ == spec_execute(*old(self), old(mem)@, inst).1,
            final(self).wf(),
            final(mem).wf(),
    {
        match inst {
            InstKind::DecimalAdjustA => {
                let fl = Flags::from_bits(self.registers.f);
                let a = self.registers.a;
                let lo: u16 = if fl.h || (!fl.n && a % 16 > 0x9) {
                    0x6
                } else {
                    0
                };
                let carry = fl.c || (!fl.n && a > 0x99);
                let correction: u16 = lo + if carry {
                    0x60
                } else {
                    0
                };
                let value = if fl.n {
                    (((a as u16) + 256 - correction) % 256) as u8
                } else {
                    (((a as u16) + correction) % 256) as u8
                };
                let f2 = Flags { z: value == 0, n: fl.n, h: false, c: carry };
                self.registers.a = value;
                self.registers.f = f2.to_bits();
            },
            InstKind::ComplementA => {
                let fl = Flags::from_bits(self.registers.f);
                self.registers.a = self.registers.a ^ 0xff;
                let f2 = Flags { z: fl.z, n: true, h: true, c: fl.c };
                self.registers.f = f2.to_bits();
            },
            InstKind::RotateALeft => {
                let a = self.registers.a;
                let value = (a % 128) * 2 + a / 128;
                let f2 = Flags { z: false, n: false, h: false, c: a >= 128 };
                self.registers.a = value;
                self.registers.f = f2.to_bits();
            },
            InstKind::RotateALeftCarry => {
                let fl = Flags::from_bits(self.registers.f);
                let a = self.registers.a;
                let cy: u8 = if fl.c {
                    1
                } else {
                    0
                };
                let value = (a % 128) * 2 + cy;
                let f2 = Flags { z: false, n: false, h: false, c: a >= 128 };
                self.registers.a = value;
                self.registers.f = f2.to_bits();
            },
            InstKind::RotateARight => {
                let a = self.registers.a;
                let value = a / 2 + (a % 2) * 128;
                let f2 = Flags { z: false, n: false, h: false, c: a % 2 == 1 };
                self.registers.a = value;
                self.registers.f = f2.to_bits();
            },
            InstKind::RotateARightCarry => {
                let fl = Flags::from_bits(self.registers.f);
                let a = self.registers.a;
                let cy: u8 = if fl.c {
                    1
                } else {
                    0
                };
                let value = a / 2 + cy * 128;
                let f2 = Flags { z: false, n: false, h: false, c: a % 2 == 1 };
                self.registers.a = value;
                self.registers.f = f2.to_bits();
            },
            _ => {},
        }
    }

    #[verifier::rlimit(100)]
    #[verifier::spinoff_prover]
    fn ex_rots(&mut self, mem: &mut Memory, inst: InstKind)
        requires
            old(self).wf(),
            old(mem).wf(),
            inst_kind_wf(inst),
            (inst matches InstKind::RotateLeft(_)) || (inst matches InstKind::RotateLeftCarry(_)) || (inst matches InstKind::RotateRight(_)) || (inst matches InstKind::RotateRightCarry(_)),
        ensures
            *final(self) == spec_execute(*old(self), old(mem)@, inst).0,
            final(mem)@ == spec_execute(*old(self), old(mem)@, inst).1,
            final(self).wf(),
            final(mem).wf(),
    {
        match inst {
            InstKind::RotateLeft(op) => {
                let a = self.get8(mem, op);
                let value = (a % 128) * 2 + a / 128;
                self.set8(mem, op, value);
                let f2 = Flags { z: value == 0, n: false, h: false, c: a >= 128 };
                self.registers.f = f2.to_bits();
            },
            InstKind::RotateLeftCarry(op) => {
                let fl = Flags::from_bits(self.registers.f);
                let a = self.get8(mem, op);
                let cy: u8 = if fl.c {
                    1
                } else {
                    0
                };
                let value = (a % 128) * 2 + cy;
                self.set8(mem, op, value);
                let f2 = Flags { z: value == 0, n: false, h: false, c: a >= 128 };
                self.registers.f = f2.to_bits();
            },
            InstKind::RotateRight(op) => {
                let a = self.get8(mem, op);
                let value = a / 2 + (a % 2) * 128;
                self.set8(mem, op, value);
                let f2 = Flags { z: value == 0, n: false, h: false, c: a % 2 == 1 };
                self.registers.f = f2.to_bits();
            },
            InstKind::RotateRightCarry(op) => {
                let fl = Flags::from_bits(self.registers.f);
                let a = self.get8(mem, op);
                let cy: u8 = if fl.c {
                    1
                } else {
                    0
                };
                let value = a / 2 + cy * 128;
                self.set8(mem, op, value);
                let f2 = Flags { z: value == 0, n: false, h: false, c: a % 2 == 1 };
                self.registers.f = f2.to_bits();
            },
            _ => {},
        }
    }

    #[verifier::rlimit(100)]
    #[verifier::spinoff_prover]
    fn ex_shifts(&mut self, mem: &mut Memory, inst: InstKind)
        requires
            old(self).wf(),
            old(mem).wf(),
            inst_kind_wf(inst),
            (inst matches InstKind::ShiftLeftArithmetic(_)) || (inst matches InstKind::ShiftRightArithmetic(_)) || (inst matches InstKind::ShiftRightLogical(_)) || (inst matches InstKind::Swap(_)),
        ensures
            *final(self) == spec_execute(*old(self), old(mem)@, inst).0,
            final(mem)@ == spec_execute(*old(self), old(mem)@, inst).1,
            final(self).wf(),
            final(mem).wf(),
    {
        match inst {
            InstKind::ShiftLeftArithmetic(op) => {
                let a = self.get8(mem, op);
                let value = (a % 128) * 2;
                self.set8(mem, op, value);
                let f2 = Flags { z: value == 0, n: false, h: false, c: a >= 128 };
                self.registers.f = f2.to_bits();
            },
            InstKind::ShiftRightArithmetic(op) => {
                let a = self.get8(mem, op);
                let value = a / 2 + (a / 128) * 128;
                self.set8(mem, op, value);
                let f2 = Flags { z: value == 0, n: false, h: false, c: a % 2 == 1 };
                self.registers.f = f2.to_bits();
            },
            InstKind::ShiftRightLogical(op) => {
                let a = self.get8(mem, op);
                let value = a / 2;
                self.set8(mem, op, value);
                let f2 = Flags { z: value == 0, n: false, h: false, c: a % 2 == 1 };
                self.registers.f = f2.to_bits();
            },
            InstKind::Swap(op) => {
                let a = self.get8(mem, op);
                let value = (a % 16) * 16 + a / 16;
                self.set8(mem, op, value);
                let f2 = Flags { z: value == 0, n: false, h: false, c: false };
                self.registers.f = f2.to_bits();
            },
            _ => {},
        }
    }

    #[verifier::rlimit(100)]
    #[verifier::spinoff_prover]
    fn ex_bits(&mut self, mem: &mut Memory, inst: InstKind)
        requires
            old(self).wf(),
            old(mem).wf(),
            inst_kind_wf(inst),
            (inst matches InstKind::TestBit(_, _)) || (inst matches InstKind::SetBit(_, _)) || (inst matches InstKind::ResetBit(_, _)) || (inst matches InstKind::ComplementCarryFlag) || (inst matches InstKind::SetCarryFlag) || (inst matches InstKind::Halt) || (inst matches InstKind::Stop) || (inst matches InstKind::DisableInterrupt) || (inst matches InstKind::EnableInterrupt),
        ensures
            *final(self) == spec_execute(*old(self), old(mem)@, inst).0,
            final(mem)@ == spec_execute(*old(self), old(mem)@, inst).1,
            final(self).wf(),
            final(mem).wf(),
    {
        match inst {
            InstKind::TestBit(n, op) => {
                let fl = Flags::from_bits(self.registers.f);
                let a = self.get8(mem, op);
                let f2 = Flags { z: (a / pow2(n)) % 2 == 0, n: false, h: true, c: fl.c };
                self.registers.f = f2.to_bits();
            },
            InstKind::SetBit(n, op) => {
                let a = self.get8(mem, op);
                let value = a | pow2(n);
                self.set8(mem, op, value);
            },
            InstKind::ResetBit(n, op) => {
                let a = self.get8(mem, op);
                let value = a & (0xff ^ pow2(n));
                self.set8(mem, op, value);
            },
            InstKind::ComplementCarryFlag => {
                let fl = Flags::from_bits(self.registers.f);
                let f2 = Flags { z: fl.z, n: false, h: false, c: !fl.c };
                self.registers.f = f2.to_bits();
            },
            InstKind::SetCarryFlag => {
                let fl = Flags::from_bits(self.registers.f);
                let f2 = Flags { z: fl.z, n: false, h: false, c: true };
                self.registers.f = f2.to_bits();
            },
            InstKind::Halt => {
                if !self.is_halt {
                    let pending = mem.interrupt_flag & mem.interrupt_enable & 0x1f;
                    if !mem.interrupt_master_enable && pending != 0 {
                        self.is_halt_bug_occured = true;
                    } else {
                        self.is_halt = true;
                    }
                }
            },
            InstKind::Stop => {},
            InstKind::DisableInterrupt => {
                mem.interrupt_master_enable = false;
            },
            InstKind::EnableInterrupt => {},
            _ => {},
        }
    }

    #[verifier::rlimit(100)]
    #[verifier::spinoff_prover]
    fn ex_jumps(&mut self, mem: &mut Memory, inst: InstKind)
        requires
            old(self).wf(),
            old(mem).wf(),
            inst_kind_wf(inst),
            (inst matches InstKind::JumpImm(_)) || (inst matches InstKind::JumpHL) || (inst matches InstKind::JumpCondImm(_, _)) || (inst matches InstKind::JumpRel(_)) || (inst matches InstKind::JumpCondRel(_, _)),
        ensures
            *final(self) == spec_execute(*old(self), old(mem)@, inst).0,
            final(mem)@ == spec_execute(*old(self), old(mem)@, inst).1,
            final(self).wf(),
            final(mem).wf(),
    {
        match inst {
            InstKind::JumpImm(addr) => {
                self.registers.pc = addr;
            },
            InstKind::JumpHL => {
                self.registers.pc = self.registers.get_hl();
            },
            InstKind::JumpCondImm(cond, addr) => {
                let fl = Flags::from_bits(self.registers.f);
                if self.cond_met(cond, fl) {
                    self.current_inst = Some(InstKind::JumpImm(addr));
                    self.clocks_to_finish = 4;
                }
            },
            InstKind::JumpRel(offset) => {
                self.registers.pc = wadd16(self.registers.pc, sign_extend(offset));
            },
            InstKind::JumpCondRel(cond, offset) => {
                let fl = Flags::from_bits(self.registers.f);
                if self.cond_met(cond, fl) {
                    self.current_inst = Some(InstKind::JumpRel(offset));
                    self.clocks_to_finish = 4;
                }
            },
            _ => {},
        }
    }

    #[verifier::rlimit(100)]
    #[verifier::spinoff_prover]
    fn ex_calls(&mut self, mem: &mut Memory, inst: InstKind)
        requires
            old(self).wf(),
            old(mem).wf(),
            inst_kind_wf(inst),
            (inst matches InstKind::CallImm(_)) || (inst matches InstKind::CallCondImm(_, _)) || (inst matches InstKind::Return) || (inst matches InstKind::ReturnCond(_)) || (inst matches InstKind::ReturnEnableInterrupt) || (inst matches InstKind::Restart(_)),
        ensures
            *final(self) == spec_execute(*old(self), old(mem)@, inst).0,
            final(mem)@ == spec_execute(*old(self), old(mem)@, inst).1,
            final(self).wf(),
            final(mem).wf(),
    {
        match inst {
            InstKind::CallImm(addr) => {
                let sp2 = wsub16(self.registers.sp, 2);
                let pc = self.registers.pc;
                mem.set_word(sp2, pc);
                self.registers.sp = sp2;
                self.registers.pc = addr;
            },
            InstKind::CallCondImm(cond, addr) => {
                let fl = Flags::from_bits(self.registers.f);
                if self.cond_met(cond, fl) {
                    self.current_inst = Some(InstKind::CallImm(addr));
                    self.clocks_to_finish = 12;
                }
            },
            InstKind::Return => {
                let addr = mem.get_word(self.registers.sp);
                self.registers.pc = addr;
                self.registers.sp = wadd16(self.registers.sp, 2);
            },
            InstKind::ReturnCond(cond) => {
                let fl = Flags::from_bits(self.registers.f);
                if self.cond_met(cond, fl) {
                    self.current_inst = Some(InstKind::Return);
                    self.clocks_to_finish = 12;
                }
            },
            InstKind::ReturnEnableInterrupt => {
                let addr = mem.get_word(self.registers.sp);
                self.registers.pc = addr;
                self.registers.sp = wadd16(self.registers.sp, 2);
                mem.interrupt_master_enable = true;
            },
            InstKind::Restart(addr) => {
                let sp2 = wsub16(self.registers.sp, 2);
                let pc = self.registers.pc;
                mem.set_word(sp2, pc);
                self.registers.sp = sp2;
                self.registers.pc = addr;
            },
            _ => {},
        }
    }

    fn cond_met(&self, cond: JumpCond, fl: Flags) -> (r: bool)
        ensures
            r == spec_cond_met(cond, fl),
    {
        match cond {
            JumpCond::NZ => !fl.z,
            JumpCond::Z => fl.z,
            JumpCond::NC => !fl.c,
            JumpCond::C => fl.c,
        }
    }

    /// Fetch and decode the instruction at PC, advancing PC past the opcode
    /// and its immediate operands (see [`spec_decode`]).
    pub fn decode(&mut self, mem: &Memory) -> (r: Inst)
        requires
            mem.wf(),
        ensures
            *final(self) == spec_decode(*old(self), mem@).0,
            r == spec_decode(*old(self), mem@).1,
            4 <= r.clocks <= 24,
            inst_kind_wf(r.kind),
    {
        let pc0 = self.registers.pc;
        let op = mem.get_byte(pc0);
        if self.is_halt_bug_occured {
            self.is_halt_bug_occured = false;
        } else {
            self.registers.pc = wadd16(pc0, 1);
        }
        proof {
            lemma_main_inst_wf(op);
        }
        if op == 0xcb {
            let op2 = mem.get_byte(self.registers.pc);
            self.registers.pc = wadd16(self.registers.pc, 1);
            proof {
                lemma_sub_inst_wf(op2);
            }
            sub_inst_entry(op2)
        } else {
            match main_inst_entry(op) {
                None => {
                    // the hardware hangs on undefined opcodes: stay on the
                    // byte and spin
                    self.registers.pc = pc0;
                    Inst { opcode: op as usize, kind: InstKind::Nop, clocks: 4, length: 1 }
                },
                Some(inst) => self.fetch_imm(mem, inst),
            }
        }
    }

    fn fetch_imm(&mut self, mem: &Memory, inst: Inst) -> (r: Inst)
        requires
            mem.wf(),
        ensures
            *final(self) == spec_fetch_imm(*old(self), mem@, inst).0,
            r == spec_fetch_imm(*old(self), mem@, inst).1,
    {
        let pc = self.registers.pc;
        match inst.kind {
            InstKind::Load8(dst, Operand8::Imm(_)) => {
                let v = mem.get_byte(pc);
                self.registers.pc = wadd16(pc, 1);
                Inst { kind: InstKind::Load8(dst, Operand8::Imm(v)), ..inst }
            },
            InstKind::Load8(dst, Operand8::Address(Operand16::Imm(_))) => {
                let v = mem.get_word(pc);
                self.registers.pc = wadd16(pc, 2);
                Inst { kind: InstKind::Load8(dst, Operand8::Address(Operand16::Imm(v))), ..inst }
            },
            InstKind::Load8(Operand8::Address(Operand16::Imm(_)), src) => {
                let v = mem.get_word(pc);
                self.registers.pc = wadd16(pc, 2);
                Inst { kind: InstKind::Load8(Operand8::Address(Operand16::Imm(v)), src), ..inst }
            },
            InstKind::Load8(dst, Operand8::IOPortImm(_)) => {
                let v = mem.get_byte(pc);
                self.registers.pc = wadd16(pc, 1);
                Inst { kind: InstKind::Load8(dst, Operand8::IOPortImm(v)), ..inst }
            },
            InstKind::Load8(Operand8::IOPortImm(_), src) => {
                let v = mem.get_byte(pc);
                self.registers.pc = wadd16(pc, 1);
                Inst { kind: InstKind::Load8(Operand8::IOPortImm(v), src), ..inst }
            },
            InstKind::Load16(dst, Operand16::Imm(_)) => {
                let v = mem.get_word(pc);
                self.registers.pc = wadd16(pc, 2);
                Inst { kind: InstKind::Load16(dst, Operand16::Imm(v)), ..inst }
            },
            InstKind::Load16(Operand16::AddressImm(_), src) => {
                let v = mem.get_word(pc);
                self.registers.pc = wadd16(pc, 2);
                Inst { kind: InstKind::Load16(Operand16::AddressImm(v), src), ..inst }
            },
            InstKind::Add8(Operand8::Imm(_)) => {
                let v = mem.get_byte(pc);
                self.registers.pc = wadd16(pc, 1);
                Inst { kind: InstKind::Add8(Operand8::Imm(v)), ..inst }
            },
            InstKind::AddCarry8(Operand8::Imm(_)) => {
                let v = mem.get_byte(pc);
                self.registers.pc = wadd16(pc, 1);
                Inst { kind: InstKind::AddCarry8(Operand8::Imm(v)), ..inst }
            },
            InstKind::Sub8(Operand8::Imm(_)) => {
                let v = mem.get_byte(pc);
                self.registers.pc = wadd16(pc, 1);
                Inst { kind: InstKind::Sub8(Operand8::Imm(v)), ..inst }
            },
            InstKind::SubCarry8(Operand8::Imm(_)) => {
                let v = mem.get_byte(pc);
                self.registers.pc = wadd16(pc, 1);
                Inst { kind: InstKind::SubCarry8(Operand8::Imm(v)), ..inst }
            },
            InstKind::And8(Operand8::Imm(_)) => {
                let v = mem.get_byte(pc);
                self.registers.pc = wadd16(pc, 1);
                Inst { kind: InstKind::And8(Operand8::Imm(v)), ..inst }
            },
            InstKind::Xor8(Operand8::Imm(_)) => {
                let v = mem.get_byte(pc);
                self.registers.pc = wadd16(pc, 1);
                Inst { kind: InstKind::Xor8(Operand8::Imm(v)), ..inst }
            },
            InstKind::Or8(Operand8::Imm(_)) => {
                let v = mem.get_byte(pc);
                self.registers.pc = wadd16(pc, 1);
                Inst { kind: InstKind::Or8(Operand8::Imm(v)), ..inst }
            },
            InstKind::Compare8(Operand8::Imm(_)) => {
                let v = mem.get_byte(pc);
                self.registers.pc = wadd16(pc, 1);
                Inst { kind: InstKind::Compare8(Operand8::Imm(v)), ..inst }
            },
            InstKind::AddSP(_) => {
                let v = mem.get_byte(pc);
                self.registers.pc = wadd16(pc, 1);
                Inst { kind: InstKind::AddSP(v as i8), ..inst }
            },
            InstKind::AddAndLoadHL(_) => {
                let v = mem.get_byte(pc);
                self.registers.pc = wadd16(pc, 1);
                Inst { kind: InstKind::AddAndLoadHL(v as i8), ..inst }
            },
            InstKind::JumpImm(_) => {
                let v = mem.get_word(pc);
                self.registers.pc = wadd16(pc, 2);
                Inst { kind: InstKind::JumpImm(v), ..inst }
            },
            InstKind::JumpCondImm(cond, _) => {
                let v = mem.get_word(pc);
                self.registers.pc = wadd16(pc, 2);
                Inst { kind: InstKind::JumpCondImm(cond, v), ..inst }
            },
            InstKind::JumpRel(_) => {
                let v = mem.get_byte(pc);
                self.registers.pc = wadd16(pc, 1);
                Inst { kind: InstKind::JumpRel(v as i8), ..inst }
            },
            InstKind::JumpCondRel(cond, _) => {
                let v = mem.get_byte(pc);
                self.registers.pc = wadd16(pc, 1);
                Inst { kind: InstKind::JumpCondRel(cond, v as i8), ..inst }
            },
            InstKind::CallImm(_) => {
                let v = mem.get_word(pc);
                self.registers.pc = wadd16(pc, 2);
                Inst { kind: InstKind::CallImm(v), ..inst }
            },
            InstKind::CallCondImm(cond, _) => {
                let v = mem.get_word(pc);
                self.registers.pc = wadd16(pc, 2);
                Inst { kind: InstKind::CallCondImm(cond, v), ..inst }
            },
            _ => inst,
        }
    }

    /// One T-cycle of the CPU (see [`spec_cpu_tick`]).
    #[verifier::rlimit(100)]
    #[verifier::spinoff_prover]
    pub fn tick(&mut self, mem: &mut Memory)
        requires
            old(self).wf(),
            old(mem).wf(),
        ensures
            *final(self) == spec_cpu_tick(*old(self), old(mem)@).0,
            final(mem)@ == spec_cpu_tick(*old(self), old(mem)@).1,
            final(self).wf(),
            final(mem).wf(),
    {
        if self.current_inst.is_none() {
            let pending = mem.interrupt_flag & mem.interrupt_enable & 0x1f;
            proof {
                lemma_pending_bits(mem.interrupt_flag, mem.interrupt_enable);
            }
            if self.is_halt && pending == 0 {
                self.current_inst = Some(InstKind::Halt);
                self.clocks_to_finish = 4;
            } else if mem.interrupt_master_enable && pending != 0 {
                let i: usize = if pending % 2 == 1 {
                    0
                } else if (pending / 2) % 2 == 1 {
                    1
                } else if (pending / 4) % 2 == 1 {
                    2
                } else if (pending / 8) % 2 == 1 {
                    3
                } else {
                    4
                };
                let bit = pow2(i);
                mem.interrupt_master_enable = false;
                mem.interrupt_flag = mem.interrupt_flag - bit;
                self.current_inst = Some(InstKind::CallImm(0x40 + 8 * (i as u16)));
                self.clocks_to_finish = 20;
                self.is_halt = false;
            } else {
                let inst = self.decode(mem);
                self.current_inst = Some(inst.kind);
                self.clocks_to_finish = inst.clocks;
                self.is_halt = false;
            }
        }
        self.clocks_to_finish = self.clocks_to_finish - 1;
        if self.clocks_to_finish == 0 {
            match self.current_inst {
                Some(inst) => {
                    self.current_inst = None;
                    match self.prev_inst {
                        Some(InstKind::EnableInterrupt) => {
                            mem.interrupt_master_enable = true;
                        },
                        _ => {},
                    }
                    self.execute(mem, inst);
                    self.prev_inst = Some(inst);
                },
                None => {},
            }
        }
    }
}

} // verus!
