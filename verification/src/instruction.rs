//! The SM83 instruction set: operand templates, operation kinds, and the two
//! 256-entry dispatch tables (primary opcodes and the 0xCB prefix page).
//!
//! [`spec_main_inst`] and [`spec_sub_inst`] define both tables as functions
//! of the opcode byte; the executable lookups and table builders are proved
//! to return exactly those entries.

use vstd::prelude::*;

verus! {

/// An 8-bit operand template: a register, an immediate, a byte behind a
/// 16-bit address, or an I/O port at 0xFF00 plus an offset.
#[derive(Clone, Copy, Debug, PartialEq, Eq, Structural)]
pub enum Operand8 {
    RegA,
    RegB,
    RegC,
    RegD,
    RegE,
    RegH,
    RegL,
    Imm(u8),
    Address(Operand16),
    IOPortImm(u8),
    IOPortC,
}

/// A 16-bit operand template: a register pair, an immediate, or the word
/// behind an immediate address.
#[derive(Clone, Copy, Debug, PartialEq, Eq, Structural)]
pub enum Operand16 {
    RegBC,
    RegDE,
    RegHL,
    RegSP,
    RegAF,
    Imm(u16),
    AddressImm(u16),
}

/// Condition field of conditional jumps, calls and returns.
#[derive(Clone, Copy, Debug, PartialEq, Eq, Structural)]
pub enum JumpCond {
    NZ,
    Z,
    NC,
    C,
}

/// One SM83 operation together with its operands. Immediate placeholders in
/// the dispatch tables hold 0 until the decoder substitutes the bytes that
/// follow the opcode.
#[derive(Clone, Copy, Debug, PartialEq, Eq, Structural)]
pub enum InstKind {
    Nop,
    Load8(Operand8, Operand8),
    LoadIncFromA,
    LoadIncToA,
    LoadDecFromA,
    LoadDecToA,
    Load16(Operand16, Operand16),
    AddAndLoadHL(i8),
    Push(Operand16),
    Pop(Operand16),
    Add8(Operand8),
    AddCarry8(Operand8),
    AddHL(Operand16),
    AddSP(i8),
    Sub8(Operand8),
    SubCarry8(Operand8),
    And8(Operand8),
    Or8(Operand8),
    Xor8(Operand8),
    Compare8(Operand8),
    Inc8(Operand8),
    Dec8(Operand8),
    Inc16(Operand16),
    Dec16(Operand16),
    DecimalAdjustA,
    ComplementA,
    RotateALeft,
    RotateALeftCarry,
    RotateLeft(Operand8),
    RotateLeftCarry(Operand8),
    RotateARight,
    RotateARightCarry,
    RotateRight(Operand8),
    RotateRightCarry(Operand8),
    ShiftLeftArithmetic(Operand8),
    ShiftRightArithmetic(Operand8),
    ShiftRightLogical(Operand8),
    Swap(Operand8),
    TestBit(usize, Operand8),
    SetBit(usize, Operand8),
    ResetBit(usize, Operand8),
    ComplementCarryFlag,
    SetCarryFlag,
    Halt,
    Stop,
    DisableInterrupt,
    EnableInterrupt,
    JumpImm(u16),
    JumpHL,
    JumpCondImm(JumpCond, u16),
    JumpRel(i8),
    JumpCondRel(JumpCond, i8),
    CallImm(u16),
    CallCondImm(JumpCond, u16),
    Return,
    ReturnCond(JumpCond),
    ReturnEnableInterrupt,
    Restart(u16),
}

/// A dispatch-table entry: the opcode byte, the operation template, the
/// nominal T-cycle count and the encoded length in bytes.
#[derive(Clone, Copy, Debug, PartialEq, Eq, Structural)]
pub struct Inst {
    pub opcode: usize,
    pub kind: InstKind,
    pub clocks: usize,
    pub length: usize,
}

/// The register operand selected by a 3-bit field of the opcode, in SM83
/// encoding order B, C, D, E, H, L, (HL), A.
pub open spec fn spec_operand8(i: int) -> Operand8 {
    if i == 0 {
        Operand8::RegB
    } else if i == 1 {
        Operand8::RegC
    } else if i == 2 {
        Operand8::RegD
    } else if i == 3 {
        Operand8::RegE
    } else if i == 4 {
        Operand8::RegH
    } else if i == 5 {
        Operand8::RegL
    } else if i == 6 {
        Operand8::Address(Operand16::RegHL)
    } else {
        Operand8::RegA
    }
}

/// The register pair selected by a 2-bit field of the opcode, in SM83
/// encoding order BC, DE, HL, SP.
pub open spec fn spec_operand16(i: int) -> Operand16 {
    if i == 0 {
        Operand16::RegBC
    } else if i == 1 {
        Operand16::RegDE
    } else if i == 2 {
        Operand16::RegHL
    } else {
        Operand16::RegSP
    }
}

/// The branch condition selected by a 2-bit field of the opcode, in SM83
/// encoding order NZ, Z, NC, C.
pub open spec fn spec_cond(i: int) -> JumpCond {
    if i == 0 {
        JumpCond::NZ
    } else if i == 1 {
        JumpCond::Z
    } else if i == 2 {
        JumpCond::NC
    } else {
        JumpCond::C
    }
}

fn operand8(i: u8) -> (r: Operand8)
    ensures
        r == spec_operand8(i as int),
{
    if i == 0 {
        Operand8::RegB
    } else if i == 1 {
        Operand8::RegC
    } else if i == 2 {
        Operand8::RegD
    } else if i == 3 {
        Operand8::RegE
    } else if i == 4 {
        Operand8::RegH
    } else if i == 5 {
        Operand8::RegL
    } else if i == 6 {
        Operand8::Address(Operand16::RegHL)
    } else {
        Operand8::RegA
    }
}

fn operand16(i: u8) -> (r: Operand16)
    ensures
        r == spec_operand16(i as int),
{
    if i == 0 {
        Operand16::RegBC
    } else if i == 1 {
        Operand16::RegDE
    } else if i == 2 {
        Operand16::RegHL
    } else {
        Operand16::RegSP
    }
}

fn cond_of(i: u8) -> (r: JumpCond)
    ensures
        r == spec_cond(i as int),
{
    if i == 0 {
        JumpCond::NZ
    } else if i == 1 {
        JumpCond::Z
    } else if i == 2 {
        JumpCond::NC
    } else {
        JumpCond::C
    }
}

/// The primary dispatch table as a function of the opcode byte. `None`
/// marks the opcodes the SM83 leaves undefined (and 0xCB, which selects the
/// prefixed page).
pub open spec fn spec_main_inst(op: u8) -> Option<Inst> {
    let o = op as int;
    let n = op as usize;
    let i = (o / 8) % 8;
    let j = o % 8;
    let p = (o / 16) % 4;
    if o < 0x40 {
        if o == 0x00 {
            Some(Inst { opcode: n, kind: InstKind::Nop, clocks: 4, length: 1 })
        } else if o == 0x08 {
            Some(Inst {
                opcode: n,
                kind: InstKind::Load16(Operand16::AddressImm(0), Operand16::RegSP),
                clocks: 20,
                length: 3,
            })
        } else if o == 0x10 {
            Some(Inst { opcode: n, kind: InstKind::Stop, clocks: 4, length: 2 })
        } else if o == 0x18 {
            Some(Inst { opcode: n, kind: InstKind::JumpRel(0), clocks: 12, length: 2 })
        } else if o % 8 == 0 && o >= 0x20 {
            Some(Inst {
                opcode: n,
                kind: InstKind::JumpCondRel(spec_cond((o - 0x20) / 8), 0),
                clocks: 8,
                length: 2,
            })
        } else if o % 16 == 0x1 {
            Some(Inst {
                opcode: n,
                kind: InstKind::Load16(spec_operand16(o / 16), Operand16::Imm(0)),
                clocks: 12,
                length: 3,
            })
        } else if o == 0x02 {
            Some(Inst {
                opcode: n,
                kind: InstKind::Load8(Operand8::Address(Operand16::RegBC), Operand8::RegA),
                clocks: 8,
                length: 1,
            })
        } else if o == 0x12 {
            Some(Inst {
                opcode: n,
                kind: InstKind::Load8(Operand8::Address(Operand16::RegDE), Operand8::RegA),
                clocks: 8,
                length: 1,
            })
        } else if o == 0x0a {
            Some(Inst {
                opcode: n,
                kind: InstKind::Load8(Operand8::RegA, Operand8::Address(Operand16::RegBC)),
                clocks: 8,
                length: 1,
            })
        } else if o == 0x1a {
            Some(Inst {
                opcode: n,
                kind: InstKind::Load8(Operand8::RegA, Operand8::Address(Operand16::RegDE)),
                clocks: 8,
                length: 1,
            })
        } else if o == 0x22 {
            Some(Inst { opcode: n, kind: InstKind::LoadIncFromA, clocks: 8, length: 1 })
        } else if o == 0x2a {
            Some(Inst { opcode: n, kind: InstKind::LoadIncToA, clocks: 8, length: 1 })
        } else if o == 0x32 {
            Some(Inst { opcode: n, kind: InstKind::LoadDecFromA, clocks: 8, length: 1 })
        } else if o == 0x3a {
            Some(Inst { opcode: n, kind: InstKind::LoadDecToA, clocks: 8, length: 1 })
        } else if o % 16 == 0x3 {
            Some(Inst {
                opcode: n,
                kind: InstKind::Inc16(spec_operand16(o / 16)),
                clocks: 8,
                length: 1,
            })
        } else if o % 16 == 0xb {
            Some(Inst {
                opcode: n,
                kind: InstKind::Dec16(spec_operand16(o / 16)),
                clocks: 8,
                length: 1,
            })
        } else if o % 16 == 0x9 {
            Some(Inst {
                opcode: n,
                kind: InstKind::AddHL(spec_operand16(o / 16)),
                clocks: 8,
                length: 1,
            })
        } else if o % 8 == 4 {
            Some(Inst {
                opcode: n,
                kind: InstKind::Inc8(spec_operand8(i)),
                clocks: if i == 6 { 12 } else { 4 },
                length: 1,
            })
        } else if o % 8 == 5 {
            Some(Inst {
                opcode: n,
                kind: InstKind::Dec8(spec_operand8(i)),
                clocks: if i == 6 { 12 } else { 4 },
                length: 1,
            })
        } else if o % 8 == 6 {
            Some(Inst {
                opcode: n,
                kind: InstKind::Load8(spec_operand8(i), Operand8::Imm(0)),
                clocks: if i == 6 { 12 } else { 8 },
                length: 2,
            })
        } else if o == 0x07 {
            Some(Inst { opcode: n, kind: InstKind::RotateALeft, clocks: 4, length: 1 })
        } else if o == 0x17 {
            Some(Inst { opcode: n, kind: InstKind::RotateALeftCarry, clocks: 4, length: 1 })
        } else if o == 0x27 {
            Some(Inst { opcode: n, kind: InstKind::DecimalAdjustA, clocks: 4, length: 1 })
        } else if o == 0x37 {
            Some(Inst { opcode: n, kind: InstKind::SetCarryFlag, clocks: 4, length: 1 })
        } else if o == 0x0f {
            Some(Inst { opcode: n, kind: InstKind::RotateARight, clocks: 4, length: 1 })
        } else if o == 0x1f {
            Some(Inst { opcode: n, kind: InstKind::RotateARightCarry, clocks: 4, length: 1 })
        } else if o == 0x2f {
            Some(Inst { opcode: n, kind: InstKind::ComplementA, clocks: 4, length: 1 })
        } else {
            Some(Inst { opcode: n, kind: InstKind::ComplementCarryFlag, clocks: 4, length: 1 })
        }
    } else if o < 0x80 {
        if o == 0x76 {
            Some(Inst { opcode: n, kind: InstKind::Halt, clocks: 4, length: 1 })
        } else {
            Some(Inst {
                opcode: n,
                kind: InstKind::Load8(spec_operand8(i), spec_operand8(j)),
                clocks: if i == 6 || j == 6 { 8 } else { 4 },
                length: 1,
            })
        }
    } else if o < 0xc0 {
        let fam = (o - 0x80) / 8;
        let kind = if fam == 0 {
            InstKind::Add8(spec_operand8(j))
        } else if fam == 1 {
            InstKind::AddCarry8(spec_operand8(j))
        } else if fam == 2 {
            InstKind::Sub8(spec_operand8(j))
        } else if fam == 3 {
            InstKind::SubCarry8(spec_operand8(j))
        } else if fam == 4 {
            InstKind::And8(spec_operand8(j))
        } else if fam == 5 {
            InstKind::Xor8(spec_operand8(j))
        } else if fam == 6 {
            InstKind::Or8(spec_operand8(j))
        } else {
            InstKind::Compare8(spec_operand8(j))
        };
        Some(Inst { opcode: n, kind: kind, clocks: if j == 6 { 8 } else { 4 }, length: 1 })
    } else {
        if o % 8 == 0 && o < 0xe0 {
            Some(Inst {
                opcode: n,
                kind: InstKind::ReturnCond(spec_cond((o - 0xc0) / 8)),
                clocks: 8,
                length: 1,
            })
        } else if o == 0xe0 {
            Some(Inst {
                opcode: n,
                kind: InstKind::Load8(Operand8::IOPortImm(0), Operand8::RegA),
                clocks: 12,
                length: 2,
            })
        } else if o == 0xf0 {
            Some(Inst {
                opcode: n,
                kind: InstKind::Load8(Operand8::RegA, Operand8::IOPortImm(0)),
                clocks: 12,
                length: 2,
            })
        } else if o % 16 == 0x1 {
            Some(Inst {
                opcode: n,
                kind: InstKind::Pop(if p == 3 {
                    Operand16::RegAF
                } else {
                    spec_operand16(p)
                }),
                clocks: 12,
                length: 1,
            })
        } else if o % 16 == 0x5 {
            Some(Inst {
                opcode: n,
                kind: InstKind::Push(if p == 3 {
                    Operand16::RegAF
                } else {
                    spec_operand16(p)
                }),
                clocks: 16,
                length: 1,
            })
        } else if o % 8 == 2 && o < 0xe0 {
            Some(Inst {
                opcode: n,
                kind: InstKind::JumpCondImm(spec_cond((o - 0xc0) / 8), 0),
                clocks: 12,
                length: 3,
            })
        } else if o == 0xe2 {
            Some(Inst {
                opcode: n,
                kind: InstKind::Load8(Operand8::IOPortC, Operand8::RegA),
                clocks: 8,
                length: 1,
            })
        } else if o == 0xf2 {
            Some(Inst {
                opcode: n,
                kind: InstKind::Load8(Operand8::RegA, Operand8::IOPortC),
                clocks: 8,
                length: 1,
            })
        } else if o % 8 == 4 && o < 0xe0 {
            Some(Inst {
                opcode: n,
                kind: InstKind::CallCondImm(spec_cond((o - 0xc0) / 8), 0),
                clocks: 12,
                length: 3,
            })
        } else if o % 8 == 7 {
            Some(Inst {
                opcode: n,
                kind: InstKind::Restart((o - 0xc7) as u16),
                clocks: 16,
                length: 1,
            })
        } else if o == 0xc3 {
            Some(Inst { opcode: n, kind: InstKind::JumpImm(0), clocks: 16, length: 3 })
        } else if o == 0xc6 {
            Some(Inst { opcode: n, kind: InstKind::Add8(Operand8::Imm(0)), clocks: 8, length: 2 })
        } else if o == 0xc9 {
            Some(Inst { opcode: n, kind: InstKind::Return, clocks: 16, length: 1 })
        } else if o == 0xcd {
            Some(Inst { opcode: n, kind: InstKind::CallImm(0), clocks: 24, length: 3 })
        } else if o == 0xce {
            Some(Inst {
                opcode: n,
                kind: InstKind::AddCarry8(Operand8::Imm(0)),
                clocks: 8,
                length: 2,
            })
        } else if o == 0xd6 {
            Some(Inst { opcode: n, kind: InstKind::Sub8(Operand8::Imm(0)), clocks: 8, length: 2 })
        } else if o == 0xd9 {
            Some(Inst { opcode: n, kind: InstKind::ReturnEnableInterrupt, clocks: 16, length: 1 })
        } else if o == 0xde {
            Some(Inst {
                opcode: n,
                kind: InstKind::SubCarry8(Operand8::Imm(0)),
                clocks: 8,
                length: 2,
            })
        } else if o == 0xe6 {
            Some(Inst { opcode: n, kind: InstKind::And8(Operand8::Imm(0)), clocks: 8, length: 2 })
        } else if o == 0xe8 {
            Some(Inst { opcode: n, kind: InstKind::AddSP(0), clocks: 16, length: 2 })
        } else if o == 0xe9 {
            Some(Inst { opcode: n, kind: InstKind::JumpHL, clocks: 4, length: 1 })
        } else if o == 0xea {
            Some(Inst {
                opcode: n,
                kind: InstKind::Load8(Operand8::Address(Operand16::Imm(0)), Operand8::RegA),
                clocks: 16,
                length: 3,
            })
        } else if o == 0xee {
            Some(Inst { opcode: n, kind: InstKind::Xor8(Operand8::Imm(0)), clocks: 8, length: 2 })
        } else if o == 0xf3 {
            Some(Inst { opcode: n, kind: InstKind::DisableInterrupt, clocks: 4, length: 1 })
        } else if o == 0xf6 {
            Some(Inst { opcode: n, kind: InstKind::Or8(Operand8::Imm(0)), clocks: 8, length: 2 })
        } else if o == 0xf8 {
            Some(Inst { opcode: n, kind: InstKind::AddAndLoadHL(0), clocks: 12, length: 2 })
        } else if o == 0xf9 {
            Some(Inst {
                opcode: n,
                kind: InstKind::Load16(Operand16::RegSP, Operand16::RegHL),
                clocks: 8,
                length: 1,
            })
        } else if o == 0xfa {
            Some(Inst {
                opcode: n,
                kind: InstKind::Load8(Operand8::RegA, Operand8::Address(Operand16::Imm(0))),
                clocks: 16,
                length: 3,
            })
        } else if o == 0xfb {
            Some(Inst { opcode: n, kind: InstKind::EnableInterrupt, clocks: 4, length: 1 })
        } else if o == 0xfe {
            Some(Inst {
                opcode: n,
                kind: InstKind::Compare8(Operand8::Imm(0)),
                clocks: 8,
                length: 2,
            })
        } else {
            None
        }
    }
}

/// The 0xCB-prefixed dispatch table as a function of the second opcode
/// byte. Every entry of the prefixed page is defined.
pub open spec fn spec_sub_inst(op: u8) -> Inst {
    let o = op as int;
    let n = op as usize;
    let i = o % 8;
    let fam = o / 8;
    if o < 0x40 {
        let kind = if fam == 0 {
            InstKind::RotateLeft(spec_operand8(i))
        } else if fam == 1 {
            InstKind::RotateRight(spec_operand8(i))
        } else if fam == 2 {
            InstKind::RotateLeftCarry(spec_operand8(i))
        } else if fam == 3 {
            InstKind::RotateRightCarry(spec_operand8(i))
        } else if fam == 4 {
            InstKind::ShiftLeftArithmetic(spec_operand8(i))
        } else if fam == 5 {
            InstKind::ShiftRightArithmetic(spec_operand8(i))
        } else if fam == 6 {
            InstKind::Swap(spec_operand8(i))
        } else {
            InstKind::ShiftRightLogical(spec_operand8(i))
        };
        Inst { opcode: n, kind: kind, clocks: if i == 6 { 16 } else { 8 }, length: 2 }
    } else if o < 0x80 {
        Inst {
            opcode: n,
            kind: InstKind::TestBit((fam - 8) as usize, spec_operand8(i)),
            clocks: if i == 6 { 12 } else { 8 },
            length: 2,
        }
    } else if o < 0xc0 {
        Inst {
            opcode: n,
            kind: InstKind::ResetBit((fam - 16) as usize, spec_operand8(i)),
            clocks: if i == 6 { 16 } else { 8 },
            length: 2,
        }
    } else {
        Inst {
            opcode: n,
            kind: InstKind::SetBit((fam - 24) as usize, spec_operand8(i)),
            clocks: if i == 6 { 16 } else { 8 },
            length: 2,
        }
    }
}

/// Well-formedness of an operation: the bit index of the single-bit
/// operations selects one of the 8 bits.
pub open spec fn inst_kind_wf(k: InstKind) -> bool {
    match k {
        InstKind::TestBit(n, _) => n < 8,
        InstKind::SetBit(n, _) => n < 8,
        InstKind::ResetBit(n, _) => n < 8,
        _ => true,
    }
}

/// Every defined primary-table entry is well formed and costs between 4 and
/// 24 T-cycles.
pub proof fn lemma_main_inst_wf(op: u8)
    ensures
        spec_main_inst(op) matches Some(i) ==> {
            &&& 4 <= i.clocks <= 24
            &&& 1 <= i.length <= 3
            &&& inst_kind_wf(i.kind)
        },
{
}

/// Every prefixed-table entry is well formed and costs between 8 and 16
/// T-cycles.
pub proof fn lemma_sub_inst_wf(op: u8)
    ensures
        8 <= spec_sub_inst(op).clocks <= 16,
        spec_sub_inst(op).length == 2,
        inst_kind_wf(spec_sub_inst(op).kind),
{
}

/// Look up a primary opcode.
pub fn main_inst_entry(op: u8) -> (r: Option<Inst>)
    ensures
        r == spec_main_inst(op),
{
    let i = (op / 8) % 8;
    let j = op % 8;
    let p = (op / 16) % 4;
    let n = op as usize;
    if op < 0x40 {
        if op == 0x00 {
            Some(Inst { opcode: n, kind: InstKind::Nop, clocks: 4, length: 1 })
        } else if op == 0x08 {
            Some(Inst {
                opcode: n,
                kind: InstKind::Load16(Operand16::AddressImm(0), Operand16::RegSP),
                clocks: 20,
                length: 3,
            })
        } else if op == 0x10 {
            Some(Inst { opcode: n, kind: InstKind::Stop, clocks: 4, length: 2 })
        } else if op == 0x18 {
            Some(Inst { opcode: n, kind: InstKind::JumpRel(0), clocks: 12, length: 2 })
        } else if op % 8 == 0 && op >= 0x20 {
            Some(Inst {
                opcode: n,
                kind: InstKind::JumpCondRel(cond_of((op - 0x20) / 8), 0),
                clocks: 8,
                length: 2,
            })
        } else if op % 16 == 0x1 {
            Some(Inst {
                opcode: n,
                kind: InstKind::Load16(operand16(op / 16), Operand16::Imm(0)),
                clocks: 12,
                length: 3,
            })
        } else if op == 0x02 {
            Some(Inst {
                opcode: n,
                kind: InstKind::Load8(Operand8::Address(Operand16::RegBC), Operand8::RegA),
                clocks: 8,
                length: 1,
            })
        } else if op == 0x12 {
            Some(Inst {
                opcode: n,
                kind: InstKind::Load8(Operand8::Address(Operand16::RegDE), Operand8::RegA),
                clocks: 8,
                length: 1,
            })
        } else if op == 0x0a {
            Some(Inst {
                opcode: n,
                kind: InstKind::Load8(Operand8::RegA, Operand8::Address(Operand16::RegBC)),
                clocks: 8,
                length: 1,
            })
        } else if op == 0x1a {
            Some(Inst {
                opcode: n,
                kind: InstKind::Load8(Operand8::RegA, Operand8::Address(Operand16::RegDE)),
                clocks: 8,
                length: 1,
            })
        } else if op == 0x22 {
            Some(Inst { opcode: n, kind: InstKind::LoadIncFromA, clocks: 8, length: 1 })
        } else if op == 0x2a {
            Some(Inst { opcode: n, kind: InstKind::LoadIncToA, clocks: 8, length: 1 })
        } else if op == 0x32 {
            Some(Inst { opcode: n, kind: InstKind::LoadDecFromA, clocks: 8, length: 1 })
        } else if op == 0x3a {
            Some(Inst { opcode: n, kind: InstKind::LoadDecToA, clocks: 8, length: 1 })
        } else if op % 16 == 0x3 {
            Some(Inst {
                opcode: n,
                kind: InstKind::Inc16(operand16(op / 16)),
                clocks: 8,
                length: 1,
            })
        } else if op % 16 == 0xb {
            Some(Inst {
                opcode: n,
                kind: InstKind::Dec16(operand16(op / 16)),
                clocks: 8,
                length: 1,
            })
        } else if op % 16 == 0x9 {
            Some(Inst {
                opcode: n,
                kind: InstKind::AddHL(operand16(op / 16)),
                clocks: 8,
                length: 1,
            })
        } else if op % 8 == 4 {
            Some(Inst {
                opcode: n,
                kind: InstKind::Inc8(operand8(i)),
                clocks: if i == 6 { 12 } else { 4 },
                length: 1,
            })
        } else if op % 8 == 5 {
            Some(Inst {
                opcode: n,
                kind: InstKind::Dec8(operand8(i)),
                clocks: if i == 6 { 12 } else { 4 },
                length: 1,
            })
        } else if op % 8 == 6 {
            Some(Inst {
                opcode: n,
                kind: InstKind::Load8(operand8(i), Operand8::Imm(0)),
                clocks: if i == 6 { 12 } else { 8 },
                length: 2,
            })
        } else if op == 0x07 {
            Some(Inst { opcode: n, kind: InstKind::RotateALeft, clocks: 4, length: 1 })
        } else if op == 0x17 {
            Some(Inst { opcode: n, kind: InstKind::RotateALeftCarry, clocks: 4, length: 1 })
        } else if op == 0x27 {
            Some(Inst { opcode: n, kind: InstKind::DecimalAdjustA, clocks: 4, length: 1 })
        } else if op == 0x37 {
            Some(Inst { opcode: n, kind: InstKind::SetCarryFlag, clocks: 4, length: 1 })
        } else if op == 0x0f {
            Some(Inst { opcode: n, kind: InstKind::RotateARight, clocks: 4, length: 1 })
        } else if op == 0x1f {
            Some(Inst { opcode: n, kind: InstKind::RotateARightCarry, clocks: 4, length: 1 })
        } else if op == 0x2f {
            Some(Inst { opcode: n, kind: InstKind::ComplementA, clocks: 4, length: 1 })
        } else {
            Some(Inst { opcode: n, kind: InstKind::ComplementCarryFlag, clocks: 4, length: 1 })
        }
    } else if op < 0x80 {
        if op == 0x76 {
            Some(Inst { opcode: n, kind: InstKind::Halt, clocks: 4, length: 1 })
        } else {
            Some(Inst {
                opcode: n,
                kind: InstKind::Load8(operand8(i), operand8(j)),
                clocks: if i == 6 || j == 6 { 8 } else { 4 },
                length: 1,
            })
        }
    } else if op < 0xc0 {
        let fam = (op - 0x80) / 8;
        let kind = if fam == 0 {
            InstKind::Add8(operand8(j))
        } else if fam == 1 {
            InstKind::AddCarry8(operand8(j))
        } else if fam == 2 {
            InstKind::Sub8(operand8(j))
        } else if fam == 3 {
            InstKind::SubCarry8(operand8(j))
        } else if fam == 4 {
            InstKind::And8(operand8(j))
        } else if fam == 5 {
            InstKind::Xor8(operand8(j))
        } else if fam == 6 {
            InstKind::Or8(operand8(j))
        } else {
            InstKind::Compare8(operand8(j))
        };
        Some(Inst { opcode: n, kind: kind, clocks: if j == 6 { 8 } else { 4 }, length: 1 })
    } else {
        if op % 8 == 0 && op < 0xe0 {
            Some(Inst {
                opcode: n,
                kind: InstKind::ReturnCond(cond_of((op - 0xc0) / 8)),
                clocks: 8,
                length: 1,
            })
        } else if op == 0xe0 {
            Some(Inst {
                opcode: n,
                kind: InstKind::Load8(Operand8::IOPortImm(0), Operand8::RegA),
                clocks: 12,
                length: 2,
            })
        } else if op == 0xf0 {
            Some(Inst {
                opcode: n,
                kind: InstKind::Load8(Operand8::RegA, Operand8::IOPortImm(0)),
                clocks: 12,
                length: 2,
            })
        } else if op % 16 == 0x1 {
            Some(Inst {
                opcode: n,
                kind: InstKind::Pop(if p == 3 {
                    Operand16::RegAF
                } else {
                    operand16(p)
                }),
                clocks: 12,
                length: 1,
            })
        } else if op % 16 == 0x5 {
            Some(Inst {
                opcode: n,
                kind: InstKind::Push(if p == 3 {
                    Operand16::RegAF
                } else {
                    operand16(p)
                }),
                clocks: 16,
                length: 1,
            })
        } else if op % 8 == 2 && op < 0xe0 {
            Some(Inst {
                opcode: n,
                kind: InstKind::JumpCondImm(cond_of((op - 0xc0) / 8), 0),
                clocks: 12,
                length: 3,
            })
        } else if op == 0xe2 {
            Some(Inst {
                opcode: n,
                kind: InstKind::Load8(Operand8::IOPortC, Operand8::RegA),
                clocks: 8,
                length: 1,
            })
        } else if op == 0xf2 {
            Some(Inst {
                opcode: n,
                kind: InstKind::Load8(Operand8::RegA, Operand8::IOPortC),
                clocks: 8,
                length: 1,
            })
        } else if op % 8 == 4 && op < 0xe0 {
            Some(Inst {
                opcode: n,
                kind: InstKind::CallCondImm(cond_of((op - 0xc0) / 8), 0),
                clocks: 12,
                length: 3,
            })
        } else if op % 8 == 7 {
            Some(Inst {
                opcode: n,
                kind: InstKind::Restart((op - 0xc7) as u16),
                clocks: 16,
                length: 1,
            })
        } else if op == 0xc3 {
            Some(Inst { opcode: n, kind: InstKind::JumpImm(0), clocks: 16, length: 3 })
        } else if op == 0xc6 {
            Some(Inst { opcode: n, kind: InstKind::Add8(Operand8::Imm(0)), clocks: 8, length: 2 })
        } else if op == 0xc9 {
            Some(Inst { opcode: n, kind: InstKind::Return, clocks: 16, length: 1 })
        } else if op == 0xcd {
            Some(Inst { opcode: n, kind: InstKind::CallImm(0), clocks: 24, length: 3 })
        } else if op == 0xce {
            Some(Inst {
                opcode: n,
                kind: InstKind::AddCarry8(Operand8::Imm(0)),
                clocks: 8,
                length: 2,
            })
        } else if op == 0xd6 {
            Some(Inst { opcode: n, kind: InstKind::Sub8(Operand8::Imm(0)), clocks: 8, length: 2 })
        } else if op == 0xd9 {
            Some(Inst { opcode: n, kind: InstKind::ReturnEnableInterrupt, clocks: 16, length: 1 })
        } else if op == 0xde {
            Some(Inst {
                opcode: n,
                kind: InstKind::SubCarry8(Operand8::Imm(0)),
                clocks: 8,
                length: 2,
            })
        } else if op == 0xe6 {
            Some(Inst { opcode: n, kind: InstKind::And8(Operand8::Imm(0)), clocks: 8, length: 2 })
        } else if op == 0xe8 {
            Some(Inst { opcode: n, kind: InstKind::AddSP(0), clocks: 16, length: 2 })
        } else if op == 0xe9 {
            Some(Inst { opcode: n, kind: InstKind::JumpHL, clocks: 4, length: 1 })
        } else if op == 0xea {
            Some(Inst {
                opcode: n,
                kind: InstKind::Load8(Operand8::Address(Operand16::Imm(0)), Operand8::RegA),
                clocks: 16,
                length: 3,
            })
        } else if op == 0xee {
            Some(Inst { opcode: n, kind: InstKind::Xor8(Operand8::Imm(0)), clocks: 8, length: 2 })
        } else if op == 0xf3 {
            Some(Inst { opcode: n, kind: InstKind::DisableInterrupt, clocks: 4, length: 1 })
        } else if op == 0xf6 {
            Some(Inst { opcode: n, kind: InstKind::Or8(Operand8::Imm(0)), clocks: 8, length: 2 })
        } else if op == 0xf8 {
            Some(Inst { opcode: n, kind: InstKind::AddAndLoadHL(0), clocks: 12, length: 2 })
        } else if op == 0xf9 {
            Some(Inst {
                opcode: n,
                kind: InstKind::Load16(Operand16::RegSP, Operand16::RegHL),
                clocks: 8,
                length: 1,
            })
        } else if op == 0xfa {
            Some(Inst {
                opcode: n,
                kind: InstKind::Load8(Operand8::RegA, Operand8::Address(Operand16::Imm(0))),
                clocks: 16,
                length: 3,
            })
        } else if op == 0xfb {
            Some(Inst { opcode: n, kind: InstKind::EnableInterrupt, clocks: 4, length: 1 })
        } else if op == 0xfe {
            Some(Inst {
                opcode: n,
                kind: InstKind::Compare8(Operand8::Imm(0)),
                clocks: 8,
                length: 2,
            })
        } else {
            None
        }
    }
}

/// Look up a 0xCB-prefixed opcode.
pub fn sub_inst_entry(op: u8) -> (r: Inst)
    ensures
        r == spec_sub_inst(op),
{
    let i = op % 8;
    let fam = op / 8;
    let n = op as usize;
    if op < 0x40 {
        let kind = if fam == 0 {
            InstKind::RotateLeft(operand8(i))
        } else if fam == 1 {
            InstKind::RotateRight(operand8(i))
        } else if fam == 2 {
            InstKind::RotateLeftCarry(operand8(i))
        } else if fam == 3 {
            InstKind::RotateRightCarry(operand8(i))
        } else if fam == 4 {
            InstKind::ShiftLeftArithmetic(operand8(i))
        } else if fam == 5 {
            InstKind::ShiftRightArithmetic(operand8(i))
        } else if fam == 6 {
            InstKind::Swap(operand8(i))
        } else {
            InstKind::ShiftRightLogical(operand8(i))
        };
        Inst { opcode: n, kind: kind, clocks: if i == 6 { 16 } else { 8 }, length: 2 }
    } else if op < 0x80 {
        Inst {
            opcode: n,
            kind: InstKind::TestBit((fam - 8) as usize, operand8(i)),
            clocks: if i == 6 { 12 } else { 8 },
            length: 2,
        }
    } else if op < 0xc0 {
        Inst {
            opcode: n,
            kind: InstKind::ResetBit((fam - 16) as usize, operand8(i)),
            clocks: if i == 6 { 16 } else { 8 },
            length: 2,
        }
    } else {
        Inst {
            opcode: n,
            kind: InstKind::SetBit((fam - 24) as usize, operand8(i)),
            clocks: if i == 6 { 16 } else { 8 },
            length: 2,
        }
    }
}

/// Build the 256-entry primary dispatch table.
pub fn generate_main_inst_table() -> (r: Vec<Option<Inst>>)
    ensures
        r@.len() == 256,
        forall|k: int| 0 <= k < 256 ==> r@[k] == spec_main_inst(k as u8),
{
    let mut t: Vec<Option<Inst>> = Vec::new();
    let mut op: usize = 0;
    while op < 256
        invariant
            op <= 256,
            t@.len() == op,
            forall|k: int| 0 <= k < op ==> t@[k] == spec_main_inst(k as u8),
        decreases 256 - op,
    {
        t.push(main_inst_entry(op as u8));
        op = op + 1;
    }
    t
}

/// Build the 256-entry 0xCB-prefixed dispatch table.
pub fn generate_sub_inst_table() -> (r: Vec<Inst>)
    ensures
        r@.len() == 256,
        forall|k: int| 0 <= k < 256 ==> r@[k] == spec_sub_inst(k as u8),
{
    let mut t: Vec<Inst> = Vec::new();
    let mut op: usize = 0;
    while op < 256
        invariant
            op <= 256,
            t@.len() == op,
            forall|k: int| 0 <= k < op ==> t@[k] == spec_sub_inst(k as u8),
        decreases 256 - op,
    {
        t.push(sub_inst_entry(op as u8));
        op = op + 1;
    }
    t
}

} // verus!
