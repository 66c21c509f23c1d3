//! The laws the machine obeys, stated over the spec-level step functions
//! and proved once and for all: register-pair round trips, bus round
//! trips, OAM DMA, conditional-branch retiming, the arithmetic flag laws,
//! the HALT bug, the delayed effect of EI, audio length expiry and the
//! timer rates.

use vstd::prelude::*;
use crate::memory::MemView;
use crate::cpu::{
    CPU, Registers, Flags, spec_flags_of, spec_flag_bits, spec_cond_met, spec_execute,
    spec_ex_sub8, spec_ex_add8, spec_get8, spec_decode, spec_cpu_tick, wrap_add16, sign_ext,
};
use crate::instruction::{InstKind, JumpCond, Operand8, spec_main_inst};
use crate::apu::{spec_len_step, spec_apu_trigger, spec_apu_tick, ApuView};
use crate::ppu::{PpuView, LCDStatus, spec_stat_of, spec_stat_bits, spec_ppu_tick};
use crate::timer::{Timer, spec_timer_tick};

verus! {

/// Writing a register pair and reading it back returns the written word,
/// and the same holds for DE and HL; AF masks the low nibble of F.
pub proof fn lemma_pair_roundtrip(r: Registers, y: u16)
    ensures
        r.spec_set_bc(y).spec_bc() == y,
        r.spec_set_de(y).spec_de() == y,
        r.spec_set_hl(y).spec_hl() == y,
        r.spec_set_af(y).spec_af() == (y - y % 16) as u16,
{
}

/// An AF write forces the low nibble of F to zero, whatever is written,
/// and every flag write-back does the same.
pub proof fn lemma_f_low_nibble(r: Registers, y: u16, fl: Flags)
    ensures
        r.spec_set_af(y).f % 16 == 0,
        spec_flag_bits(fl) % 16 == 0,
{
}

/// Packing flags into an F value and unpacking them returns the same
/// flags.
pub proof fn lemma_flag_bits_roundtrip(fl: Flags)
    ensures
        spec_flags_of(spec_flag_bits(fl)) == fl,
{
}

/// Bus round trips: a store to work RAM, video RAM, OAM, high RAM, a
/// mapped cartridge-RAM bank, or the interrupt-enable register reads back
/// as the stored byte; the divider register reads 0 after any store.
pub proof fn lemma_bus_roundtrip(m: MemView, addr: u16, v: u8)
    requires
        m.wf(),
    ensures
        0xc000 <= addr < 0xe000 ==> m.write(addr, v).read(addr) == v,
        0x8000 <= addr < 0xa000 ==> m.write(addr, v).read(addr) == v,
        0xfe00 <= addr < 0xfea0 ==> m.write(addr, v).read(addr) == v,
        0xff80 <= addr < 0xffff ==> m.write(addr, v).read(addr) == v,
        addr == 0xffff ==> m.write(addr, v).read(addr) == v,
        0xa000 <= addr < 0xc000 && m.ram_bank_number < 4 ==> m.write(addr, v).read(addr) == v,
        m.write(0xff04, v).read(0xff04) == 0,
{
}

/// After a store of `v` to the DMA register, every OAM byte equals the
/// byte the bus read at `(v << 8) + i` before the store.
pub proof fn lemma_oam_dma(m: MemView, v: u8, i: int)
    requires
        m.wf(),
        0 <= i < 160,
    ensures
        m.write(0xff46, v).obj_attr_memory[i] == m.read(((v as int) * 256 + i) as u16),
        m.write(0xff46, v).read((0xfe00 + i) as u16) == m.read(((v as int) * 256 + i) as u16),
{
}

/// Conditional absolute jump: when the condition holds, the operation
/// re-targets to the unconditional jump with 4 extra T-cycles reserved,
/// and completing that jump sets PC to the target; when it does not hold,
/// the machine is left unchanged, so PC stays at the following
/// instruction.
pub proof fn lemma_jump_cond_imm(cpu: CPU, m: MemView, cond: JumpCond, addr: u16)
    ensures
        spec_cond_met(cond, spec_flags_of(cpu.registers.f)) ==> spec_execute(
            cpu,
            m,
            InstKind::JumpCondImm(cond, addr),
        ) == (
            CPU { current_inst: Some(InstKind::JumpImm(addr)), clocks_to_finish: 4, ..cpu },
            m,
        ),
        !spec_cond_met(cond, spec_flags_of(cpu.registers.f)) ==> spec_execute(
            cpu,
            m,
            InstKind::JumpCondImm(cond, addr),
        ) == (cpu, m),
        spec_execute(cpu, m, InstKind::JumpImm(addr)).0.registers.pc == addr,
{
}

/// Conditional relative jump: 4 extra T-cycles when taken, and the
/// unconditional form lands on PC plus the sign-extended displacement;
/// unchanged when not taken.
pub proof fn lemma_jump_cond_rel(cpu: CPU, m: MemView, cond: JumpCond, offset: i8)
    ensures
        spec_cond_met(cond, spec_flags_of(cpu.registers.f)) ==> spec_execute(
            cpu,
            m,
            InstKind::JumpCondRel(cond, offset),
        ) == (
            CPU { current_inst: Some(InstKind::JumpRel(offset)), clocks_to_finish: 4, ..cpu },
            m,
        ),
        !spec_cond_met(cond, spec_flags_of(cpu.registers.f)) ==> spec_execute(
            cpu,
            m,
            InstKind::JumpCondRel(cond, offset),
        ) == (cpu, m),
        spec_execute(cpu, m, InstKind::JumpRel(offset)).0.registers.pc == wrap_add16(
            cpu.registers.pc,
            sign_ext(offset),
        ),
{
}

/// Conditional call: 12 extra T-cycles when taken, and the unconditional
/// call pushes PC and lands on the target; unchanged when not taken.
pub proof fn lemma_call_cond(cpu: CPU, m: MemView, cond: JumpCond, addr: u16)
    ensures
        spec_cond_met(cond, spec_flags_of(cpu.registers.f)) ==> spec_execute(
            cpu,
            m,
            InstKind::CallCondImm(cond, addr),
        ) == (
            CPU { current_inst: Some(InstKind::CallImm(addr)), clocks_to_finish: 12, ..cpu },
            m,
        ),
        !spec_cond_met(cond, spec_flags_of(cpu.registers.f)) ==> spec_execute(
            cpu,
            m,
            InstKind::CallCondImm(cond, addr),
        ) == (cpu, m),
        spec_execute(cpu, m, InstKind::CallImm(addr)).0.registers.pc == addr,
{
}

/// Conditional return: 12 extra T-cycles when taken, and the unconditional
/// return pops PC from the stack; unchanged when not taken.
pub proof fn lemma_ret_cond(cpu: CPU, m: MemView, cond: JumpCond)
    ensures
        spec_cond_met(cond, spec_flags_of(cpu.registers.f)) ==> spec_execute(
            cpu,
            m,
            InstKind::ReturnCond(cond),
        ) == (
            CPU { current_inst: Some(InstKind::Return), clocks_to_finish: 12, ..cpu },
            m,
        ),
        !spec_cond_met(cond, spec_flags_of(cpu.registers.f)) ==> spec_execute(
            cpu,
            m,
            InstKind::ReturnCond(cond),
        ) == (cpu, m),
        spec_execute(cpu, m, InstKind::Return).0.registers.pc == m.read_word(cpu.registers.sp),
{
}

/// The subtraction flag laws: after SUB, Z holds exactly when the operands
/// were equal, H exactly when the low nibble borrowed, C exactly when the
/// whole byte borrowed, and A holds the wrapped difference.
pub proof fn lemma_sub_flags(cpu: CPU, m: MemView, op: Operand8)
    ensures
        ({
            let a = cpu.registers.a;
            let b = spec_get8(cpu, m, op);
            let fl = spec_flags_of(spec_ex_sub8(cpu, m, op).0.registers.f);
            &&& (fl.z <==> a == b)
            &&& (fl.n == true)
            &&& (fl.h <==> a % 16 < b % 16)
            &&& (fl.c <==> a < b)
            &&& spec_ex_sub8(cpu, m, op).0.registers.a == (a + 256 - b) % 256
        }),
{
    let a = cpu.registers.a;
    let b = spec_get8(cpu, m, op);
    let value = ((a + 256 - b) % 256) as u8;
    let f2 = Flags { z: value == 0, n: true, h: a % 16 < b % 16, c: a < b };
    lemma_flag_bits_roundtrip(f2);
    assert(value == 0 <==> a == b);
}

/// The addition flag laws: after ADD, Z holds exactly when the byte sum
/// wrapped to zero, H exactly when the low nibbles carried, C exactly when
/// the whole byte carried, and A holds the wrapped sum.
pub proof fn lemma_add_flags(cpu: CPU, m: MemView, op: Operand8)
    ensures
        ({
            let a = cpu.registers.a;
            let b = spec_get8(cpu, m, op);
            let fl = spec_flags_of(spec_ex_add8(cpu, m, op).0.registers.f);
            &&& (fl.z <==> (a + b) % 256 == 0)
            &&& (fl.n == false)
            &&& (fl.h <==> a % 16 + b % 16 > 15)
            &&& (fl.c <==> a + b > 255)
            &&& spec_ex_add8(cpu, m, op).0.registers.a == (a + b) % 256
        }),
{
    let a = cpu.registers.a;
    let b = spec_get8(cpu, m, op);
    let value = ((a + b) % 256) as u8;
    let f2 = Flags { z: value == 0, n: false, h: a % 16 + b % 16 > 15, c: a + b > 255 };
    lemma_flag_bits_roundtrip(f2);
}

/// The HALT bug: executing HALT with interrupts globally disabled while an
/// interrupt is pending does not halt; it latches the bug flag instead,
/// and the next fetch then re-reads the same byte. For a one-byte
/// instruction (INC B here) that byte decodes twice in a row.
pub proof fn lemma_halt_bug(cpu: CPU, m: MemView)
    requires
        !cpu.is_halt,
        !m.interrupt_master_enable,
        m.interrupt_flag & m.interrupt_enable & 0x1f != 0,
    ensures
        spec_execute(cpu, m, InstKind::Halt) == (
            CPU { is_halt_bug_occured: true, ..cpu },
            m,
        ),
{
}

/// With the HALT bug latched, the fetch consumes the latch without
/// advancing PC, so a following one-byte instruction (INC B here) is
/// fetched again from the same address by the next decode.
pub proof fn lemma_halt_bug_fetch_twice(cpu: CPU, m: MemView)
    requires
        cpu.is_halt_bug_occured,
        m.read(cpu.registers.pc) == 0x04,
    ensures
        spec_decode(cpu, m).1.kind == InstKind::Inc8(Operand8::RegB),
        spec_decode(cpu, m).0.registers.pc == cpu.registers.pc,
        !spec_decode(cpu, m).0.is_halt_bug_occured,
        spec_decode(spec_decode(cpu, m).0, m).1.kind == InstKind::Inc8(Operand8::RegB),
{
    assert(spec_main_inst(0x04) is Some);
}

/// EI has no effect of its own when it commits; the master enable changes
/// only later.
pub proof fn lemma_ei_no_immediate_effect(cpu: CPU, m: MemView)
    ensures
        spec_execute(cpu, m, InstKind::EnableInterrupt) == (cpu, m),
{
}

/// While a pending instruction still has at least two cycles to burn, a
/// CPU tick changes nothing but the countdown; in particular IME is
/// untouched during the instruction that follows EI.
pub proof fn lemma_tick_counts_down(cpu: CPU, m: MemView)
    requires
        cpu.current_inst is Some,
        cpu.clocks_to_finish >= 2,
    ensures
        spec_cpu_tick(cpu, m) == (
            CPU { clocks_to_finish: (cpu.clocks_to_finish - 1) as usize, ..cpu },
            m,
        ),
{
}

/// The delayed effect of EI: when the instruction after EI completes, IME
/// turns on just before that instruction's own effect. So EI; NOP enables
/// IME exactly when NOP completes, while EI; DI leaves IME off, because DI
/// overrides the delayed enable.
pub proof fn lemma_ei_delay(cpu: CPU, m: MemView)
    requires
        cpu.prev_inst == Some(InstKind::EnableInterrupt),
        cpu.clocks_to_finish == 1,
        !m.interrupt_master_enable,
    ensures
        cpu.current_inst == Some(InstKind::Nop) ==> spec_cpu_tick(
            cpu,
            m,
        ).1.interrupt_master_enable,
        cpu.current_inst == Some(InstKind::DisableInterrupt) ==> !spec_cpu_tick(
            cpu,
            m,
        ).1.interrupt_master_enable,
{
}

/// A channel's length timer under repeated length clocks with length
/// enabled, starting from `len`.
pub open spec fn spec_len_iter(nrx4: u8, len: usize, nr52: u8, mask: u8, k: int) -> (usize, u8)
    decreases k,
{
    if k <= 0 {
        (len, nr52)
    } else {
        let (l, s) = spec_len_iter(nrx4, len, nr52, mask, k - 1);
        spec_len_step(nrx4, l, s, mask)
    }
}

/// Length expiry: with length enabled, a length timer loaded with 64 (a
/// square or noise channel triggered with length field 0) survives the
/// first 63 length clocks with the channel still on, and the 64th clock
/// switches the channel off in NR52. The wave channel behaves the same
/// with 256.
pub proof fn lemma_length_expiry(nrx4: u8, nr52: u8, mask: u8, start: usize, k: int)
    requires
        (nrx4 / 64) % 2 == 1,
        start == 64 || start == 256,
        0 <= k <= start,
    ensures
        k < start ==> spec_len_iter(nrx4, start, nr52, mask, k) == (((start - k) as usize, nr52)),
        k == start ==> spec_len_iter(nrx4, start, nr52, mask, k) == ((0usize, nr52 & mask)),
    decreases k,
{
    if k > 0 {
        lemma_length_expiry(nrx4, nr52, mask, start, k - 1);
    }
}

/// A square-channel trigger with length field 0 loads the length timer
/// with 64; a wave-channel trigger with NR31 = 0 loads it with 256.
pub proof fn lemma_trigger_length_load(a: ApuView, m: MemView)
    ensures
        (m.nr14 / 128) % 2 == 1 && m.nr11 % 64 == 0 ==> spec_apu_trigger(
            a,
            m,
        ).0.length_timer_1 == 64,
        (m.nr34 / 128) % 2 == 1 && m.nr31 == 0 ==> spec_apu_trigger(a, m).0.length_timer_3
            == 256,
{
}

/// The timer state after `n` T-cycles.
pub open spec fn spec_timer_run(t: Timer, m: MemView, n: int) -> (Timer, MemView)
    decreases n,
{
    if n <= 0 {
        (t, m)
    } else {
        let (t1, m1) = spec_timer_run(t, m, n - 1);
        spec_timer_tick(t1, m1)
    }
}

/// The timer rate: with TAC = 0b101 (enabled, 262144 Hz) and the TIMA
/// divider at zero, TIMA is untouched for 15 T-cycles and increments
/// exactly at the 16th; when it stood at 0xFF it reloads from TMA instead
/// and raises the timer interrupt (IF bit 2).
pub proof fn lemma_timer_rate(t: Timer, m: MemView, k: int)
    requires
        m.timer_control == 5,
        t.timer_counter == 0,
        0 <= k <= 16,
    ensures
        k < 16 ==> spec_timer_run(t, m, k).1.timer == m.timer,
        k < 16 ==> spec_timer_run(t, m, k).0.timer_counter == k,
        k < 16 ==> spec_timer_run(t, m, k).1.timer_control == m.timer_control,
        k < 16 ==> spec_timer_run(t, m, k).1.timer_modulo == m.timer_modulo,
        k < 16 ==> spec_timer_run(t, m, k).1.interrupt_flag == m.interrupt_flag,
        k == 16 && m.timer < 255 ==> spec_timer_run(t, m, k).1.timer == m.timer + 1,
        k == 16 && m.timer == 255 ==> spec_timer_run(t, m, k).1.timer == m.timer_modulo
            && spec_timer_run(t, m, k).1.interrupt_flag == m.interrupt_flag | 4,
    decreases k,
{
    assert(5u8 & 4 == 4) by (bit_vector);
    if k > 0 {
        lemma_timer_rate(t, m, k - 1);
    }
}


/// The picture processor after `n` T-cycles, with nothing else touching
/// the bus in between.
pub open spec fn spec_ppu_run(p: PpuView, m: MemView, n: int) -> (PpuView, MemView)
    decreases n,
{
    if n <= 0 {
        (p, m)
    } else {
        let (p1, m1) = spec_ppu_run(p, m, n - 1);
        spec_ppu_tick(p1, m1)
    }
}

/// Running a + b cycles is running a and then b.
proof fn lemma_ppu_run_add(p: PpuView, m: MemView, a: int, b: int)
    requires
        a >= 0,
        b >= 0,
    ensures
        spec_ppu_run(p, m, a + b) == spec_ppu_run(
            spec_ppu_run(p, m, a).0,
            spec_ppu_run(p, m, a).1,
            b,
        ),
    decreases b,
{
    if b > 0 {
        lemma_ppu_run_add(p, m, a, b - 1);
    }
}

/// Packing STAT fields into a register value and unpacking them returns
/// the same fields.
proof fn lemma_stat_bits_roundtrip(s: LCDStatus)
    requires
        s.mode <= 3,
    ensures
        spec_stat_of(spec_stat_bits(s)) == s,
{
}

/// The low interrupt bits under the ORs the picture processor performs.
proof fn lemma_if_bits(a: u8)
    by (bit_vector)
    ensures
        (a | 1) % 2 == 1,
        (a | 1) / 2 == a / 2,
        (a | 2) % 2 == a % 2,
        ((a | 2) / 2) % 2 == 1,
        (a | 2) / 4 == a / 4,
{
}

/// Inside a mode, ticks only count the budget down: the bus is untouched
/// and, apart from the WY latch taken at the first cycle of an OAM scan,
/// so is the picture-processor state.
proof fn lemma_ppu_burn(p: PpuView, m: MemView, t: int)
    requires
        0 <= t < p.clocks_to_finish,
        spec_stat_of(m.lcd_status).mode == 2 ==> p.clocks_to_finish <= 80,
    ensures
        spec_ppu_run(p, m, t).1 == m,
        spec_ppu_run(p, m, t).0 == (PpuView {
            clocks_to_finish: (p.clocks_to_finish - t) as usize,
            wy_cond_triggered: p.wy_cond_triggered || (spec_stat_of(m.lcd_status).mode == 2
                && p.clocks_to_finish == 80 && t >= 1 && m.ly == m.wy),
            ..p
        }),
    decreases t,
{
    if t > 0 {
        lemma_ppu_burn(p, m, t - 1);
        assert(spec_ppu_run(p, m, t).0 =~= (PpuView {
            clocks_to_finish: (p.clocks_to_finish - t) as usize,
            wy_cond_triggered: p.wy_cond_triggered || (spec_stat_of(m.lcd_status).mode == 2
                && p.clocks_to_finish == 80 && t >= 1 && m.ly == m.wy),
            ..p
        }));
    } else {
        assert(spec_ppu_run(p, m, 0).0 =~= (PpuView {
            clocks_to_finish: (p.clocks_to_finish - 0) as usize,
            wy_cond_triggered: p.wy_cond_triggered || false,
            ..p
        }));
    }
}

/// A state at the first cycle of an OAM scan of line `ly`.
pub open spec fn line_start(p: PpuView, m: MemView) -> bool {
    &&& spec_stat_of(m.lcd_status).mode == 2
    &&& p.clocks_to_finish == 80
}

/// The first 80 cycles of a scanline: the OAM scan burns its budget
/// without touching the bus, and its last cycle enters mode 3.
#[verifier::rlimit(100)]
proof fn lemma_seg2(p: PpuView, m: MemView, t: int)
    requires
        line_start(p, m),
        0 <= t <= 80,
    ensures
        t < 80 ==> spec_ppu_run(p, m, t).1 == m,
        t < 80 ==> spec_ppu_run(p, m, t).0.clocks_to_finish == 80 - t,
        t == 80 ==> ({
            let (p1, m1) = spec_ppu_run(p, m, t);
            &&& spec_stat_of(m1.lcd_status).mode == 3
            &&& p1.clocks_to_finish == 172
            &&& m1.ly == m.ly
            &&& m1.interrupt_flag == m.interrupt_flag
        }),
{
    if t < 80 {
        lemma_ppu_burn(p, m, t);
    } else {
        lemma_ppu_burn(p, m, 79);
        lemma_ppu_run_add(p, m, 79, 1);
        lemma_stat_bits_roundtrip(LCDStatus { mode: 3, ..spec_stat_of(m.lcd_status) });
    }
}

/// The 172 drawing cycles: the last one renders the line and enters
/// HBlank; IF bit 0 is untouched.
#[verifier::rlimit(100)]
proof fn lemma_seg3(p: PpuView, m: MemView, t: int)
    requires
        spec_stat_of(m.lcd_status).mode == 3,
        p.clocks_to_finish == 172,
        0 <= t <= 172,
    ensures
        t < 172 ==> spec_ppu_run(p, m, t).1 == m,
        t == 172 ==> ({
            let (p1, m1) = spec_ppu_run(p, m, t);
            &&& spec_stat_of(m1.lcd_status).mode == 0
            &&& p1.clocks_to_finish == 204
            &&& m1.ly == m.ly
            &&& m1.interrupt_flag % 2 == m.interrupt_flag % 2
        }),
{
    if t < 172 {
        lemma_ppu_burn(p, m, t);
    } else {
        lemma_ppu_burn(p, m, 171);
        lemma_ppu_run_add(p, m, 171, 1);
        lemma_stat_bits_roundtrip(LCDStatus { mode: 0, ..spec_stat_of(m.lcd_status) });
        lemma_if_bits(m.interrupt_flag);
    }
}

/// The 204 HBlank cycles: the last one steps to the next line's OAM scan,
/// or into VBlank after line 143, raising the VBlank interrupt there.
#[verifier::rlimit(100)]
proof fn lemma_seg0(p: PpuView, m: MemView, t: int)
    requires
        spec_stat_of(m.lcd_status).mode == 0,
        p.clocks_to_finish == 204,
        m.ly <= 143,
        0 <= t <= 204,
    ensures
        t < 204 ==> spec_ppu_run(p, m, t).1 == m,
        t == 204 && m.ly < 143 ==> ({
            let (p1, m1) = spec_ppu_run(p, m, t);
            &&& line_start(p1, m1)
            &&& m1.ly == m.ly + 1
            &&& m1.interrupt_flag % 2 == m.interrupt_flag % 2
        }),
        t == 204 && m.ly == 143 ==> ({
            let (p1, m1) = spec_ppu_run(p, m, t);
            &&& spec_stat_of(m1.lcd_status).mode == 1
            &&& p1.clocks_to_finish == 456
            &&& m1.ly == 144
            &&& m1.interrupt_flag % 2 == 1
        }),
{
    if t < 204 {
        lemma_ppu_burn(p, m, t);
    } else {
        lemma_ppu_burn(p, m, 203);
        lemma_ppu_run_add(p, m, 203, 1);
        let stat = spec_stat_of(m.lcd_status);
        if m.ly < 143 {
            lemma_stat_bits_roundtrip(LCDStatus { mode: 2, ..stat });
            let m6 = crate::ppu::spec_enter_mode2(spec_ppu_run(p, m, 203).0, m).1;
            lemma_stat_bits_roundtrip(LCDStatus {
                ly_compare: ((m.ly + 1) as u8) == m6.lyc,
                ..spec_stat_of(m6.lcd_status)
            });
            lemma_if_bits(m.interrupt_flag);
            lemma_if_bits(m6.interrupt_flag);
        } else {
            lemma_stat_bits_roundtrip(LCDStatus { mode: 1, ..stat });
            let m6 = crate::ppu::spec_enter_mode1(spec_ppu_run(p, m, 203).0, m).1;
            lemma_stat_bits_roundtrip(LCDStatus {
                ly_compare: 144u8 == m6.lyc,
                ..spec_stat_of(m6.lcd_status)
            });
            lemma_if_bits(m.interrupt_flag);
            lemma_if_bits(m.interrupt_flag | 1);
            lemma_if_bits(m6.interrupt_flag);
        }
    }
}

/// One visible scanline of the picture processor alone: STAT mode reads 2
/// for the first 80 cycles, 3 for the next 172, 0 for the next 204, and
/// the 456th cycle moves to the OAM scan of the next line (or, after line
/// 143, into VBlank with the VBlank interrupt raised in IF bit 0).
pub proof fn lemma_ppu_scanline(p: PpuView, m: MemView, t: int)
    requires
        line_start(p, m),
        m.ly <= 143,
        0 <= t <= 456,
    ensures
        0 <= t < 80 ==> spec_stat_of(spec_ppu_run(p, m, t).1.lcd_status).mode == 2
            && spec_ppu_run(p, m, t).1.ly == m.ly,
        80 <= t < 252 ==> spec_stat_of(spec_ppu_run(p, m, t).1.lcd_status).mode == 3
            && spec_ppu_run(p, m, t).1.ly == m.ly,
        252 <= t < 456 ==> spec_stat_of(spec_ppu_run(p, m, t).1.lcd_status).mode == 0
            && spec_ppu_run(p, m, t).1.ly == m.ly,
        0 <= t < 456 ==> spec_ppu_run(p, m, t).1.interrupt_flag % 2 == m.interrupt_flag % 2,
        t == 456 && m.ly < 143 ==> line_start(spec_ppu_run(p, m, t).0, spec_ppu_run(p, m, t).1)
            && spec_ppu_run(p, m, t).1.ly == m.ly + 1 && spec_ppu_run(
            p,
            m,
            t,
        ).1.interrupt_flag % 2 == m.interrupt_flag % 2,
        t == 456 && m.ly == 143 ==> spec_stat_of(spec_ppu_run(p, m, t).1.lcd_status).mode == 1
            && spec_ppu_run(p, m, t).0.clocks_to_finish == 456 && spec_ppu_run(p, m, t).1.ly
            == 144 && spec_ppu_run(p, m, t).1.interrupt_flag % 2 == 1,
{
    if t < 80 {
        lemma_seg2(p, m, t);
    } else {
        lemma_seg2(p, m, 80);
        let (p3, m3) = spec_ppu_run(p, m, 80);
        lemma_ppu_run_add(p, m, 80, t - 80);
        if t < 252 {
            lemma_seg3(p3, m3, t - 80);
        } else {
            lemma_seg3(p3, m3, 172);
            lemma_ppu_run_add(p3, m3, 172, t - 252);
            let (p0, m0) = spec_ppu_run(p3, m3, 172);
            lemma_seg0(p0, m0, t - 252);
        }
    }
}

/// One VBlank line: STAT mode reads 1 throughout; the 456th cycle moves to
/// the next line, and after line 153 wraps to the OAM scan of line 0 with
/// the per-frame window state reset.
pub proof fn lemma_ppu_vblank_line(p: PpuView, m: MemView, t: int)
    requires
        spec_stat_of(m.lcd_status).mode == 1,
        p.clocks_to_finish == 456,
        144 <= m.ly <= 153,
        0 <= t <= 456,
    ensures
        0 <= t < 456 ==> spec_stat_of(spec_ppu_run(p, m, t).1.lcd_status).mode == 1
            && spec_ppu_run(p, m, t).1.ly == m.ly,
        0 <= t < 456 ==> spec_ppu_run(p, m, t).1.interrupt_flag == m.interrupt_flag,
        t == 456 && m.ly < 153 ==> spec_stat_of(spec_ppu_run(p, m, t).1.lcd_status).mode == 1
            && spec_ppu_run(p, m, t).0.clocks_to_finish == 456 && spec_ppu_run(p, m, t).1.ly
            == m.ly + 1 && spec_ppu_run(p, m, t).1.interrupt_flag % 2 == m.interrupt_flag % 2,
        t == 456 && m.ly == 153 ==> line_start(spec_ppu_run(p, m, t).0, spec_ppu_run(p, m, t).1)
            && spec_ppu_run(p, m, t).1.ly == 0 && spec_ppu_run(
            p,
            m,
            t,
        ).0.window_line_counter == 0 && !spec_ppu_run(p, m, t).0.wy_cond_triggered,
{
    if t < 456 {
        lemma_ppu_burn(p, m, t);
    } else {
        lemma_ppu_burn(p, m, 455);
        lemma_ppu_run_add(p, m, 455, 1);
        let (p5, m5) = spec_ppu_run(p, m, 455);
        let stat5 = spec_stat_of(m5.lcd_status);
        if m.ly < 153 {
            lemma_stat_bits_roundtrip(LCDStatus {
                ly_compare: ((m.ly + 1) % 256) as u8 == m5.lyc,
                ..stat5
            });
            lemma_if_bits(m.interrupt_flag);
        } else {
            lemma_stat_bits_roundtrip(LCDStatus { mode: 2, ..stat5 });
            let m6 = crate::ppu::spec_enter_mode2(p5, m5).1;
            lemma_stat_bits_roundtrip(LCDStatus {
                ly_compare: 0u8 == m6.lyc,
                ..spec_stat_of(m6.lcd_status)
            });
        }
    }
}


/// The STAT mode scheduled at cycle `t` of a frame: (2, 3, 0) across each
/// of the 144 visible lines, then 1 for the ten VBlank lines.
pub open spec fn frame_mode(t: int) -> int {
    let pos = t % 456;
    if t / 456 < 144 {
        if pos < 80 {
            2
        } else if pos < 252 {
            3
        } else {
            0
        }
    } else {
        1
    }
}

/// Visible lines compose: after k whole scanlines the machine is at the
/// start of line k, with IF bit 0 untouched.
proof fn lemma_ppu_lines(p: PpuView, m: MemView, k: int)
    requires
        line_start(p, m),
        m.ly == 0,
        0 <= k <= 143,
    ensures
        ({
            let (pk, mk) = spec_ppu_run(p, m, (456 * k) as int);
            &&& line_start(pk, mk)
            &&& mk.ly == k
            &&& mk.interrupt_flag % 2 == m.interrupt_flag % 2
        }),
    decreases k,
{
    if k > 0 {
        lemma_ppu_lines(p, m, k - 1);
        let (pk1, mk1) = spec_ppu_run(p, m, (456 * (k - 1)) as int);
        lemma_ppu_scanline(pk1, mk1, 456);
        lemma_ppu_run_add(p, m, (456 * (k - 1)) as int, 456);
    }
}

/// VBlank lines compose: after k whole VBlank lines the machine is at the
/// start of VBlank line 144 + k, with IF bit 0 untouched.
proof fn lemma_ppu_vlines(p: PpuView, m: MemView, k: int)
    requires
        spec_stat_of(m.lcd_status).mode == 1,
        p.clocks_to_finish == 456,
        m.ly == 144,
        0 <= k <= 9,
    ensures
        ({
            let (pk, mk) = spec_ppu_run(p, m, (456 * k) as int);
            &&& spec_stat_of(mk.lcd_status).mode == 1
            &&& pk.clocks_to_finish == 456
            &&& mk.ly == 144 + k
            &&& mk.interrupt_flag % 2 == m.interrupt_flag % 2
        }),
    decreases k,
{
    if k > 0 {
        lemma_ppu_vlines(p, m, k - 1);
        let (pk1, mk1) = spec_ppu_run(p, m, (456 * (k - 1)) as int);
        lemma_ppu_vblank_line(pk1, mk1, 456);
        lemma_ppu_run_add(p, m, (456 * (k - 1)) as int, 456);
    }
}

/// The visible part of a frame, from the start of line 0: mode follows
/// the schedule, LY reads t / 456, IF bit 0 is untouched.
#[verifier::rlimit(100)]
proof fn lemma_ppu_frame_visible(p: PpuView, m: MemView, t: int)
    requires
        line_start(p, m),
        m.ly == 0,
        0 <= t < 65664,
    ensures
        spec_stat_of(spec_ppu_run(p, m, t).1.lcd_status).mode as int == frame_mode(t),
        spec_ppu_run(p, m, t).1.ly as int == t / 456,
        spec_ppu_run(p, m, t).1.interrupt_flag % 2 == m.interrupt_flag % 2,
{
    let line = t / 456;
    let pos = t % 456;
    assert(t == 456 * line + pos) by (nonlinear_arith)
        requires
            line == t / 456,
            pos == t % 456,
            t >= 0,
    ;
    lemma_ppu_lines(p, m, line);
    lemma_ppu_run_add(p, m, (456 * line) as int, pos);
    let (pl, ml) = spec_ppu_run(p, m, (456 * line) as int);
    lemma_ppu_scanline(pl, ml, pos);
}

/// The VBlank part of a frame: mode reads 1, LY reads t / 456, IF bit 0
/// is set, and the 70,224th cycle starts the next frame at line 0.
#[verifier::rlimit(100)]
proof fn lemma_ppu_frame_vblank(p: PpuView, m: MemView, t: int)
    requires
        line_start(p, m),
        m.ly == 0,
        65664 <= t <= 70224,
    ensures
        t < 70224 ==> spec_stat_of(spec_ppu_run(p, m, t).1.lcd_status).mode == 1
            && spec_ppu_run(p, m, t).1.ly as int == t / 456 && spec_ppu_run(
            p,
            m,
            t,
        ).1.interrupt_flag % 2 == 1,
        t == 70224 ==> line_start(spec_ppu_run(p, m, t).0, spec_ppu_run(p, m, t).1)
            && spec_ppu_run(p, m, t).1.ly == 0,
{
    lemma_ppu_lines(p, m, 143);
    let (pl, ml) = spec_ppu_run(p, m, 65208int);
    lemma_ppu_scanline(pl, ml, 456);
    lemma_ppu_run_add(p, m, 65208, 456);
    let (pv, mv) = spec_ppu_run(p, m, 65664);
    lemma_ppu_run_add(p, m, 65664, t - 65664);
    if t < 70224 {
        let k = (t - 65664) / 456;
        let pos = (t - 65664) % 456;
        assert(t - 65664 == 456 * k + pos) by (nonlinear_arith)
            requires
                k == (t - 65664) / 456,
                pos == (t - 65664) % 456,
                t >= 65664,
        ;
        lemma_ppu_vlines(pv, mv, k);
        lemma_ppu_run_add(pv, mv, (456 * k) as int, pos);
        let (pk, mk) = spec_ppu_run(pv, mv, (456 * k) as int);
        lemma_ppu_vblank_line(pk, mk, pos);
    } else {
        lemma_ppu_vlines(pv, mv, 9);
        let (pk, mk) = spec_ppu_run(pv, mv, 4104int);
        lemma_ppu_vblank_line(pk, mk, 456);
        lemma_ppu_run_add(pv, mv, 4104, 456);
    }
}

/// One whole frame of the picture processor alone, from the start of line
/// 0: across the 70,224 cycles STAT mode follows the frame schedule
/// (2, 3, 0) for each of the 144 visible lines and then 1 through VBlank;
/// LY reads t / 456, so it passes through 0..=153 exactly once; the VBlank
/// interrupt (IF bit 0) is raised when VBlank begins and not before; and
/// the 70,224th cycle starts the next frame at line 0.
pub proof fn lemma_ppu_frame(p: PpuView, m: MemView, t: int)
    requires
        line_start(p, m),
        m.ly == 0,
        0 <= t <= 70224,
    ensures
        t < 70224 ==> spec_stat_of(spec_ppu_run(p, m, t).1.lcd_status).mode as int == frame_mode(
            t,
        ),
        t < 70224 ==> spec_ppu_run(p, m, t).1.ly as int == t / 456,
        t < 65664 ==> spec_ppu_run(p, m, t).1.interrupt_flag % 2 == m.interrupt_flag % 2,
        65664 <= t < 70224 ==> spec_ppu_run(p, m, t).1.interrupt_flag % 2 == 1,
        t == 70224 ==> line_start(spec_ppu_run(p, m, t).0, spec_ppu_run(p, m, t).1)
            && spec_ppu_run(p, m, t).1.ly == 0,
{
    if t < 65664 {
        lemma_ppu_frame_visible(p, m, t);
    } else {
        lemma_ppu_frame_vblank(p, m, t);
    }
}

/// The sample rate: every audio tick advances the sample clock modulo 87,
/// and the output buffer grows exactly when the 87th cycle elapses, by one
/// sample.
#[verifier::rlimit(100)]
pub proof fn lemma_sample_rate(a: ApuView, m: MemView)
    requires
        a.sampling_timer < 87,
    ensures
        spec_apu_tick(a, m).0.sampling_timer == (a.sampling_timer + 1) % 87,
        spec_apu_tick(a, m).0.audio_buffer.len() == a.audio_buffer.len() + (
        if a.sampling_timer == 86 {
            1int
        } else {
            0int
        }),
{
    let (a1, m1) = spec_apu_trigger(a, m);
    assert(a1.sampling_timer == a.sampling_timer && a1.audio_buffer == a.audio_buffer);
    let a2 = crate::apu::spec_apu_freq(a1, m1);
    assert(a2.sampling_timer == a.sampling_timer && a2.audio_buffer == a.audio_buffer);
    let (a3, m3) = crate::apu::spec_apu_seq(a2, m1);
    assert(a3.sampling_timer == a.sampling_timer && a3.audio_buffer == a.audio_buffer);
}

} // verus!
