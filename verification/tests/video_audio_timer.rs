//! The PPU mode sequence over a frame, audio length expiry, the noise
//! trigger, sample levels, and the timer rates.

use dmg_core::apu::APU;
use dmg_core::emulator::Emulator;
use dmg_core::memory::Memory;
use dmg_core::timer::Timer;

#[test]
fn ppu_mode_sequence_over_one_frame() {
    let mut emu = Emulator::new();
    emu.load_rom(&vec![0u8; 0x8000]);
    emu.init();
    // run to the frame boundary: LY wraps to 0 with mode 2 freshly entered
    while !(emu.memory.ly == 0 && emu.memory.lcd_status & 3 == 2) {
        emu.tick();
    }
    emu.memory.set_byte(0xff0f, 0x00);
    let mut ly_seen = vec![0u32; 154];
    for line in 0..144u16 {
        // mode 2 for 80 cycles, mode 3 for 172, mode 0 for 204
        assert_eq!(emu.memory.lcd_status & 3, 2, "line {line}");
        assert_eq!(emu.memory.ly as u16, line);
        ly_seen[line as usize] += 1;
        for _ in 0..80 {
            assert_eq!(emu.memory.lcd_status & 3, 2);
            emu.tick();
        }
        for _ in 0..172 {
            assert_eq!(emu.memory.lcd_status & 3, 3);
            emu.tick();
        }
        for _ in 0..204 {
            assert_eq!(emu.memory.lcd_status & 3, 0);
            emu.tick();
        }
    }
    // entering VBlank raised IF bit 0
    assert_eq!(emu.memory.lcd_status & 3, 1);
    assert_eq!(emu.memory.interrupt_flag & 1, 1);
    for line in 144..154u16 {
        assert_eq!(emu.memory.lcd_status & 3, 1);
        assert_eq!(emu.memory.ly as u16, line);
        ly_seen[line as usize] += 1;
        for _ in 0..456 {
            emu.tick();
        }
    }
    // the frame wrapped: back to mode 2 at LY 0, each LY visited once
    assert_eq!(emu.memory.ly, 0);
    assert_eq!(emu.memory.lcd_status & 3, 2);
    for line in 0..154 {
        assert_eq!(ly_seen[line], 1);
    }
}

#[test]
fn square_length_expiry_after_64_ticks() {
    let mut mem = Memory::new();
    let mut apu = APU::new();
    // trigger channel 1 with length enable and length field 0
    mem.set_byte(0xff11, 0x00);
    mem.set_byte(0xff14, 0xc0);
    apu.tick(&mut mem);
    assert_eq!(mem.nr52 & 1, 1);
    assert_eq!(apu.length_timer_1, 64);
    // length clocks come on even sequencer steps: the first after 8192
    // T-cycles, then every 16384; the 64th lands at 8192 + 63 * 16384
    let last_clock: u64 = 8192 + 63 * 16384;
    let mut t: u64 = 1;
    while t < last_clock {
        apu.tick(&mut mem);
        t += 1;
        if t == last_clock - 1 {
            assert_eq!(mem.nr52 & 1, 1);
        }
    }
    assert_eq!(mem.nr52 & 1, 0);
    assert_eq!(apu.length_timer_1, 0);
}

#[test]
fn wave_length_expiry_after_256_ticks() {
    let mut mem = Memory::new();
    let mut apu = APU::new();
    mem.set_byte(0xff1b, 0x00);
    mem.set_byte(0xff1e, 0xc0);
    apu.tick(&mut mem);
    assert_eq!(mem.nr52 & 4, 4);
    assert_eq!(apu.length_timer_3, 256);
    let last_clock: u64 = 8192 + 255 * 16384;
    let mut t: u64 = 1;
    while t < last_clock {
        apu.tick(&mut mem);
        t += 1;
    }
    assert_eq!(mem.nr52 & 4, 0);
}

#[test]
fn noise_trigger_reloads_lfsr() {
    let mut mem = Memory::new();
    let mut apu = APU::new();
    mem.set_byte(0xff20, 0x00);
    mem.set_byte(0xff22, 0x17);
    mem.set_byte(0xff23, 0x80);
    apu.tick(&mut mem);
    assert_eq!(mem.nr52 & 8, 8);
    assert_eq!(apu.lfsr, 0x7fff);
    // divisor 7 * 16, shifted by 1
    assert!(apu.frequency_timer_4 >= 112 * 2 - 1);
}

#[test]
fn sample_levels_follow_nr52_and_volume() {
    let mut mem = Memory::new();
    let mut apu = APU::new();
    // enable channel 1 with full volume and a half duty, no length
    mem.set_byte(0xff11, 0x80);
    mem.set_byte(0xff12, 0xf0);
    mem.set_byte(0xff14, 0x80);
    for _ in 0..87 {
        apu.tick(&mut mem);
    }
    let buf = apu.audio_buffer.clone();
    assert_eq!(buf.len(), 1);
    assert!(buf[0].ch1.is_some());
    assert!(buf[0].ch2.is_none());
    let level = buf[0].ch1.unwrap();
    assert!(level == 0 || level == 15);
    apu.clear_audio_buffer();
    assert_eq!(apu.audio_buffer.len(), 0);
}

#[test]
fn tima_increments_every_16_cycles_at_mode_1() {
    let mut mem = Memory::new();
    let mut timer = Timer::new();
    mem.timer_control = 0b101;
    mem.timer = 0;
    for k in 1..=160u32 {
        timer.tick(&mut mem);
        assert_eq!(mem.timer as u32, k / 16);
    }
}

#[test]
fn tima_overflow_reloads_tma_and_interrupts() {
    let mut mem = Memory::new();
    let mut timer = Timer::new();
    mem.timer_control = 0b101;
    mem.timer = 0xff;
    mem.timer_modulo = 0x23;
    for _ in 0..15 {
        timer.tick(&mut mem);
    }
    assert_eq!(mem.timer, 0xff);
    assert_eq!(mem.interrupt_flag & 4, 0);
    timer.tick(&mut mem);
    assert_eq!(mem.timer, 0x23);
    assert_eq!(mem.interrupt_flag & 4, 4);
}

#[test]
fn div_increments_every_256_cycles() {
    let mut mem = Memory::new();
    let mut timer = Timer::new();
    mem.divider = 0xff;
    for _ in 0..255 {
        timer.tick(&mut mem);
    }
    assert_eq!(mem.divider, 0xff);
    timer.tick(&mut mem);
    // DIV wraps as an 8-bit counter
    assert_eq!(mem.divider, 0x00);
}
