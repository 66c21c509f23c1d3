//! Whole-machine scenarios: reset, instruction timing, HALT, the HALT
//! bug, the delayed EI, OAM DMA through the bus and frame production.

use dmg_core::emulator::Emulator;

fn rom_with(bytes: &[(usize, u8)]) -> Vec<u8> {
    let mut rom = vec![0u8; 0x8000];
    for &(addr, value) in bytes {
        rom[addr] = value;
    }
    rom
}

fn booted(bytes: &[(usize, u8)]) -> Emulator {
    let mut emu = Emulator::new();
    emu.load_rom(&rom_with(bytes));
    emu.init();
    emu
}

#[test]
fn reset_and_init() {
    let mut emu = Emulator::new();
    emu.init();
    assert_eq!(emu.cpu.registers.pc, 0x0100);
    assert_eq!(emu.cpu.registers.sp, 0xfffe);
    assert_eq!(emu.cpu.registers.a, 0x00);
    assert_eq!(emu.cpu.registers.f, 0x80);
    assert_eq!(emu.memory.get_byte(0xff04), 0xab);
    assert_eq!(emu.memory.rom_bank_number, 1);
}

#[test]
fn simple_add() {
    // LD A,0x0F; ADD A,1
    let mut emu = booted(&[(0x100, 0x3e), (0x101, 0x0f), (0x102, 0xc6), (0x103, 0x01)]);
    for _ in 0..20 {
        emu.tick();
    }
    assert_eq!(emu.cpu.registers.a, 0x10);
    assert_eq!(emu.cpu.registers.f, 0x20);
}

#[test]
fn rom_header_is_latched() {
    let mut emu = Emulator::new();
    let mut rom = vec![0u8; 0x8000];
    rom[0x147] = 0x01;
    rom[0x148] = 0x04;
    rom[0x149] = 0x03;
    rom[0x3fff] = 0x9c;
    emu.load_rom(&rom);
    assert_eq!(emu.memory.cart_type, 0x01);
    assert_eq!(emu.memory.rom_size, 0x04);
    assert_eq!(emu.memory.ram_size, 0x03);
    assert_eq!(emu.memory.get_byte(0x3fff), 0x9c);
}

#[test]
fn savedata_roundtrip() {
    let mut emu = Emulator::new();
    let mut blob = vec![0u8; 0x8000];
    for (i, b) in blob.iter_mut().enumerate() {
        *b = (i % 251) as u8;
    }
    emu.load_savedata(&blob);
    let out = emu.get_savedata();
    assert_eq!(out, blob);
}

#[test]
fn halt_wake_without_service() {
    // HALT at 0x100, then NOPs; IE = 0x04, IF = 0, IME off
    let mut emu = booted(&[(0x100, 0x76)]);
    emu.memory.set_byte(0xffff, 0x04);
    emu.memory.set_byte(0xff0f, 0x00);
    assert!(!emu.memory.interrupt_master_enable);
    for _ in 0..100 {
        emu.tick();
    }
    assert!(emu.cpu.is_halt);
    assert_eq!(emu.cpu.registers.pc, 0x101);
    // a pending timer interrupt wakes the CPU but, with IME off, is not
    // serviced: execution continues in line and IF keeps its bit
    emu.memory.set_byte(0xff0f, 0x04);
    for _ in 0..4 {
        emu.tick();
    }
    assert!(!emu.cpu.is_halt);
    // the wake tick fetched the instruction at HALT+1 (0x101)
    assert_eq!(emu.cpu.registers.pc, 0x102);
    assert_eq!(emu.memory.interrupt_flag & 0x04, 0x04);
}

#[test]
fn halt_bug_runs_next_instruction_twice() {
    // IME off with a pending interrupt: HALT; INC B runs INC B twice
    let mut emu = booted(&[(0x100, 0x76), (0x101, 0x04)]);
    emu.memory.set_byte(0xffff, 0x04);
    emu.memory.set_byte(0xff0f, 0x04);
    emu.cpu.registers.b = 0;
    // HALT (4 cycles), INC B fetched twice (4 + 4 cycles)
    for _ in 0..12 {
        emu.tick();
    }
    assert_eq!(emu.cpu.registers.b, 2);
    assert_eq!(emu.cpu.registers.pc, 0x102);
    assert!(!emu.cpu.is_halt);
}

#[test]
fn conditional_jp_taken_and_not_taken() {
    // JP Z,0x1234 with Z set takes 16 cycles to the target
    let mut emu = booted(&[(0x100, 0xca), (0x101, 0x34), (0x102, 0x12)]);
    assert_eq!(emu.cpu.registers.f, 0x80);
    for _ in 0..12 {
        emu.tick();
    }
    assert_ne!(emu.cpu.registers.pc, 0x1234);
    for _ in 0..4 {
        emu.tick();
    }
    assert_eq!(emu.cpu.registers.pc, 0x1234);
    // with Z clear it takes 12 cycles and falls through
    let mut emu = booted(&[(0x100, 0xca), (0x101, 0x34), (0x102, 0x12)]);
    emu.cpu.registers.f = 0x00;
    for _ in 0..12 {
        emu.tick();
    }
    assert_eq!(emu.cpu.registers.pc, 0x103);
}

#[test]
fn conditional_jr_taken_cycles() {
    // JR NZ,+2 with Z clear: 8 base + 4 extra cycles, lands at 0x104
    let mut emu = booted(&[(0x100, 0x20), (0x101, 0x02)]);
    emu.cpu.registers.f = 0x00;
    for _ in 0..12 {
        emu.tick();
    }
    assert_eq!(emu.cpu.registers.pc, 0x104);
    // backwards displacement: JR NZ,-2 spins on itself
    let mut emu = booted(&[(0x100, 0x20), (0x101, 0xfe)]);
    emu.cpu.registers.f = 0x00;
    for _ in 0..12 {
        emu.tick();
    }
    assert_eq!(emu.cpu.registers.pc, 0x100);
}

#[test]
fn conditional_call_and_ret() {
    // CALL NZ,0x0200 with Z clear: 12 + 12 cycles; RET C at 0x200 with C
    // set: 8 + 12 cycles back to 0x103
    let mut emu = booted(&[(0x100, 0xc4), (0x101, 0x00), (0x102, 0x02), (0x200, 0xd8)]);
    emu.cpu.registers.f = 0x10;
    for _ in 0..24 {
        emu.tick();
    }
    assert_eq!(emu.cpu.registers.pc, 0x200);
    assert_eq!(emu.cpu.registers.sp, 0xfffc);
    for _ in 0..20 {
        emu.tick();
    }
    assert_eq!(emu.cpu.registers.pc, 0x103);
    assert_eq!(emu.cpu.registers.sp, 0xfffe);
}

#[test]
fn ei_delay_enables_after_following_instruction() {
    // EI; NOP; NOP: IME turns on exactly when the NOP after EI completes
    let mut emu = booted(&[(0x100, 0xfb)]);
    emu.memory.set_byte(0xff0f, 0x00);
    for _ in 0..4 {
        emu.tick();
    }
    // EI itself has completed; IME still off
    assert!(!emu.memory.interrupt_master_enable);
    for _ in 0..3 {
        emu.tick();
    }
    assert!(!emu.memory.interrupt_master_enable);
    emu.tick();
    // the following NOP has completed
    assert!(emu.memory.interrupt_master_enable);
}

#[test]
fn ei_di_leaves_ime_off() {
    // EI; DI: DI overrides the delayed enable, IME stays off throughout
    let mut emu = booted(&[(0x100, 0xfb), (0x101, 0xf3)]);
    emu.memory.set_byte(0xff0f, 0x00);
    for _ in 0..16 {
        emu.tick();
        assert!(!emu.memory.interrupt_master_enable);
    }
}

#[test]
fn oam_dma_through_the_bus() {
    let mut emu = booted(&[]);
    for i in 0..0xa0u16 {
        emu.memory.set_byte(0xc000 + i, i as u8);
    }
    emu.memory.set_byte(0xff46, 0xc0);
    for i in 0..0xa0u16 {
        assert_eq!(emu.memory.get_byte(0xfe00 + i), i as u8);
    }
}

#[test]
fn frame_production() {
    let mut emu = booted(&[]);
    emu.next_frame();
    assert_eq!(emu.get_frame_buffer().len(), 160 * 144 * 4);
    assert_eq!(emu.get_audio_buffer().len(), 70224 / 87);
    assert_eq!(emu.get_audio_buffer().len(), 807);
}

#[test]
fn joypad_press_pulls_line_low_and_interrupts() {
    let mut emu = booted(&[]);
    emu.memory.set_byte(0xff0f, 0x00);
    // select the button row (bit 5 low)
    emu.memory.set_byte(0xff00, 0x10);
    emu.update_joypad_input(dmg_core::emulator::JoypadInput::new(
        true, false, false, false, false, false, false, false,
    ));
    emu.update_joypad();
    // start is pressed: bit 3 reads low, and the transition raised IF bit 4
    assert_eq!(emu.memory.get_byte(0xff00) & 0x08, 0);
    assert_eq!(emu.memory.interrupt_flag & 0x10, 0x10);
}

#[test]
fn running_flag() {
    let mut emu = Emulator::new();
    assert!(!emu.running);
    emu.run();
    assert!(emu.running);
    emu.stop();
    assert!(!emu.running);
}
