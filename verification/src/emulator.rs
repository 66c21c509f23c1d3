//! The driver: one `Emulator` owns the bus and the four subsystems and
//! advances them in fixed order on every T-cycle; a frame is exactly
//! 70,224 T-cycles. It also carries the host-facing operations: reset
//! seeding, ROM and save-data loading, joypad input and the framebuffer
//! and audio-buffer reads.

use vstd::prelude::*;
use crate::memory::{Memory, MemView, CART_ROM_SIZE, CART_RAM_SIZE};
use crate::cpu::{CPU, Registers, spec_cpu_init, spec_cpu_tick};
use crate::ppu::{PPU, PpuView, spec_ppu_init, spec_ppu_tick, FRAME_BUFFER_SIZE};
use crate::apu::{APU, ApuView, AudioSample, spec_apu_init, spec_apu_tick};
use crate::timer::{Timer, spec_timer_tick};

verus! {

/// T-cycles per video frame.
pub const CLOCKS_PER_FRAME: usize = 70224;

/// The state of the eight joypad keys; true means pressed.
#[derive(Clone, Copy, Debug, PartialEq, Eq, Structural)]
pub struct JoypadInput {
    pub start: bool,
    pub select: bool,
    pub a: bool,
    pub b: bool,
    pub down: bool,
    pub up: bool,
    pub left: bool,
    pub right: bool,
}

impl JoypadInput {
    /// A joypad state from the eight keys.
    pub fn new(
        start: bool,
        select: bool,
        a: bool,
        b: bool,
        down: bool,
        up: bool,
        left: bool,
        right: bool,
    ) -> (r: JoypadInput)
        ensures
            r == (JoypadInput { start, select, a, b, down, up, left, right }),
    {
        JoypadInput { start, select, a, b, down, up, left, right }
    }

    /// All keys released.
    pub fn released() -> (r: JoypadInput)
        ensures
            r == (JoypadInput {
                start: false,
                select: false,
                a: false,
                b: false,
                down: false,
                up: false,
                left: false,
                right: false,
            }),
    {
        JoypadInput {
            start: false,
            select: false,
            a: false,
            b: false,
            down: false,
            up: false,
            left: false,
            right: false,
        }
    }
}

/// The whole machine.
pub struct Emulator {
    pub cpu: CPU,
    pub ppu: PPU,
    pub apu: APU,
    pub timer: Timer,
    pub memory: Memory,
    pub joypad_input: JoypadInput,
    pub running: bool,
}

/// Mathematical view of the whole machine.
#[verifier::ext_equal]
pub ghost struct EmuView {
    pub cpu: CPU,
    pub ppu: PpuView,
    pub apu: ApuView,
    pub timer: Timer,
    pub memory: MemView,
    pub joypad_input: JoypadInput,
    pub running: bool,
}

impl View for Emulator {
    type V = EmuView;

    open spec fn view(&self) -> EmuView {
        EmuView {
            cpu: self.cpu,
            ppu: self.ppu@,
            apu: self.apu@,
            timer: self.timer,
            memory: self.memory@,
            joypad_input: self.joypad_input,
            running: self.running,
        }
    }
}

impl EmuView {
    /// Well-formedness of every subsystem.
    pub open spec fn wf(self) -> bool {
        &&& self.memory.wf()
        &&& self.cpu.wf()
        &&& self.ppu.wf()
        &&& self.apu.wf()
    }
}

/// The machine state after construction, before `init`.
pub open spec fn spec_emu_init() -> EmuView {
    EmuView {
        cpu: spec_cpu_init(),
        ppu: spec_ppu_init(),
        apu: spec_apu_init(),
        timer: Timer { timer_counter: 0, divider_counter: 0 },
        memory: MemView::init(),
        joypad_input: JoypadInput {
            start: false,
            select: false,
            a: false,
            b: false,
            down: false,
            up: false,
            left: false,
            right: false,
        },
        running: false,
    }
}

/// The joypad register refresh: the selected key row drives the low four
/// bits active-low, and any released-to-pressed transition observed on
/// those bits raises the joypad interrupt (IF bit 4).
pub open spec fn spec_joypad_update(j: JoypadInput, m: MemView) -> MemView {
    let jp = m.joypad;
    let next = spec_joypad_next(j, jp);
    let falling = ((jp % 2 == 1) && (next % 2 == 0)) || (((jp / 2) % 2 == 1) && ((next / 2) % 2
        == 0)) || (((jp / 4) % 2 == 1) && ((next / 4) % 2 == 0)) || (((jp / 8) % 2 == 1) && ((next
        / 8) % 2 == 0));
    MemView {
        joypad: next,
        interrupt_flag: if falling {
            m.interrupt_flag | 16
        } else {
            m.interrupt_flag
        },
        ..m
    }
}

/// The next joypad register value: bits 0..=3 are driven active-low by the
/// key row that bits 4..=5 select.
pub open spec fn spec_joypad_next(j: JoypadInput, jp: u8) -> u8 {
    let base = (jp - jp % 16 + 15) as u8;
    if (jp / 32) % 2 == 0 {
        (base - (if j.start {
            8int
        } else {
            0int
        }) - (if j.select {
            4int
        } else {
            0int
        }) - (if j.b {
            2int
        } else {
            0int
        }) - (if j.a {
            1int
        } else {
            0int
        })) as u8
    } else if (jp / 16) % 2 == 0 {
        (base - (if j.down {
            8int
        } else {
            0int
        }) - (if j.up {
            4int
        } else {
            0int
        }) - (if j.left {
            2int
        } else {
            0int
        }) - (if j.right {
            1int
        } else {
            0int
        })) as u8
    } else {
        base
    }
}

/// One T-cycle of the whole machine: joypad sampling, then the timer, the
/// picture processor, the audio unit and the CPU, all sharing the bus.
pub open spec fn spec_emu_tick(e: EmuView) -> EmuView {
    let m1 = spec_joypad_update(e.joypad_input, e.memory);
    let (t2, m2) = spec_timer_tick(e.timer, m1);
    let (p3, m3) = spec_ppu_tick(e.ppu, m2);
    let (a4, m4) = spec_apu_tick(e.apu, m3);
    let (c5, m5) = spec_cpu_tick(e.cpu, m4);
    EmuView { cpu: c5, ppu: p3, apu: a4, timer: t2, memory: m5, ..e }
}

/// The machine after `n` T-cycles.
pub open spec fn spec_emu_run(e: EmuView, n: int) -> EmuView
    decreases n,
{
    if n <= 0 {
        e
    } else {
        spec_emu_tick(spec_emu_run(e, n - 1))
    }
}

/// The machine at the start of a frame: the framebuffer blanked to White
/// and the audio buffer emptied.
pub open spec fn spec_frame_start(e: EmuView) -> EmuView {
    EmuView {
        ppu: PpuView {
            frame_buffer: Seq::new(FRAME_BUFFER_SIZE as nat, |i: int| 255u8),
            ..e.ppu
        },
        apu: ApuView { audio_buffer: Seq::empty(), ..e.apu },
        ..e
    }
}

/// The post-boot machine state `init` seeds, as if the boot ROM had run:
/// the documented register file, a fresh scanline budget, and the
/// documented I/O register values.
pub open spec fn spec_emu_post_boot(e: EmuView) -> EmuView {
    EmuView {
        cpu: CPU {
            registers: Registers {
                a: 0x00,
                f: 0x80,
                b: 0x00,
                c: 0x13,
                d: 0x00,
                e: 0xd8,
                h: 0x01,
                l: 0x4d,
                sp: 0xfffe,
                pc: 0x100,
            },
            ..e.cpu
        },
        ppu: PpuView { clocks_to_finish: 456, ..e.ppu },
        memory: MemView {
            rom_bank_number: 1,
            joypad: 0xcf,
            divider: 0xab,
            timer: 0x00,
            timer_modulo: 0x00,
            timer_control: 0xf8,
            interrupt_flag: 0xe1,
            nr21: 0x3f,
            nr22: 0x00,
            nr23: 0xff,
            nr24: 0xbf,
            nr52: 0xf1,
            lcd_control: 0x91,
            lcd_status: 0x85,
            scy: 0x00,
            scx: 0x00,
            ly: 0x00,
            lyc: 0x00,
            bg_palette: 0xfc,
            wy: 0x00,
            wx: 0x00,
            ..e.memory
        },
        ..e
    }
}

impl Emulator {
    /// Well-formedness of the executable state (see [`EmuView::wf`]).
    pub open spec fn wf(&self) -> bool {
        self@.wf()
    }

    /// A fresh machine: everything zeroed (see [`spec_emu_init`]).
    pub fn new() -> (r: Emulator)
        ensures
            r@ == spec_emu_init(),
            r.wf(),
    {
        let r = Emulator {
            cpu: CPU::new(),
            ppu: PPU::new(),
            apu: APU::new(),
            timer: Timer::new(),
            memory: Memory::new(),
            joypad_input: JoypadInput::released(),
            running: false,
        };
        proof {
            assert(r@ =~= spec_emu_init());
        }
        r
    }

    /// Mark the machine as running.
    pub fn run(&mut self)
        ensures
            *final(self) == (Emulator { running: true, ..*old(self) }),
    {
        self.running = true;
    }

    /// Mark the machine as stopped.
    pub fn stop(&mut self)
        ensures
            *final(self) == (Emulator { running: false, ..*old(self) }),
    {
        self.running = false;
    }

    /// Seed the post-boot state (see [`spec_emu_post_boot`]).
    pub fn init(&mut self)
        requires
            old(self).wf(),
        ensures
            final(self)@ == spec_emu_post_boot(old(self)@),
            final(self).wf(),
    {
        self.cpu.registers.a = 0x00;
        self.cpu.registers.f = 0x80;
        self.cpu.registers.b = 0x00;
        self.cpu.registers.c = 0x13;
        self.cpu.registers.d = 0x00;
        self.cpu.registers.e = 0xd8;
        self.cpu.registers.h = 0x01;
        self.cpu.registers.l = 0x4d;
        self.cpu.registers.pc = 0x100;
        self.cpu.registers.sp = 0xfffe;

        self.ppu.clocks_to_finish = 456;

        self.memory.rom_bank_number = 1;
        self.memory.joypad = 0xcf;
        self.memory.divider = 0xab;
        self.memory.timer = 0x00;
        self.memory.timer_modulo = 0x00;
        self.memory.timer_control = 0xf8;
        self.memory.interrupt_flag = 0xe1;
        self.memory.nr21 = 0x3f;
        self.memory.nr22 = 0x00;
        self.memory.nr23 = 0xff;
        self.memory.nr24 = 0xbf;
        self.memory.nr52 = 0xf1;
        self.memory.lcd_control = 0x91;
        self.memory.lcd_status = 0x85;
        self.memory.scy = 0x00;
        self.memory.scx = 0x00;
        self.memory.ly = 0x00;
        self.memory.lyc = 0x00;
        self.memory.bg_palette = 0xfc;
        // the object palettes are left as they are, like the hardware
        self.memory.wy = 0x00;
        self.memory.wx = 0x00;
        proof {
            assert(self@ =~= spec_emu_post_boot(old(self)@));
        }
    }

    /// Load a cartridge image: copy its bytes to the start of cartridge ROM
    /// and latch the header fields (cartridge type, ROM size, RAM size).
    pub fn load_rom(&mut self, rom_data: &Vec<u8>)
        requires
            old(self).wf(),
            0x14a <= rom_data@.len() <= CART_ROM_SIZE,
        ensures
            final(self)@ == (EmuView {
                memory: MemView {
                    cart_rom: Seq::new(CART_ROM_SIZE as nat, |i: int|
                        if i < rom_data@.len() {
                            rom_data@[i]
                        } else {
                            old(self)@.memory.cart_rom[i]
                        }),
                    cart_type: rom_data@[0x147],
                    rom_size: rom_data@[0x148],
                    ram_size: rom_data@[0x149],
                    ..old(self)@.memory
                },
                ..old(self)@
            }),
            final(self).wf(),
    {
        let n = rom_data.len();
        let mut i: usize = 0;
        while i < n
            invariant
                n == rom_data@.len(),
                n <= CART_ROM_SIZE,
                i <= n,
                self.memory.cart_rom@.len() == CART_ROM_SIZE,
                forall|j: int| 0 <= j < i ==> self.memory.cart_rom@[j] == rom_data@[j],
                forall|j: int| i <= j < CART_ROM_SIZE ==> self.memory.cart_rom@[j] == old(
                    self,
                )@.memory.cart_rom[j],
                *self == (Emulator { memory: self.memory, ..*old(self) }),
                self.memory == (Memory { cart_rom: self.memory.cart_rom, ..old(self).memory }),
            decreases n - i,
        {
            let b = rom_data[i];
            self.memory.cart_rom.set(i, b);
            i = i + 1;
        }
        self.memory.cart_type = rom_data[0x147];
        self.memory.rom_size = rom_data[0x148];
        self.memory.ram_size = rom_data[0x149];
        proof {
            assert(self@.memory.cart_rom =~= Seq::new(CART_ROM_SIZE as nat, |i: int|
                if i < rom_data@.len() {
                    rom_data@[i]
                } else {
                    old(self)@.memory.cart_rom[i]
                }));
            assert(self@ =~= (EmuView {
                memory: MemView {
                    cart_rom: self@.memory.cart_rom,
                    cart_type: rom_data@[0x147],
                    rom_size: rom_data@[0x148],
                    ram_size: rom_data@[0x149],
                    ..old(self)@.memory
                },
                ..old(self)@
            }));
        }
    }

    /// Load a save blob to the start of cartridge RAM.
    pub fn load_savedata(&mut self, savedata: &Vec<u8>)
        requires
            old(self).wf(),
            savedata@.len() <= CART_RAM_SIZE,
        ensures
            final(self)@ == (EmuView {
                memory: MemView {
                    cart_ram: Seq::new(CART_RAM_SIZE as nat, |i: int|
                        if i < savedata@.len() {
                            savedata@[i]
                        } else {
                            old(self)@.memory.cart_ram[i]
                        }),
                    ..old(self)@.memory
                },
                ..old(self)@
            }),
            final(self).wf(),
    {
        let n = savedata.len();
        let mut i: usize = 0;
        while i < n
            invariant
                n == savedata@.len(),
                n <= CART_RAM_SIZE,
                i <= n,
                self.memory.cart_ram@.len() == CART_RAM_SIZE,
                forall|j: int| 0 <= j < i ==> self.memory.cart_ram@[j] == savedata@[j],
                forall|j: int| i <= j < CART_RAM_SIZE ==> self.memory.cart_ram@[j] == old(
                    self,
                )@.memory.cart_ram[j],
                *self == (Emulator { memory: self.memory, ..*old(self) }),
                self.memory == (Memory { cart_ram: self.memory.cart_ram, ..old(self).memory }),
            decreases n - i,
        {
            let b = savedata[i];
            self.memory.cart_ram.set(i, b);
            i = i + 1;
        }
        proof {
            assert(self@.memory.cart_ram =~= Seq::new(CART_RAM_SIZE as nat, |i: int|
                if i < savedata@.len() {
                    savedata@[i]
                } else {
                    old(self)@.memory.cart_ram[i]
                }));
            assert(self@ =~= (EmuView {
                memory: MemView { cart_ram: self@.memory.cart_ram, ..old(self)@.memory },
                ..old(self)@
            }));
        }
    }

    /// A copy of cartridge RAM, for the host to persist.
    pub fn get_savedata(&self) -> (r: Vec<u8>)
        ensures
            r@ == self@.memory.cart_ram,
    {
        let mut v: Vec<u8> = Vec::new();
        let mut i: usize = 0;
        let n = self.memory.cart_ram.len();
        while i < n
            invariant
                i <= n,
                n == self.memory.cart_ram@.len(),
                v@.len() == i,
                forall|j: int| 0 <= j < i ==> v@[j] == self.memory.cart_ram@[j],
            decreases n - i,
        {
            let b = self.memory.cart_ram[i];
            v.push(b);
            i = i + 1;
        }
        proof {
            assert(v@ =~= self@.memory.cart_ram);
        }
        v
    }

    /// Refresh the joypad register from the held key state
    /// (see [`spec_joypad_update`]).
    /// The next joypad register value (see [`spec_joypad_next`]).
    fn joypad_next(j: JoypadInput, jp: u8) -> (r: u8)
        ensures
            r == spec_joypad_next(j, jp),
    {
        let base = jp - jp % 16 + 15;
        if (jp / 32) % 2 == 0 {
            base - (if j.start {
                8
            } else {
                0
            }) - (if j.select {
                4
            } else {
                0
            }) - (if j.b {
                2
            } else {
                0
            }) - (if j.a {
                1
            } else {
                0
            })
        } else if (jp / 16) % 2 == 0 {
            base - (if j.down {
                8
            } else {
                0
            }) - (if j.up {
                4
            } else {
                0
            }) - (if j.left {
                2
            } else {
                0
            }) - (if j.right {
                1
            } else {
                0
            })
        } else {
            base
        }
    }

    #[verifier::rlimit(100)]
    pub fn update_joypad(&mut self)
        requires
            old(self).wf(),
        ensures
            final(self)@ == (EmuView {
                memory: spec_joypad_update(old(self)@.joypad_input, old(self)@.memory),
                ..old(self)@
            }),
            final(self).wf(),
    {
        let jp = self.memory.joypad;
        let next = Self::joypad_next(self.joypad_input, jp);
        let falling = ((jp % 2 == 1) && (next % 2 == 0)) || (((jp / 2) % 2 == 1) && ((next / 2) % 2
            == 0)) || (((jp / 4) % 2 == 1) && ((next / 4) % 2 == 0)) || (((jp / 8) % 2 == 1) && ((
        next / 8) % 2 == 0));
        if falling {
            self.memory.interrupt_flag = self.memory.interrupt_flag | 16;
        }
        self.memory.joypad = next;
    }

    /// Replace the held joypad key state.
    pub fn update_joypad_input(&mut self, joypad_input: JoypadInput)
        ensures
            *final(self) == (Emulator { joypad_input, ..*old(self) }),
    {
        self.joypad_input = joypad_input;
    }

    /// One T-cycle of the whole machine (see [`spec_emu_tick`]).
    pub fn tick(&mut self)
        requires
            old(self).wf(),
        ensures
            final(self)@ == spec_emu_tick(old(self)@),
            final(self).wf(),
    {
        self.update_joypad();
        self.timer.tick(&mut self.memory);
        self.ppu.tick(&mut self.memory);
        self.apu.tick(&mut self.memory);
        self.cpu.tick(&mut self.memory);
        proof {
            assert(self@ =~= spec_emu_tick(old(self)@));
        }
    }

    /// Run one frame: blank the framebuffer, drop the buffered samples, and
    /// advance the machine 70,224 T-cycles.
    pub fn next_frame(&mut self)
        requires
            old(self).wf(),
        ensures
            final(self)@ == spec_emu_run(spec_frame_start(old(self)@), CLOCKS_PER_FRAME as int),
            final(self).wf(),
    {
        self.ppu.clear_frame_buffer();
        self.apu.clear_audio_buffer();
        proof {
            assert(self@ =~= spec_frame_start(old(self)@));
        }
        let ghost start = self@;
        let mut i: usize = 0;
        while i < CLOCKS_PER_FRAME
            invariant
                i <= CLOCKS_PER_FRAME,
                self@ == spec_emu_run(start, i as int),
                self.wf(),
            decreases CLOCKS_PER_FRAME - i,
        {
            self.tick();
            i = i + 1;
        }
    }

    /// A copy of the 160 by 144 RGBA framebuffer.
    pub fn get_frame_buffer(&self) -> (r: Vec<u8>)
        ensures
            r@ == self@.ppu.frame_buffer,
    {
        let mut v: Vec<u8> = Vec::new();
        let mut i: usize = 0;
        let n = self.ppu.frame_buffer.len();
        while i < n
            invariant
                i <= n,
                n == self.ppu.frame_buffer@.len(),
                v@.len() == i,
                forall|j: int| 0 <= j < i ==> v@[j] == self.ppu.frame_buffer@[j],
            decreases n - i,
        {
            let b = self.ppu.frame_buffer[i];
            v.push(b);
            i = i + 1;
        }
        proof {
            assert(v@ =~= self@.ppu.frame_buffer);
        }
        v
    }

    /// A copy of the buffered audio samples.
    pub fn get_audio_buffer(&self) -> (r: Vec<AudioSample>)
        ensures
            r@ == self@.apu.audio_buffer,
    {
        let mut v: Vec<AudioSample> = Vec::new();
        let mut i: usize = 0;
        let n = self.apu.audio_buffer.len();
        while i < n
            invariant
                i <= n,
                n == self.apu.audio_buffer@.len(),
                v@.len() == i,
                forall|j: int| 0 <= j < i ==> v@[j] == self.apu.audio_buffer@[j],
            decreases n - i,
        {
            let b = self.apu.audio_buffer[i];
            v.push(b);
            i = i + 1;
        }
        proof {
            assert(v@ =~= self@.apu.audio_buffer);
        }
        v
    }
}

} // verus!
