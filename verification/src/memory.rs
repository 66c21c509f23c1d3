//! The memory-mapped bus: cartridge ROM/RAM with MBC1/MBC5 banking, video
//! RAM, work RAM, object attribute memory, high RAM, the I/O registers and
//! the interrupt registers.
//!
//! The whole bus is modelled by [`MemView`]: `read` gives the byte seen at
//! any address and `write` gives the successor state of a store, including
//! the banking side effects and the OAM DMA copy.

use vstd::prelude::*;

verus! {

/// Cartridge ROM capacity: up to 8 MiB.
pub const CART_ROM_SIZE: usize = 0x80_0000;
/// Video RAM: 8 KiB.
pub const VIDEO_RAM_SIZE: usize = 0x2000;
/// Cartridge RAM capacity: up to 32 KiB.
pub const CART_RAM_SIZE: usize = 0x8000;
/// Work RAM: 8 KiB.
pub const WORK_RAM_SIZE: usize = 0x2000;
/// Object attribute memory: 40 entries of 4 bytes.
pub const OAM_SIZE: usize = 160;
/// High RAM: 0xFF80..=0xFFFE.
pub const HIGH_RAM_SIZE: usize = 127;
/// Wave pattern RAM: 16 bytes (32 nibble samples).
pub const WAVE_RAM_SIZE: usize = 16;

pub struct Memory {
    pub cart_rom: Vec<u8>,
    pub cart_type: u8,
    pub rom_size: u8,
    pub ram_size: u8,
    pub rom_bank_number: usize,
    pub ram_bank_number: usize,
    pub banking_mode: bool,
    pub video_ram: Vec<u8>,
    pub cart_ram: Vec<u8>,
    pub work_ram: Vec<u8>,
    pub obj_attr_memory: Vec<u8>,
    pub joypad: u8,
    pub divider: u8,
    pub timer: u8,
    pub timer_modulo: u8,
    pub timer_control: u8,
    pub nr10: u8,
    pub nr11: u8,
    pub nr12: u8,
    pub nr13: u8,
    pub nr14: u8,
    pub nr21: u8,
    pub nr22: u8,
    pub nr23: u8,
    pub nr24: u8,
    pub nr30: u8,
    pub nr31: u8,
    pub nr32: u8,
    pub nr33: u8,
    pub nr34: u8,
    pub nr41: u8,
    pub nr42: u8,
    pub nr43: u8,
    pub nr44: u8,
    pub nr50: u8,
    pub nr52: u8,
    pub wave_ram: Vec<u8>,
    pub lcd_control: u8,
    pub lcd_status: u8,
    pub scy: u8,
    pub scx: u8,
    pub ly: u8,
    pub lyc: u8,
    pub bg_palette: u8,
    pub obj_palette: Vec<u8>,
    pub wy: u8,
    pub wx: u8,
    pub high_ram: Vec<u8>,
    /// Bytes stored through the serial data register, kept for the host to
    /// drain; the hardware would shift them out over the link cable.
    pub serial_log: Vec<u8>,
    pub interrupt_flag: u8,
    pub interrupt_enable: u8,
    pub interrupt_master_enable: bool,
}

/// Mathematical view of the whole bus state.
#[verifier::ext_equal]
pub ghost struct MemView {
    pub cart_rom: Seq<u8>,
    pub cart_type: u8,
    pub rom_size: u8,
    pub ram_size: u8,
    pub rom_bank_number: usize,
    pub ram_bank_number: usize,
    pub banking_mode: bool,
    pub video_ram: Seq<u8>,
    pub cart_ram: Seq<u8>,
    pub work_ram: Seq<u8>,
    pub obj_attr_memory: Seq<u8>,
    pub joypad: u8,
    pub divider: u8,
    pub timer: u8,
    pub timer_modulo: u8,
    pub timer_control: u8,
    pub nr10: u8,
    pub nr11: u8,
    pub nr12: u8,
    pub nr13: u8,
    pub nr14: u8,
    pub nr21: u8,
    pub nr22: u8,
    pub nr23: u8,
    pub nr24: u8,
    pub nr30: u8,
    pub nr31: u8,
    pub nr32: u8,
    pub nr33: u8,
    pub nr34: u8,
    pub nr41: u8,
    pub nr42: u8,
    pub nr43: u8,
    pub nr44: u8,
    pub nr50: u8,
    pub nr52: u8,
    pub wave_ram: Seq<u8>,
    pub lcd_control: u8,
    pub lcd_status: u8,
    pub scy: u8,
    pub scx: u8,
    pub ly: u8,
    pub lyc: u8,
    pub bg_palette: u8,
    pub obj_palette: Seq<u8>,
    pub wy: u8,
    pub wx: u8,
    pub high_ram: Seq<u8>,
    pub serial_log: Seq<u8>,
    pub interrupt_flag: u8,
    pub interrupt_enable: u8,
    pub interrupt_master_enable: bool,
}

impl View for Memory {
    type V = MemView;

    open spec fn view(&self) -> MemView {
        MemView {
            cart_rom: self.cart_rom@,
            cart_type: self.cart_type,
            rom_size: self.rom_size,
            ram_size: self.ram_size,
            rom_bank_number: self.rom_bank_number,
            ram_bank_number: self.ram_bank_number,
            banking_mode: self.banking_mode,
            video_ram: self.video_ram@,
            cart_ram: self.cart_ram@,
            work_ram: self.work_ram@,
            obj_attr_memory: self.obj_attr_memory@,
            joypad: self.joypad,
            divider: self.divider,
            timer: self.timer,
            timer_modulo: self.timer_modulo,
            timer_control: self.timer_control,
            nr10: self.nr10,
            nr11: self.nr11,
            nr12: self.nr12,
            nr13: self.nr13,
            nr14: self.nr14,
            nr21: self.nr21,
            nr22: self.nr22,
            nr23: self.nr23,
            nr24: self.nr24,
            nr30: self.nr30,
            nr31: self.nr31,
            nr32: self.nr32,
            nr33: self.nr33,
            nr34: self.nr34,
            nr41: self.nr41,
            nr42: self.nr42,
            nr43: self.nr43,
            nr44: self.nr44,
            nr50: self.nr50,
            nr52: self.nr52,
            wave_ram: self.wave_ram@,
            lcd_control: self.lcd_control,
            lcd_status: self.lcd_status,
            scy: self.scy,
            scx: self.scx,
            ly: self.ly,
            lyc: self.lyc,
            bg_palette: self.bg_palette,
            obj_palette: self.obj_palette@,
            wy: self.wy,
            wx: self.wx,
            high_ram: self.high_ram@,
            serial_log: self.serial_log@,
            interrupt_flag: self.interrupt_flag,
            interrupt_enable: self.interrupt_enable,
            interrupt_master_enable: self.interrupt_master_enable,
        }
    }
}

impl MemView {
    /// Well-formedness: the backing stores have their hardware sizes and the
    /// bank selectors stay inside the ranges the MBC registers can produce.
    pub open spec fn wf(self) -> bool {
        &&& self.cart_rom.len() == CART_ROM_SIZE
        &&& self.video_ram.len() == VIDEO_RAM_SIZE
        &&& self.cart_ram.len() == CART_RAM_SIZE
        &&& self.work_ram.len() == WORK_RAM_SIZE
        &&& self.obj_attr_memory.len() == OAM_SIZE
        &&& self.wave_ram.len() == WAVE_RAM_SIZE
        &&& self.high_ram.len() == HIGH_RAM_SIZE
        &&& self.obj_palette.len() == 2
        &&& self.rom_bank_number <= 0x1ff
        &&& self.ram_bank_number <= 0xf
    }

    /// The byte a bus read returns at `addr`.
    ///
    /// ROM banks are 16 KiB, cartridge RAM banks 8 KiB. A cartridge-RAM
    /// access beyond the 32 KiB buffer reads as 0xFF. Unmapped addresses
    /// read as 0xFF. Write-only audio registers read as 0xFF and partially
    /// used registers read their unused bits as 1.
    pub open spec fn read(self, addr: u16) -> u8 {
        let a = addr as int;
        if a < 0x4000 {
            self.cart_rom[a]
        } else if a < 0x8000 {
            self.cart_rom[self.rom_bank_number * 0x4000 + a - 0x4000]
        } else if a < 0xa000 {
            self.video_ram[a - 0x8000]
        } else if a < 0xc000 {
            let i = self.ram_bank_number * 0x2000 + a - 0xa000;
            if i < CART_RAM_SIZE {
                self.cart_ram[i]
            } else {
                0xff
            }
        } else if a < 0xe000 {
            self.work_ram[a - 0xc000]
        } else if 0xfe00 <= a && a < 0xfea0 {
            self.obj_attr_memory[a - 0xfe00]
        } else if a == 0xff00 {
            0xc0 | self.joypad
        } else if a == 0xff04 {
            self.divider
        } else if a == 0xff05 {
            self.timer
        } else if a == 0xff06 {
            self.timer_modulo
        } else if a == 0xff07 {
            self.timer_control
        } else if a == 0xff0f {
            self.interrupt_flag
        } else if a == 0xff10 {
            self.nr10 | 0x80
        } else if a == 0xff11 {
            self.nr11 | 0x3f
        } else if a == 0xff12 {
            self.nr12
        } else if a == 0xff14 {
            self.nr14 | 0xbf
        } else if a == 0xff16 {
            self.nr21 | 0x3f
        } else if a == 0xff17 {
            self.nr22
        } else if a == 0xff19 {
            self.nr24 | 0xbf
        } else if a == 0xff1a {
            self.nr30 | 0x7f
        } else if a == 0xff1b {
            self.nr31
        } else if a == 0xff1c {
            self.nr32 | 0x9f
        } else if a == 0xff1e {
            self.nr34 | 0xbf
        } else if a == 0xff21 {
            self.nr42
        } else if a == 0xff22 {
            self.nr43
        } else if a == 0xff23 {
            self.nr44 | 0xbf
        } else if a == 0xff24 {
            self.nr50
        } else if a == 0xff26 {
            self.nr52 | 0x70
        } else if 0xff30 <= a && a < 0xff40 {
            self.wave_ram[a - 0xff30]
        } else if a == 0xff40 {
            self.lcd_control
        } else if a == 0xff41 {
            self.lcd_status
        } else if a == 0xff42 {
            self.scy
        } else if a == 0xff43 {
            self.scx
        } else if a == 0xff44 {
            self.ly
        } else if a == 0xff45 {
            self.lyc
        } else if a == 0xff47 {
            self.bg_palette
        } else if a == 0xff48 || a == 0xff49 {
            self.obj_palette[a - 0xff48]
        } else if a == 0xff4a {
            self.wy
        } else if a == 0xff4b {
            self.wx
        } else if 0xff80 <= a && a < 0xffff {
            self.high_ram[a - 0xff80]
        } else if a == 0xffff {
            self.interrupt_enable
        } else {
            0xff
        }
    }

    /// Little-endian word read: low byte at `addr`, high byte at the
    /// wrapping successor address.
    pub open spec fn read_word(self, addr: u16) -> u16 {
        ((self.read(addr) as int) + (self.read(next_addr(addr)) as int) * 256) as u16
    }

    /// Bus state after a store into the cartridge MBC configuration range
    /// 0x0000..=0x7FFF. Only MBC1 and MBC5 cartridge types react.
    pub open spec fn write_mbc(self, addr: u16, value: u8) -> MemView {
        let a = addr as int;
        let v = value as usize;
        let prev = self.rom_bank_number;
        if 0x1 <= self.cart_type && self.cart_type <= 0x3 {
            if 0x2000 <= a && a < 0x4000 {
                let bits: usize = if self.rom_size == 0 {
                    2
                } else if self.rom_size == 1 {
                    4
                } else if self.rom_size == 2 {
                    8
                } else if self.rom_size == 3 {
                    16
                } else {
                    32
                };
                let low: usize = if v % 32 == 0 {
                    1
                } else {
                    v % bits
                };
                MemView { rom_bank_number: (low + ((prev / 0x20) % 4) * 0x20) as usize, ..self }
            } else if 0x4000 <= a && a < 0x6000 {
                if self.banking_mode {
                    MemView { ram_bank_number: (v % 4) as usize, ..self }
                } else {
                    MemView { rom_bank_number: prev | (((v % 4) * 0x20) as usize), ..self }
                }
            } else if 0x6000 <= a && a < 0x8000 {
                if value == 0 {
                    MemView { banking_mode: false, ram_bank_number: 0, ..self }
                } else {
                    MemView { banking_mode: true, rom_bank_number: (prev % 0x20) as usize, ..self }
                }
            } else {
                self
            }
        } else if 0x19 <= self.cart_type && self.cart_type <= 0x1b {
            if 0x2000 <= a && a < 0x3000 {
                MemView { rom_bank_number: (((prev / 0x100) % 2) * 0x100 + v) as usize, ..self }
            } else if 0x3000 <= a && a < 0x4000 {
                MemView { rom_bank_number: (prev % 0x100 + (v % 2) * 0x100) as usize, ..self }
            } else if 0x4000 <= a && a < 0x6000 {
                MemView { ram_bank_number: (v % 0x10) as usize, ..self }
            } else {
                self
            }
        } else {
            self
        }
    }

    /// Bus state after storing `value` at `addr`: plain stores into RAM
    /// regions, MBC configuration below 0x8000, the per-register store
    /// masks of the I/O registers, and the synchronous OAM DMA copy on a
    /// store to 0xFF46. LY is read-only; unmapped stores are dropped.
    pub open spec fn write(self, addr: u16, value: u8) -> MemView {
        let a = addr as int;
        if a < 0x8000 {
            self.write_mbc(addr, value)
        } else if a < 0xa000 {
            MemView { video_ram: self.video_ram.update(a - 0x8000, value), ..self }
        } else if a < 0xc000 {
            let i = self.ram_bank_number * 0x2000 + a - 0xa000;
            if i < CART_RAM_SIZE {
                MemView { cart_ram: self.cart_ram.update(i, value), ..self }
            } else {
                self
            }
        } else if a < 0xe000 {
            MemView { work_ram: self.work_ram.update(a - 0xc000, value), ..self }
        } else if 0xfe00 <= a && a < 0xfea0 {
            MemView { obj_attr_memory: self.obj_attr_memory.update(a - 0xfe00, value), ..self }
        } else if a == 0xff00 {
            MemView { joypad: 0xc0 | (value & 0x30) | (self.joypad & 0xf), ..self }
        } else if a == 0xff01 {
            MemView { serial_log: self.serial_log.push(value), ..self }
        } else if a == 0xff04 {
            MemView { divider: 0, ..self }
        } else if a == 0xff05 {
            MemView { timer: value, ..self }
        } else if a == 0xff06 {
            MemView { timer_modulo: value, ..self }
        } else if a == 0xff07 {
            MemView { timer_control: value, ..self }
        } else if a == 0xff0f {
            MemView { interrupt_flag: value, ..self }
        } else if a == 0xff10 {
            MemView { nr10: value | 0x80, ..self }
        } else if a == 0xff11 {
            MemView { nr11: value, ..self }
        } else if a == 0xff12 {
            MemView { nr12: value, ..self }
        } else if a == 0xff13 {
            MemView { nr13: value, ..self }
        } else if a == 0xff14 {
            MemView { nr14: value | 0x38, ..self }
        } else if a == 0xff16 {
            MemView { nr21: value, ..self }
        } else if a == 0xff17 {
            MemView { nr22: value, ..self }
        } else if a == 0xff18 {
            MemView { nr23: value, ..self }
        } else if a == 0xff19 {
            MemView { nr24: value | 0x38, ..self }
        } else if a == 0xff1a {
            MemView { nr30: value | 0x7f, ..self }
        } else if a == 0xff1b {
            MemView { nr31: value, ..self }
        } else if a == 0xff1c {
            MemView { nr32: value | 0x9f, ..self }
        } else if a == 0xff1d {
            MemView { nr33: value, ..self }
        } else if a == 0xff1e {
            MemView { nr34: value | 0x38, ..self }
        } else if a == 0xff20 {
            MemView { nr41: value | 0xc0, ..self }
        } else if a == 0xff21 {
            MemView { nr42: value, ..self }
        } else if a == 0xff22 {
            MemView { nr43: value, ..self }
        } else if a == 0xff23 {
            MemView { nr44: value | 0x3f, ..self }
        } else if a == 0xff24 {
            MemView { nr50: value, ..self }
        } else if a == 0xff26 {
            MemView { nr52: (value & 0x80) | 0x70 | (self.nr52 & 0xf), ..self }
        } else if 0xff30 <= a && a < 0xff40 {
            MemView { wave_ram: self.wave_ram.update(a - 0xff30, value), ..self }
        } else if a == 0xff40 {
            MemView { lcd_control: value, ..self }
        } else if a == 0xff41 {
            MemView { lcd_status: value, ..self }
        } else if a == 0xff42 {
            MemView { scy: value, ..self }
        } else if a == 0xff43 {
            MemView { scx: value, ..self }
        } else if a == 0xff45 {
            MemView { lyc: value, ..self }
        } else if a == 0xff46 {
            MemView {
                obj_attr_memory: Seq::new(OAM_SIZE as nat, |i: int|
                    self.read(((value as int) * 256 + i) as u16)),
                ..self
            }
        } else if a == 0xff47 {
            MemView { bg_palette: value, ..self }
        } else if a == 0xff48 || a == 0xff49 {
            MemView { obj_palette: self.obj_palette.update(a - 0xff48, value), ..self }
        } else if a == 0xff4a {
            MemView { wy: value, ..self }
        } else if a == 0xff4b {
            MemView { wx: value, ..self }
        } else if 0xff80 <= a && a < 0xffff {
            MemView { high_ram: self.high_ram.update(a - 0xff80, value), ..self }
        } else if a == 0xffff {
            MemView { interrupt_enable: value, ..self }
        } else {
            self
        }
    }

    /// Little-endian word store: low byte first, then the high byte at the
    /// wrapping successor address.
    pub open spec fn write_word(self, addr: u16, value: u16) -> MemView {
        self.write(addr, (value % 256) as u8).write(next_addr(addr), (value / 256) as u8)
    }

    /// The zero-initialized bus a fresh machine starts with.
    pub open spec fn init() -> MemView {
        MemView {
            cart_rom: Seq::new(CART_ROM_SIZE as nat, |i: int| 0u8),
            cart_type: 0,
            rom_size: 0,
            ram_size: 0,
            rom_bank_number: 0,
            ram_bank_number: 0,
            banking_mode: false,
            video_ram: Seq::new(VIDEO_RAM_SIZE as nat, |i: int| 0u8),
            cart_ram: Seq::new(CART_RAM_SIZE as nat, |i: int| 0u8),
            work_ram: Seq::new(WORK_RAM_SIZE as nat, |i: int| 0u8),
            obj_attr_memory: Seq::new(OAM_SIZE as nat, |i: int| 0u8),
            joypad: 0,
            divider: 0,
            timer: 0,
            timer_modulo: 0,
            timer_control: 0,
            nr10: 0,
            nr11: 0,
            nr12: 0,
            nr13: 0,
            nr14: 0,
            nr21: 0,
            nr22: 0,
            nr23: 0,
            nr24: 0,
            nr30: 0,
            nr31: 0,
            nr32: 0,
            nr33: 0,
            nr34: 0,
            nr41: 0,
            nr42: 0,
            nr43: 0,
            nr44: 0,
            nr50: 0,
            nr52: 0,
            wave_ram: Seq::new(WAVE_RAM_SIZE as nat, |i: int| 0u8),
            lcd_control: 0,
            lcd_status: 0,
            scy: 0,
            scx: 0,
            ly: 0,
            lyc: 0,
            bg_palette: 0,
            obj_palette: Seq::new(2, |i: int| 0u8),
            wy: 0,
            wx: 0,
            high_ram: Seq::new(HIGH_RAM_SIZE as nat, |i: int| 0u8),
            serial_log: Seq::empty(),
            interrupt_flag: 0,
            interrupt_enable: 0,
            interrupt_master_enable: false,
        }
    }
}

/// The wrapping successor of a 16-bit address.
pub open spec fn next_addr(addr: u16) -> u16 {
    if addr == 0xffff {
        0
    } else {
        (addr + 1) as u16
    }
}

/// A vector of `n` zero bytes.
pub fn zero_vec(n: usize) -> (r: Vec<u8>)
    ensures
        r@ == Seq::new(n as nat, |i: int| 0u8),
{
    let mut v: Vec<u8> = Vec::new();
    let mut i: usize = 0;
    while i < n
        invariant
            i <= n,
            v@.len() == i,
            forall|j: int| 0 <= j < i ==> v@[j] == 0u8,
        decreases n - i,
    {
        v.push(0);
        i = i + 1;
    }
    proof {
        assert(v@ =~= Seq::new(n as nat, |i: int| 0u8));
    }
    v
}

/// The ORed (disjunction) of two selectors below 0x200 stays below 0x200.
proof fn lemma_or_bound(a: usize, b: usize)
    by (bit_vector)
    requires
        a < 0x200,
        b < 0x200,
    ensures
        (a | b) < 0x200,
{
}

impl Memory {
    /// Well-formedness of the executable state (see [`MemView::wf`]).
    pub open spec fn wf(&self) -> bool {
        self@.wf()
    }

    /// A fresh, zero-initialized bus.
    pub fn new() -> (r: Memory)
        ensures
            r@ == MemView::init(),
            r.wf(),
    {
        let r = Memory {
            cart_rom: zero_vec(CART_ROM_SIZE),
            cart_type: 0,
            rom_size: 0,
            ram_size: 0,
            rom_bank_number: 0,
            ram_bank_number: 0,
            banking_mode: false,
            video_ram: zero_vec(VIDEO_RAM_SIZE),
            cart_ram: zero_vec(CART_RAM_SIZE),
            work_ram: zero_vec(WORK_RAM_SIZE),
            obj_attr_memory: zero_vec(OAM_SIZE),
            joypad: 0,
            divider: 0,
            timer: 0,
            timer_modulo: 0,
            timer_control: 0,
            nr10: 0,
            nr11: 0,
            nr12: 0,
            nr13: 0,
            nr14: 0,
            nr21: 0,
            nr22: 0,
            nr23: 0,
            nr24: 0,
            nr30: 0,
            nr31: 0,
            nr32: 0,
            nr33: 0,
            nr34: 0,
            nr41: 0,
            nr42: 0,
            nr43: 0,
            nr44: 0,
            nr50: 0,
            nr52: 0,
            wave_ram: zero_vec(WAVE_RAM_SIZE),
            lcd_control: 0,
            lcd_status: 0,
            scy: 0,
            scx: 0,
            ly: 0,
            lyc: 0,
            bg_palette: 0,
            obj_palette: zero_vec(2),
            wy: 0,
            wx: 0,
            high_ram: zero_vec(HIGH_RAM_SIZE),
            serial_log: Vec::new(),
            interrupt_flag: 0,
            interrupt_enable: 0,
            interrupt_master_enable: false,
        };
        proof {
            assert(r@ =~= MemView::init());
        }
        r
    }

    /// Read one byte from the bus.
    pub fn get_byte(&self, address: u16) -> (r: u8)
        requires
            self.wf(),
        ensures
            r == self@.read(address),
    {
        let a = address as usize;
        if a < 0x4000 {
            self.cart_rom[a]
        } else if a < 0x8000 {
            self.cart_rom[self.rom_bank_number * 0x4000 + a - 0x4000]
        } else if a < 0xa000 {
            self.video_ram[a - 0x8000]
        } else if a < 0xc000 {
            let i = self.ram_bank_number * 0x2000 + a - 0xa000;
            if i < CART_RAM_SIZE {
                self.cart_ram[i]
            } else {
                0xff
            }
        } else if a < 0xe000 {
            self.work_ram[a - 0xc000]
        } else if 0xfe00 <= a && a < 0xfea0 {
            self.obj_attr_memory[a - 0xfe00]
        } else if a == 0xff00 {
            0xc0 | self.joypad
        } else if a == 0xff04 {
            self.divider
        } else if a == 0xff05 {
            self.timer
        } else if a == 0xff06 {
            self.timer_modulo
        } else if a == 0xff07 {
            self.timer_control
        } else if a == 0xff0f {
            self.interrupt_flag
        } else if a == 0xff10 {
            self.nr10 | 0x80
        } else if a == 0xff11 {
            self.nr11 | 0x3f
        } else if a == 0xff12 {
            self.nr12
        } else if a == 0xff14 {
            self.nr14 | 0xbf
        } else if a == 0xff16 {
            self.nr21 | 0x3f
        } else if a == 0xff17 {
            self.nr22
        } else if a == 0xff19 {
            self.nr24 | 0xbf
        } else if a == 0xff1a {
            self.nr30 | 0x7f
        } else if a == 0xff1b {
            self.nr31
        } else if a == 0xff1c {
            self.nr32 | 0x9f
        } else if a == 0xff1e {
            self.nr34 | 0xbf
        } else if a == 0xff21 {
            self.nr42
        } else if a == 0xff22 {
            self.nr43
        } else if a == 0xff23 {
            self.nr44 | 0xbf
        } else if a == 0xff24 {
            self.nr50
        } else if a == 0xff26 {
            self.nr52 | 0x70
        } else if 0xff30 <= a && a < 0xff40 {
            self.wave_ram[a - 0xff30]
        } else if a == 0xff40 {
            self.lcd_control
        } else if a == 0xff41 {
            self.lcd_status
        } else if a == 0xff42 {
            self.scy
        } else if a == 0xff43 {
            self.scx
        } else if a == 0xff44 {
            self.ly
        } else if a == 0xff45 {
            self.lyc
        } else if a == 0xff47 {
            self.bg_palette
        } else if a == 0xff48 || a == 0xff49 {
            self.obj_palette[a - 0xff48]
        } else if a == 0xff4a {
            self.wy
        } else if a == 0xff4b {
            self.wx
        } else if 0xff80 <= a && a < 0xffff {
            self.high_ram[a - 0xff80]
        } else if a == 0xffff {
            self.interrupt_enable
        } else {
            0xff
        }
    }

    /// Read a little-endian word; the high byte wraps around the address
    /// space at 0xFFFF.
    pub fn get_word(&self, address: u16) -> (r: u16)
        requires
            self.wf(),
        ensures
            r == self@.read_word(address),
    {
        let lower = self.get_byte(address) as u16;
        let upper = self.get_byte(if address == 0xffff {
            0
        } else {
            address + 1
        }) as u16;
        lower + upper * 256
    }

    /// Store one byte on the bus, with all side effects of the address
    /// written (MBC configuration, register store masks, OAM DMA).
    pub fn set_byte(&mut self, address: u16, value: u8)
        requires
            old(self).wf(),
        ensures
            final(self)@ == old(self)@.write(address, value),
            final(self).wf(),
    {
        let a = address as usize;
        if a < 0x8000 {
            if 0x1 <= self.cart_type && self.cart_type <= 0x3 {
                if 0x2000 <= a && a < 0x4000 {
                    let bits: usize = if self.rom_size == 0 {
                        2
                    } else if self.rom_size == 1 {
                        4
                    } else if self.rom_size == 2 {
                        8
                    } else if self.rom_size == 3 {
                        16
                    } else {
                        32
                    };
                    let v = value as usize;
                    let low: usize = if v % 32 == 0 {
                        1
                    } else {
                        v % bits
                    };
                    self.rom_bank_number = low + ((self.rom_bank_number / 0x20) % 4) * 0x20;
                } else if 0x4000 <= a && a < 0x6000 {
                    if self.banking_mode {
                        self.ram_bank_number = (value as usize) % 4;
                    } else {
                        let orv = ((value as usize) % 4) * 0x20;
                        proof {
                            lemma_or_bound(self.rom_bank_number, orv);
                        }
                        self.rom_bank_number = self.rom_bank_number | orv;
                    }
                } else if 0x6000 <= a && a < 0x8000 {
                    if value == 0 {
                        self.banking_mode = false;
                        self.ram_bank_number = 0;
                    } else {
                        self.banking_mode = true;
                        self.rom_bank_number = self.rom_bank_number % 0x20;
                    }
                }
            } else if 0x19 <= self.cart_type && self.cart_type <= 0x1b {
                if 0x2000 <= a && a < 0x3000 {
                    self.rom_bank_number =
                        ((self.rom_bank_number / 0x100) % 2) * 0x100 + value as usize;
                } else if 0x3000 <= a && a < 0x4000 {
                    self.rom_bank_number =
                        self.rom_bank_number % 0x100 + ((value as usize) % 2) * 0x100;
                } else if 0x4000 <= a && a < 0x6000 {
                    self.ram_bank_number = (value as usize) % 0x10;
                }
            }
        } else if a < 0xa000 {
            self.video_ram.set(a - 0x8000, value);
        } else if a < 0xc000 {
            let i = self.ram_bank_number * 0x2000 + a - 0xa000;
            if i < CART_RAM_SIZE {
                self.cart_ram.set(i, value);
            }
        } else if a < 0xe000 {
            self.work_ram.set(a - 0xc000, value);
        } else if 0xfe00 <= a && a < 0xfea0 {
            self.obj_attr_memory.set(a - 0xfe00, value);
        } else if a == 0xff00 {
            self.joypad = 0xc0 | (value & 0x30) | (self.joypad & 0xf);
        } else if a == 0xff01 {
            self.serial_log.push(value);
        } else if a == 0xff04 {
            self.divider = 0;
        } else if a == 0xff05 {
            self.timer = value;
        } else if a == 0xff06 {
            self.timer_modulo = value;
        } else if a == 0xff07 {
            self.timer_control = value;
        } else if a == 0xff0f {
            self.interrupt_flag = value;
        } else if a == 0xff10 {
            self.nr10 = value | 0x80;
        } else if a == 0xff11 {
            self.nr11 = value;
        } else if a == 0xff12 {
            self.nr12 = value;
        } else if a == 0xff13 {
            self.nr13 = value;
        } else if a == 0xff14 {
            self.nr14 = value | 0x38;
        } else if a == 0xff16 {
            self.nr21 = value;
        } else if a == 0xff17 {
            self.nr22 = value;
        } else if a == 0xff18 {
            self.nr23 = value;
        } else if a == 0xff19 {
            self.nr24 = value | 0x38;
        } else if a == 0xff1a {
            self.nr30 = value | 0x7f;
        } else if a == 0xff1b {
            self.nr31 = value;
        } else if a == 0xff1c {
            self.nr32 = value | 0x9f;
        } else if a == 0xff1d {
            self.nr33 = value;
        } else if a == 0xff1e {
            self.nr34 = value | 0x38;
        } else if a == 0xff20 {
            self.nr41 = value | 0xc0;
        } else if a == 0xff21 {
            self.nr42 = value;
        } else if a == 0xff22 {
            self.nr43 = value;
        } else if a == 0xff23 {
            self.nr44 = value | 0x3f;
        } else if a == 0xff24 {
            self.nr50 = value;
        } else if a == 0xff26 {
            self.nr52 = (value & 0x80) | 0x70 | (self.nr52 & 0xf);
        } else if 0xff30 <= a && a < 0xff40 {
            self.wave_ram.set(a - 0xff30, value);
        } else if a == 0xff40 {
            self.lcd_control = value;
        } else if a == 0xff41 {
            self.lcd_status = value;
        } else if a == 0xff42 {
            self.scy = value;
        } else if a == 0xff43 {
            self.scx = value;
        } else if a == 0xff45 {
            self.lyc = value;
        } else if a == 0xff46 {
            let mut buf: Vec<u8> = Vec::new();
            let mut i: usize = 0;
            while i < OAM_SIZE
                invariant
                    self == old(self),
                    self.wf(),
                    i <= OAM_SIZE,
                    buf@.len() == i,
                    forall|j: int| 0 <= j < i ==>
                        buf@[j] == self@.read(((value as int) * 256 + j) as u16),
                decreases OAM_SIZE - i,
            {
                let src = (value as u16) * 256 + (i as u16);
                let b = self.get_byte(src);
                buf.push(b);
                i = i + 1;
            }
            self.obj_attr_memory = buf;
            proof {
                assert(self.obj_attr_memory@ =~= Seq::new(OAM_SIZE as nat, |j: int|
                    old(self)@.read(((value as int) * 256 + j) as u16)));
            }
        } else if a == 0xff47 {
            self.bg_palette = value;
        } else if a == 0xff48 || a == 0xff49 {
            self.obj_palette.set(a - 0xff48, value);
        } else if a == 0xff4a {
            self.wy = value;
        } else if a == 0xff4b {
            self.wx = value;
        } else if 0xff80 <= a && a < 0xffff {
            self.high_ram.set(a - 0xff80, value);
        } else if a == 0xffff {
            self.interrupt_enable = value;
        }
    }

    /// Store a little-endian word: the low byte at `address`, then the high
    /// byte at the wrapping successor address.
    pub fn set_word(&mut self, address: u16, value: u16)
        requires
            old(self).wf(),
        ensures
            final(self)@ == old(self)@.write_word(address, value),
            final(self).wf(),
    {
        let lower = (value % 256) as u8;
        let upper = (value / 256) as u8;
        self.set_byte(address, lower);
        self.set_byte(if address == 0xffff {
            0
        } else {
            address + 1
        }, upper);
    }
}

} // verus!
