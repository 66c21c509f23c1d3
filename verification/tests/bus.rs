//! Bus round trips, store masks, banking and OAM DMA.

use dmg_core::memory::Memory;

#[test]
fn work_ram_roundtrip() {
    let mut m = Memory::new();
    m.set_byte(0xc000, 0x5a);
    assert_eq!(m.get_byte(0xc000), 0x5a);
    m.set_byte(0xdfff, 0xa5);
    assert_eq!(m.get_byte(0xdfff), 0xa5);
}

#[test]
fn vram_oam_hram_ie_roundtrip() {
    let mut m = Memory::new();
    m.set_byte(0x8000, 0x11);
    assert_eq!(m.get_byte(0x8000), 0x11);
    m.set_byte(0x9fff, 0x22);
    assert_eq!(m.get_byte(0x9fff), 0x22);
    m.set_byte(0xfe00, 0x33);
    assert_eq!(m.get_byte(0xfe00), 0x33);
    m.set_byte(0xfe9f, 0x44);
    assert_eq!(m.get_byte(0xfe9f), 0x44);
    m.set_byte(0xff80, 0x55);
    assert_eq!(m.get_byte(0xff80), 0x55);
    m.set_byte(0xfffe, 0x66);
    assert_eq!(m.get_byte(0xfffe), 0x66);
    m.set_byte(0xffff, 0x77);
    assert_eq!(m.get_byte(0xffff), 0x77);
}

#[test]
fn cart_ram_roundtrip() {
    let mut m = Memory::new();
    m.set_byte(0xa000, 0x99);
    assert_eq!(m.get_byte(0xa000), 0x99);
    m.set_byte(0xbfff, 0x88);
    assert_eq!(m.get_byte(0xbfff), 0x88);
}

#[test]
fn divider_always_reads_zero_after_store() {
    let mut m = Memory::new();
    m.divider = 0xab;
    m.set_byte(0xff04, 0x77);
    assert_eq!(m.get_byte(0xff04), 0);
    m.set_byte(0xff04, 0xff);
    assert_eq!(m.get_byte(0xff04), 0);
}

#[test]
fn ly_is_read_only() {
    let mut m = Memory::new();
    m.ly = 42;
    m.set_byte(0xff44, 7);
    assert_eq!(m.get_byte(0xff44), 42);
}

#[test]
fn word_access_is_little_endian() {
    let mut m = Memory::new();
    m.set_word(0xc100, 0x1234);
    assert_eq!(m.get_byte(0xc100), 0x34);
    assert_eq!(m.get_byte(0xc101), 0x12);
    assert_eq!(m.get_word(0xc100), 0x1234);
}

#[test]
fn unmapped_reads_return_ff() {
    let m = Memory::new();
    assert_eq!(m.get_byte(0xe000), 0xff);
    assert_eq!(m.get_byte(0xfea0), 0xff);
    assert_eq!(m.get_byte(0xff4f), 0xff);
}

#[test]
fn audio_register_read_masks() {
    let mut m = Memory::new();
    m.set_byte(0xff10, 0x00);
    assert_eq!(m.get_byte(0xff10), 0x80);
    m.set_byte(0xff11, 0x00);
    assert_eq!(m.get_byte(0xff11), 0x3f);
    assert_eq!(m.get_byte(0xff13), 0xff);
    m.set_byte(0xff26, 0x80);
    assert_eq!(m.get_byte(0xff26) & 0x70, 0x70);
}

#[test]
fn joypad_store_mask() {
    let mut m = Memory::new();
    m.joypad = 0x0f;
    m.set_byte(0xff00, 0x20);
    assert_eq!(m.joypad, 0xc0 | 0x20 | 0x0f);
    assert_eq!(m.get_byte(0xff00) & 0xc0, 0xc0);
}

#[test]
fn serial_store_is_logged() {
    let mut m = Memory::new();
    m.set_byte(0xff01, b'h');
    m.set_byte(0xff01, b'i');
    assert_eq!(m.serial_log, vec![b'h', b'i']);
}

#[test]
fn mbc1_rom_banking() {
    let mut m = Memory::new();
    m.cart_type = 0x01;
    m.rom_size = 0x04;
    m.set_byte(0x2000, 0x00);
    assert_eq!(m.rom_bank_number, 1);
    m.set_byte(0x2000, 0x12);
    assert_eq!(m.rom_bank_number, 0x12);
    // aux register adds bits 5..=6 in simple banking mode
    m.set_byte(0x4000, 0x01);
    assert_eq!(m.rom_bank_number, 0x32);
    // the upper bits carry over a new low-bank select
    m.set_byte(0x2000, 0x03);
    assert_eq!(m.rom_bank_number, 0x23);
    // RAM banking mode selects the RAM bank instead
    m.set_byte(0x6000, 0x01);
    assert_eq!(m.rom_bank_number, 0x03);
    m.set_byte(0x4000, 0x02);
    assert_eq!(m.ram_bank_number, 2);
}

#[test]
fn mbc5_rom_banking() {
    let mut m = Memory::new();
    m.cart_type = 0x19;
    m.set_byte(0x2000, 0x7f);
    assert_eq!(m.rom_bank_number, 0x7f);
    m.set_byte(0x3000, 0x01);
    assert_eq!(m.rom_bank_number, 0x17f);
    m.set_byte(0x2000, 0x05);
    assert_eq!(m.rom_bank_number, 0x105);
    m.set_byte(0x4000, 0x0b);
    assert_eq!(m.ram_bank_number, 0x0b);
}

#[test]
fn plain_cart_drops_mbc_stores() {
    let mut m = Memory::new();
    m.cart_type = 0x00;
    m.set_byte(0x2000, 0x12);
    assert_eq!(m.rom_bank_number, 0);
    // and the ROM itself is never written through the bus
    m.set_byte(0x1000, 0x55);
    assert_eq!(m.get_byte(0x1000), 0);
}

#[test]
fn oam_dma_copies_source_bytes() {
    let mut m = Memory::new();
    for i in 0..0xa0u16 {
        m.set_byte(0xc000 + i, i as u8);
    }
    m.set_byte(0xff46, 0xc0);
    for i in 0..0xa0u16 {
        assert_eq!(m.get_byte(0xfe00 + i), i as u8);
        assert_eq!(m.obj_attr_memory[i as usize], i as u8);
    }
}
