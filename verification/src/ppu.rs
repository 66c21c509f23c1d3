//! The picture processor: the four-mode scanline state machine, the OAM
//! scan with its stable sort by sprite x, and the per-pixel background,
//! window and object layering into the RGBA framebuffer.
//!
//! [`spec_ppu_tick`] defines the whole unit as a function of its state and
//! the bus; the per-pixel layering is pinned by [`spec_final_pixel`].

use vstd::prelude::*;
use crate::memory::{Memory, MemView};
use crate::cpu::{spec_pow2, pow2};

verus! {

/// Framebuffer width in pixels.
pub const DISPLAY_WIDTH: usize = 160;
/// Framebuffer height in pixels.
pub const DISPLAY_HEIGHT: usize = 144;
/// Framebuffer size in bytes (RGBA, 4 bytes per pixel).
pub const FRAME_BUFFER_SIZE: usize = 92160;

/// The four shades of the DMG palette.
#[derive(Clone, Copy, Debug, PartialEq, Eq, Structural)]
pub enum Color {
    White,
    LightGray,
    DarkGray,
    Black,
}

/// The shade selected by a 2-bit color value.
pub open spec fn spec_color_of(v: u8) -> Color {
    if v == 0 {
        Color::White
    } else if v == 1 {
        Color::LightGray
    } else if v == 2 {
        Color::DarkGray
    } else {
        Color::Black
    }
}

/// The grayscale byte a shade is drawn with.
pub open spec fn spec_color_val(c: Color) -> u8 {
    match c {
        Color::White => 255,
        Color::LightGray => 170,
        Color::DarkGray => 85,
        Color::Black => 0,
    }
}

pub fn color_of(v: u8) -> (r: Color)
    ensures
        r == spec_color_of(v),
{
    if v == 0 {
        Color::White
    } else if v == 1 {
        Color::LightGray
    } else if v == 2 {
        Color::DarkGray
    } else {
        Color::Black
    }
}

/// The LCDC control register, by field.
#[derive(Clone, Copy, Debug, PartialEq, Eq, Structural)]
pub struct LCDControl {
    pub lcd_enable: bool,
    pub win_tile_map_area: bool,
    pub win_enable: bool,
    pub bg_win_tile_data_area: bool,
    pub bg_tile_map_area: bool,
    pub obj_size: bool,
    pub obj_enable: bool,
    pub bg_win_enable: bool,
}

/// The fields packed in an LCDC register value.
pub open spec fn spec_lcdc_of(v: u8) -> LCDControl {
    LCDControl {
        lcd_enable: (v / 128) % 2 == 1,
        win_tile_map_area: (v / 64) % 2 == 1,
        win_enable: (v / 32) % 2 == 1,
        bg_win_tile_data_area: (v / 16) % 2 == 1,
        bg_tile_map_area: (v / 8) % 2 == 1,
        obj_size: (v / 4) % 2 == 1,
        obj_enable: (v / 2) % 2 == 1,
        bg_win_enable: v % 2 == 1,
    }
}

impl LCDControl {
    pub fn from_bits(v: u8) -> (r: LCDControl)
        ensures
            r == spec_lcdc_of(v),
    {
        LCDControl {
            lcd_enable: (v / 128) % 2 == 1,
            win_tile_map_area: (v / 64) % 2 == 1,
            win_enable: (v / 32) % 2 == 1,
            bg_win_tile_data_area: (v / 16) % 2 == 1,
            bg_tile_map_area: (v / 8) % 2 == 1,
            obj_size: (v / 4) % 2 == 1,
            obj_enable: (v / 2) % 2 == 1,
            bg_win_enable: v % 2 == 1,
        }
    }
}

/// The STAT status register, by field.
#[derive(Clone, Copy, Debug, PartialEq, Eq, Structural)]
pub struct LCDStatus {
    pub ly_interrupt_enable: bool,
    pub oam_interrupt_enable: bool,
    pub vblank_interrupt_enable: bool,
    pub hblank_interrupt_enable: bool,
    pub ly_compare: bool,
    pub mode: u8,
}

/// The fields packed in a STAT register value.
pub open spec fn spec_stat_of(v: u8) -> LCDStatus {
    LCDStatus {
        ly_interrupt_enable: (v / 64) % 2 == 1,
        oam_interrupt_enable: (v / 32) % 2 == 1,
        vblank_interrupt_enable: (v / 16) % 2 == 1,
        hblank_interrupt_enable: (v / 8) % 2 == 1,
        ly_compare: (v / 4) % 2 == 1,
        mode: v % 4,
    }
}

/// The STAT register value holding the given fields.
pub open spec fn spec_stat_bits(s: LCDStatus) -> u8 {
    ((if s.ly_interrupt_enable {
        64int
    } else {
        0int
    }) + (if s.oam_interrupt_enable {
        32int
    } else {
        0int
    }) + (if s.vblank_interrupt_enable {
        16int
    } else {
        0int
    }) + (if s.hblank_interrupt_enable {
        8int
    } else {
        0int
    }) + (if s.ly_compare {
        4int
    } else {
        0int
    }) + s.mode) as u8
}

impl LCDStatus {
    pub fn from_bits(v: u8) -> (r: LCDStatus)
        ensures
            r == spec_stat_of(v),
    {
        LCDStatus {
            ly_interrupt_enable: (v / 64) % 2 == 1,
            oam_interrupt_enable: (v / 32) % 2 == 1,
            vblank_interrupt_enable: (v / 16) % 2 == 1,
            hblank_interrupt_enable: (v / 8) % 2 == 1,
            ly_compare: (v / 4) % 2 == 1,
            mode: v % 4,
        }
    }

    pub fn to_bits(self) -> (r: u8)
        requires
            self.mode <= 3,
        ensures
            r == spec_stat_bits(self),
    {
        let mut v: u8 = self.mode;
        if self.ly_interrupt_enable {
            v = v + 64;
        }
        if self.oam_interrupt_enable {
            v = v + 32;
        }
        if self.vblank_interrupt_enable {
            v = v + 16;
        }
        if self.hblank_interrupt_enable {
            v = v + 8;
        }
        if self.ly_compare {
            v = v + 4;
        }
        v
    }
}

/// Picture-processor state: remaining T-cycles of the current mode, the
/// RGBA framebuffer, the sprites selected by the last OAM scan as pairs of
/// (sprite x, OAM index), the window line counter and the per-frame
/// "WY has matched LY" latch.
pub struct PPU {
    pub clocks_to_finish: usize,
    pub frame_buffer: Vec<u8>,
    pub obj_idx: Vec<(usize, usize)>,
    pub window_line_counter: usize,
    pub wy_cond_triggered: bool,
}

/// Mathematical view of the picture-processor state.
#[verifier::ext_equal]
pub ghost struct PpuView {
    pub clocks_to_finish: usize,
    pub frame_buffer: Seq<u8>,
    pub obj_idx: Seq<(usize, usize)>,
    pub window_line_counter: usize,
    pub wy_cond_triggered: bool,
}

impl View for PPU {
    type V = PpuView;

    open spec fn view(&self) -> PpuView {
        PpuView {
            clocks_to_finish: self.clocks_to_finish,
            frame_buffer: self.frame_buffer@,
            obj_idx: self.obj_idx@,
            window_line_counter: self.window_line_counter,
            wy_cond_triggered: self.wy_cond_triggered,
        }
    }
}

impl PpuView {
    /// Well-formedness: the framebuffer has its fixed size, the current
    /// mode still has cycles to burn, at most 10 selected sprites with OAM
    /// indices below 40, and the window line counter stays within a frame.
    pub open spec fn wf(self) -> bool {
        &&& self.clocks_to_finish >= 1
        &&& self.pix_wf()
    }

    /// The part of well-formedness the pixel pipeline needs: framebuffer
    /// size, sprite-list bounds and the window line counter.
    pub open spec fn pix_wf(self) -> bool {
        &&& self.frame_buffer.len() == FRAME_BUFFER_SIZE
        &&& self.obj_idx.len() <= 10
        &&& (forall|k: int| 0 <= k < self.obj_idx.len() ==> (#[trigger] self.obj_idx[k]).1 < 40)
        &&& self.window_line_counter <= 144
    }
}

/// The PPU state a fresh machine starts with: a zeroed framebuffer and a
/// full scanline budget.
pub open spec fn spec_ppu_init() -> PpuView {
    PpuView {
        clocks_to_finish: 456,
        frame_buffer: Seq::new(FRAME_BUFFER_SIZE as nat, |i: int| 0u8),
        obj_idx: Seq::empty(),
        window_line_counter: 0,
        wy_cond_triggered: false,
    }
}

/// The power of two selecting bit `n` of a 16-bit word.
pub open spec fn spec_pow2_16(n: int) -> u16 {
    if n < 8 {
        spec_pow2(n) as u16
    } else if n == 8 {
        0x100
    } else if n == 9 {
        0x200
    } else if n == 10 {
        0x400
    } else if n == 11 {
        0x800
    } else if n == 12 {
        0x1000
    } else if n == 13 {
        0x2000
    } else if n == 14 {
        0x4000
    } else {
        0x8000
    }
}

pub fn pow2_16(n: usize) -> (r: u16)
    requires
        n < 16,
    ensures
        r == spec_pow2_16(n as int),
{
    if n < 8 {
        pow2(n) as u16
    } else if n == 8 {
        0x100
    } else if n == 9 {
        0x200
    } else if n == 10 {
        0x400
    } else if n == 11 {
        0x800
    } else if n == 12 {
        0x1000
    } else if n == 13 {
        0x2000
    } else if n == 14 {
        0x4000
    } else {
        0x8000
    }
}

/// The address of the tile row holding the pixel: tile index lookup in the
/// selected tile map, then signed or unsigned tile data addressing.
pub open spec fn spec_tile_row_addr(m: MemView, map_base: int, ty: int, tx: int) -> u16 {
    let tile_idx = m.read((map_base + (ty / 8) * 32 + tx / 8) as u16) as int;
    let lcdc = spec_lcdc_of(m.lcd_control);
    let data_addr: int = if lcdc.bg_win_tile_data_area {
        0x8000 + tile_idx * 16
    } else if tile_idx >= 128 {
        0x9000 - (256 - tile_idx) * 16
    } else {
        0x9000 + tile_idx * 16
    };
    (data_addr + (ty % 8) * 2) as u16
}

/// The 2-bit color value of a pixel within a tile row word: the low bit in
/// the first byte, the high bit in the second.
pub open spec fn spec_tile_color_id(tile_data: u16, fx: int) -> int {
    (tile_data / spec_pow2_16(7 - fx)) % 2 + ((tile_data / spec_pow2_16(15 - fx)) % 2) * 2
}

/// A 2-bit color value run through a palette register.
pub open spec fn spec_palette_color(palette: u8, color_id: int) -> Color {
    spec_color_of((palette / spec_pow2(color_id * 2)) % 4)
}

/// The background shade at screen position (y, x), or White when the
/// background layer is disabled.
pub open spec fn spec_bg_pixel(m: MemView, y: int, x: int) -> Color {
    let lcdc = spec_lcdc_of(m.lcd_control);
    if !lcdc.bg_win_enable {
        Color::White
    } else {
        let by = (y + m.scy) % 256;
        let bx = (x + m.scx) % 256;
        let map_base: int = if lcdc.bg_tile_map_area {
            0x9c00
        } else {
            0x9800
        };
        let tile_data = m.read_word(spec_tile_row_addr(m, map_base, by, bx));
        spec_palette_color(m.bg_palette, spec_tile_color_id(tile_data, bx % 8))
    }
}

/// The window shade at screen column `x` on the window row `wlc`, or None
/// where the window does not reach.
pub open spec fn spec_window_pixel(m: MemView, wlc: int, x: int) -> Option<Color> {
    let lcdc = spec_lcdc_of(m.lcd_control);
    if !lcdc.bg_win_enable || !lcdc.win_enable {
        None
    } else if m.wx > x + 7 {
        None
    } else {
        let wxp = x + 7 - m.wx;
        let map_base: int = if lcdc.win_tile_map_area {
            0x9c00
        } else {
            0x9800
        };
        let tile_data = m.read_word(spec_tile_row_addr(m, map_base, wlc, wxp));
        Some(spec_palette_color(m.bg_palette, spec_tile_color_id(tile_data, wxp % 8)))
    }
}

/// The shade of OAM sprite `obj_idx` at screen position (y, x): None when
/// the sprite does not cover the pixel or the covered pixel is
/// transparent (color 0).
pub open spec fn spec_obj_pixel(m: MemView, obj_idx: int, y: int, x: int) -> Option<Color> {
    let lcdc = spec_lcdc_of(m.lcd_control);
    let base = 0xfe00 + obj_idx * 4;
    let h: int = if lcdc.obj_size {
        16
    } else {
        8
    };
    let oy = m.read(base as u16) as int;
    let ox = m.read((base + 1) as u16) as int;
    let tile0 = m.read((base + 2) as u16) as int;
    let attr = m.read((base + 3) as u16) as int;
    if !(oy <= y + 16 && y + 16 < oy + h && ox <= x + 8 && x < ox) {
        None
    } else {
        let tile1: int = if lcdc.obj_size {
            tile0 - tile0 % 2
        } else {
            tile0
        };
        let fy0 = y + 16 - oy;
        let fy1: int = if (attr / 64) % 2 == 1 {
            h - fy0 - 1
        } else {
            fy0
        };
        let fx0 = x + 8 - ox;
        let fx: int = if (attr / 32) % 2 == 1 {
            7 - fx0
        } else {
            fx0
        };
        let tile: int = if fy1 >= 8 {
            tile1 + 1
        } else {
            tile1
        };
        let fy: int = if fy1 >= 8 {
            fy1 - 8
        } else {
            fy1
        };
        let tile_data = m.read_word((0x8000 + tile * 16 + fy * 2) as u16);
        let color_id = spec_tile_color_id(tile_data, fx);
        if color_id == 0 {
            None
        } else {
            let palette: u8 = if (attr / 16) % 2 == 1 {
                m.obj_palette[1]
            } else {
                m.obj_palette[0]
            };
            Some(spec_palette_color(palette, color_id))
        }
    }
}

/// Whether the window layer is drawn at all on this scanline.
pub open spec fn spec_win_visible(p: PpuView, m: MemView) -> bool {
    let lcdc = spec_lcdc_of(m.lcd_control);
    lcdc.bg_win_enable && lcdc.win_enable && p.wy_cond_triggered && m.wx < 168
}

/// The shade the sprite layer leaves at (y, x), scanning the selected
/// sprites from index `k` on: the first selected sprite covering the
/// column with a non-transparent pixel wins, unless its priority bit defers
/// to a non-White background pixel.
pub open spec fn spec_obj_resolve(
    m: MemView,
    objs: Seq<(usize, usize)>,
    k: int,
    y: int,
    x: int,
    below: Color,
) -> Color
    decreases objs.len() - k,
{
    if k < 0 || k >= objs.len() {
        below
    } else {
        let ox = objs[k].0 as int;
        let idx = objs[k].1 as int;
        if ox > x + 8 || ox <= x {
            spec_obj_resolve(m, objs, k + 1, y, x, below)
        } else {
            match spec_obj_pixel(m, idx, y, x) {
                None => spec_obj_resolve(m, objs, k + 1, y, x, below),
                Some(c) => {
                    let attr = m.read((0xfe00 + idx * 4 + 3) as u16);
                    if (attr / 128) % 2 == 0 || below == Color::White {
                        c
                    } else {
                        below
                    }
                },
            }
        }
    }
}

/// The final shade written to screen position (y, x): background, window
/// where it reaches, and the sprite layer on top.
pub open spec fn spec_final_pixel(p: PpuView, m: MemView, y: int, x: int) -> Color {
    let lcdc = spec_lcdc_of(m.lcd_control);
    let bg = spec_bg_pixel(m, y, x);
    let below: Color = if spec_win_visible(p, m) {
        match spec_window_pixel(m, p.window_line_counter as int, x) {
            Some(c) => c,
            None => bg,
        }
    } else {
        bg
    };
    if lcdc.obj_enable {
        spec_obj_resolve(m, p.obj_idx, 0, y, x, below)
    } else {
        below
    }
}

/// The framebuffer update of one pixel: four grayscale RGBA bytes.
pub open spec fn spec_set_pixel(p: PpuView, y: int, x: int, c: Color) -> PpuView {
    let i = (y * 160 + x) * 4;
    let v = spec_color_val(c);
    PpuView {
        frame_buffer: p.frame_buffer.update(i, v).update(i + 1, v).update(i + 2, v).update(
            i + 3,
            255,
        ),
        ..p
    }
}

/// The framebuffer after drawing the first `n` pixels of scanline `y`.
pub open spec fn spec_render_px(p: PpuView, m: MemView, y: int, n: int) -> PpuView
    decreases n,
{
    if n <= 0 {
        p
    } else {
        let prev = spec_render_px(p, m, y, n - 1);
        spec_set_pixel(prev, y, n - 1, spec_final_pixel(prev, m, y, n - 1))
    }
}

/// One rendered scanline: all 160 pixels, and the window line counter
/// advanced when the window contributed at least one pixel.
pub open spec fn spec_render(p: PpuView, m: MemView, y: int) -> PpuView {
    let p2 = spec_render_px(p, m, y, 160);
    if spec_win_visible(p, m) && m.wx <= 166 && p.window_line_counter < 144 {
        PpuView { window_line_counter: (p.window_line_counter + 1) as usize, ..p2 }
    } else {
        p2
    }
}

/// The sprites among OAM entries 0..n that cover scanline `y`, at most 10,
/// in OAM order, as (sprite x, OAM index) pairs.
pub open spec fn spec_select_objs(m: MemView, h: int, y: int, n: int) -> Seq<(usize, usize)>
    decreases n,
{
    if n <= 0 {
        Seq::empty()
    } else {
        let prev = spec_select_objs(m, h, y, n - 1);
        if prev.len() >= 10 {
            prev
        } else {
            let oy = m.read((0xfe00 + (n - 1) * 4) as u16) as int;
            let ox = m.read((0xfe00 + (n - 1) * 4 + 1) as u16);
            if oy + h > y + 16 && oy <= y + 16 {
                prev.push((ox as usize, (n - 1) as usize))
            } else {
                prev
            }
        }
    }
}

/// Insert an element into a sequence sorted by the first component,
/// after every element whose first component is not larger (keeping the
/// insertion stable).
pub open spec fn spec_insert_by_x(s: Seq<(usize, usize)>, e: (usize, usize)) -> Seq<
    (usize, usize),
>
    decreases s.len(),
{
    if s.len() == 0 {
        seq![e]
    } else if s.last().0 <= e.0 {
        s.push(e)
    } else {
        spec_insert_by_x(s.drop_last(), e).push(s.last())
    }
}

/// Stable insertion sort by the first component.
pub open spec fn spec_sort_by_x(s: Seq<(usize, usize)>) -> Seq<(usize, usize)>
    decreases s.len(),
{
    if s.len() == 0 {
        s
    } else {
        spec_insert_by_x(spec_sort_by_x(s.drop_last()), s.last())
    }
}

/// The result of one OAM scan for scanline `y`: the covering sprites in
/// OAM order, stably sorted by sprite x.
pub open spec fn spec_oam_scan(m: MemView, y: int) -> Seq<(usize, usize)> {
    let h: int = if spec_lcdc_of(m.lcd_control).obj_size {
        16
    } else {
        8
    };
    spec_sort_by_x(spec_select_objs(m, h, y, 40))
}

/// Inserting at the position the sorted insertion finds yields exactly the
/// three-part split around the inserted element.
proof fn lemma_insert_by_x_at(s: Seq<(usize, usize)>, e: (usize, usize), p: int)
    requires
        0 <= p <= s.len(),
        forall|k: int| p <= k < s.len() ==> (#[trigger] s[k]).0 > e.0,
        p > 0 ==> s[p - 1].0 <= e.0,
    ensures
        spec_insert_by_x(s, e) == s.subrange(0, p) + seq![e] + s.subrange(p, s.len() as int),
    decreases s.len(),
{
    if s.len() == 0 {
        assert(spec_insert_by_x(s, e) =~= s.subrange(0, p) + seq![e] + s.subrange(
            p,
            s.len() as int,
        ));
    } else if p == s.len() {
        assert(s.last().0 <= e.0);
        assert(spec_insert_by_x(s, e) =~= s.subrange(0, p) + seq![e] + s.subrange(
            p,
            s.len() as int,
        ));
    } else {
        assert(s[s.len() - 1].0 > e.0);
        lemma_insert_by_x_at(s.drop_last(), e, p);
        assert(spec_insert_by_x(s, e) =~= s.subrange(0, p) + seq![e] + s.subrange(
            p,
            s.len() as int,
        ));
    }
}

/// Sorted insertion keeps every per-element bound on the OAM index and the
/// length grows by one.
proof fn lemma_insert_by_x_wf(s: Seq<(usize, usize)>, e: (usize, usize))
    requires
        forall|k: int| 0 <= k < s.len() ==> (#[trigger] s[k]).1 < 40,
        e.1 < 40,
    ensures
        spec_insert_by_x(s, e).len() == s.len() + 1,
        forall|k: int| 0 <= k < s.len() + 1 ==> (#[trigger] spec_insert_by_x(s, e)[k]).1 < 40,
    decreases s.len(),
{
    if s.len() == 0 {
    } else if s.last().0 <= e.0 {
    } else {
        lemma_insert_by_x_wf(s.drop_last(), e);
    }
}

impl PPU {
    /// Well-formedness of the executable state (see [`PpuView::wf`]).
    pub open spec fn wf(&self) -> bool {
        self@.wf()
    }

    /// A fresh picture processor: zeroed framebuffer, no sprites selected,
    /// a full scanline budget.
    pub fn new() -> (r: PPU)
        ensures
            r@ == spec_ppu_init(),
            r.wf(),
    {
        let r = PPU {
            clocks_to_finish: 456,
            frame_buffer: crate::memory::zero_vec(FRAME_BUFFER_SIZE),
            obj_idx: Vec::new(),
            window_line_counter: 0,
            wy_cond_triggered: false,
        };
        proof {
            assert(r@ =~= spec_ppu_init());
        }
        r
    }

    /// Draw one pixel into the framebuffer as grayscale RGBA.
    pub fn set_pixel(&mut self, screen_y: usize, screen_x: usize, color: Color)
        requires
            old(self)@.frame_buffer.len() == FRAME_BUFFER_SIZE,
            screen_y < DISPLAY_HEIGHT,
            screen_x < DISPLAY_WIDTH,
        ensures
            final(self)@ == spec_set_pixel(old(self)@, screen_y as int, screen_x as int, color),
    {
        let v: u8 = match color {
            Color::White => 255,
            Color::LightGray => 170,
            Color::DarkGray => 85,
            Color::Black => 0,
        };
        let i = (screen_y * DISPLAY_WIDTH + screen_x) * 4;
        self.frame_buffer.set(i, v);
        self.frame_buffer.set(i + 1, v);
        self.frame_buffer.set(i + 2, v);
        self.frame_buffer.set(i + 3, 255);
    }

    /// The background shade at (y, x) (see [`spec_bg_pixel`]).
    pub fn get_background_pixel(&self, mem: &Memory, screen_y: usize, screen_x: usize) -> (r:
        Color)
        requires
            mem.wf(),
            screen_y < DISPLAY_HEIGHT,
            screen_x < DISPLAY_WIDTH,
        ensures
            r == spec_bg_pixel(mem@, screen_y as int, screen_x as int),
    {
        let lcdc = LCDControl::from_bits(mem.lcd_control);
        if !lcdc.bg_win_enable {
            return Color::White;
        }
        let by = (screen_y + mem.scy as usize) % 256;
        let bx = (screen_x + mem.scx as usize) % 256;
        let map_base: u16 = if lcdc.bg_tile_map_area {
            0x9c00
        } else {
            0x9800
        };
        let tile_data = self.read_tile_row(mem, map_base, by, bx);
        Self::palette_color(mem.bg_palette, Self::tile_color_id(tile_data, bx % 8))
    }

    /// Read the tile row word for tile coordinates (ty, tx) below the given
    /// tile map base.
    fn read_tile_row(&self, mem: &Memory, map_base: u16, ty: usize, tx: usize) -> (r: u16)
        requires
            mem.wf(),
            map_base == 0x9800 || map_base == 0x9c00,
            ty < 256,
            tx < 256,
        ensures
            r == mem@.read_word(spec_tile_row_addr(mem@, map_base as int, ty as int, tx as int)),
    {
        let lcdc = LCDControl::from_bits(mem.lcd_control);
        let tile_idx = mem.get_byte(map_base + ((ty as u16) / 8) * 32 + (tx as u16) / 8);
        let data_addr: u16 = if lcdc.bg_win_tile_data_area {
            0x8000 + (tile_idx as u16) * 16
        } else if tile_idx >= 128 {
            0x9000 - (256 - tile_idx as u16) * 16
        } else {
            0x9000 + (tile_idx as u16) * 16
        };
        mem.get_word(data_addr + ((ty as u16) % 8) * 2)
    }

    /// The 2-bit color value of pixel `fx` in a tile row word.
    fn tile_color_id(tile_data: u16, fx: usize) -> (r: u8)
        requires
            fx < 8,
        ensures
            r == spec_tile_color_id(tile_data, fx as int),
            r <= 3,
    {
        let lo = (tile_data / pow2_16(7 - fx)) % 2;
        let hi = (tile_data / pow2_16(15 - fx)) % 2;
        (lo + hi * 2) as u8
    }

    /// A 2-bit color value run through a palette register.
    fn palette_color(palette: u8, color_id: u8) -> (r: Color)
        requires
            color_id <= 3,
        ensures
            r == spec_palette_color(palette, color_id as int),
    {
        color_of((palette / pow2((color_id * 2) as usize)) % 4)
    }

    /// The window shade at column `x` of the current window row, or None
    /// where the window does not reach (see [`spec_window_pixel`]).
    pub fn get_window_pixel(&self, mem: &Memory, screen_x: usize) -> (r: Option<Color>)
        requires
            mem.wf(),
            self@.pix_wf(),
            screen_x < DISPLAY_WIDTH,
        ensures
            r == spec_window_pixel(mem@, self.window_line_counter as int, screen_x as int),
    {
        let lcdc = LCDControl::from_bits(mem.lcd_control);
        if !lcdc.bg_win_enable || !lcdc.win_enable {
            return None;
        }
        if (mem.wx as usize) > screen_x + 7 {
            return None;
        }
        let wxp = screen_x + 7 - mem.wx as usize;
        let map_base: u16 = if lcdc.win_tile_map_area {
            0x9c00
        } else {
            0x9800
        };
        let tile_data = self.read_tile_row(mem, map_base, self.window_line_counter, wxp);
        Some(Self::palette_color(mem.bg_palette, Self::tile_color_id(tile_data, wxp % 8)))
    }

    /// The shade of OAM sprite `obj_idx` at (y, x), None when the sprite
    /// does not cover the pixel or its pixel there is transparent
    /// (see [`spec_obj_pixel`]).
    pub fn get_object_pixel(&self, mem: &Memory, obj_idx: usize, screen_y: usize, screen_x: usize)
        -> (r: Option<Color>)
        requires
            mem.wf(),
            obj_idx < 40,
            screen_y < DISPLAY_HEIGHT,
            screen_x < DISPLAY_WIDTH,
        ensures
            r == spec_obj_pixel(mem@, obj_idx as int, screen_y as int, screen_x as int),
    {
        let lcdc = LCDControl::from_bits(mem.lcd_control);
        let base: u16 = 0xfe00 + (obj_idx as u16) * 4;
        let h: usize = if lcdc.obj_size {
            16
        } else {
            8
        };
        let oy = mem.get_byte(base) as usize;
        let ox = mem.get_byte(base + 1) as usize;
        let tile0 = mem.get_byte(base + 2) as usize;
        let attr = mem.get_byte(base + 3) as usize;
        if !(oy <= screen_y + 16 && screen_y + 16 < oy + h && ox <= screen_x + 8 && screen_x < ox)
        {
            return None;
        }
        let tile1: usize = if lcdc.obj_size {
            tile0 - tile0 % 2
        } else {
            tile0
        };
        let fy0 = screen_y + 16 - oy;
        let fy1: usize = if (attr / 64) % 2 == 1 {
            h - fy0 - 1
        } else {
            fy0
        };
        let fx0 = screen_x + 8 - ox;
        let fx: usize = if (attr / 32) % 2 == 1 {
            7 - fx0
        } else {
            fx0
        };
        let tile: usize = if fy1 >= 8 {
            tile1 + 1
        } else {
            tile1
        };
        let fy: usize = if fy1 >= 8 {
            fy1 - 8
        } else {
            fy1
        };
        let tile_data = mem.get_word(0x8000 + (tile as u16) * 16 + (fy as u16) * 2);
        let color_id = Self::tile_color_id(tile_data, fx);
        if color_id == 0 {
            return None;
        }
        let palette: u8 = if (attr / 16) % 2 == 1 {
            mem.obj_palette[1]
        } else {
            mem.obj_palette[0]
        };
        Some(Self::palette_color(palette, color_id))
    }

    /// Scan the 40 OAM entries for sprites covering scanline `y`, keeping
    /// at most 10 in OAM order, then sort them stably by sprite x
    /// (see [`spec_oam_scan`]).
    pub fn oam_scan(&mut self, mem: &Memory, y: usize)
        requires
            mem.wf(),
            old(self)@.pix_wf(),
            y < 256,
        ensures
            final(self)@ == (PpuView { obj_idx: spec_oam_scan(mem@, y as int), ..old(self)@ }),
            final(self)@.pix_wf(),
    {
        let lcdc = LCDControl::from_bits(mem.lcd_control);
        let h: usize = if lcdc.obj_size {
            16
        } else {
            8
        };
        let mut selected: Vec<(usize, usize)> = Vec::new();
        let mut idx: usize = 0;
        while idx < 40
            invariant
                mem.wf(),
                idx <= 40,
                selected@ == spec_select_objs(mem@, h as int, y as int, idx as int),
                selected@.len() <= 10,
                forall|k: int| 0 <= k < selected@.len() ==> (#[trigger] selected@[k]).1 < 40,
                h == (if spec_lcdc_of(mem@.lcd_control).obj_size { 16int } else { 8int }),
                y < 256,
            decreases 40 - idx,
        {
            if selected.len() < 10 {
                let base: u16 = 0xfe00 + (idx as u16) * 4;
                let oy = mem.get_byte(base) as usize;
                let ox = mem.get_byte(base + 1) as usize;
                if oy + h > y + 16 && oy <= y + 16 {
                    selected.push((ox, idx));
                }
            }
            idx = idx + 1;
        }
        let mut sorted: Vec<(usize, usize)> = Vec::new();
        let mut i: usize = 0;
        while i < selected.len()
            invariant
                i <= selected@.len(),
                selected@.len() <= 10,
                sorted@ == spec_sort_by_x(selected@.subrange(0, i as int)),
                sorted@.len() == i,
                forall|k: int| 0 <= k < selected@.len() ==> (#[trigger] selected@[k]).1 < 40,
                forall|k: int| 0 <= k < sorted@.len() ==> (#[trigger] sorted@[k]).1 < 40,
            decreases selected.len() - i,
        {
            let e = selected[i];
            let mut p: usize = sorted.len();
            while p > 0 && sorted[p - 1].0 > e.0
                invariant
                    p <= sorted@.len(),
                    forall|k: int| p <= k < sorted@.len() ==> (#[trigger] sorted@[k]).0 > e.0,
                decreases p,
            {
                p = p - 1;
            }
            proof {
                lemma_insert_by_x_at(sorted@, e, p as int);
                lemma_insert_by_x_wf(sorted@, e);
                assert(selected@.subrange(0, i as int) =~= selected@.subrange(
                    0,
                    i + 1 as int,
                ).drop_last());
            }
            sorted.insert(p, e);
            proof {
                assert(sorted@ =~= spec_sort_by_x(selected@.subrange(0, i + 1)));
            }
            i = i + 1;
        }
        proof {
            assert(selected@.subrange(0, selected@.len() as int) =~= selected@);
        }
        self.obj_idx = sorted;
        proof {
            assert(self@ =~= (PpuView { obj_idx: spec_oam_scan(mem@, y as int), ..old(self)@ }));
        }
    }

    /// Fill the whole framebuffer with White.
    pub fn clear_frame_buffer(&mut self)
        requires
            old(self)@.frame_buffer.len() == FRAME_BUFFER_SIZE,
        ensures
            final(self)@ == (PpuView {
                frame_buffer: Seq::new(FRAME_BUFFER_SIZE as nat, |i: int| 255u8),
                ..old(self)@
            }),
    {
        let mut v: Vec<u8> = Vec::new();
        let mut i: usize = 0;
        while i < FRAME_BUFFER_SIZE
            invariant
                i <= FRAME_BUFFER_SIZE,
                v@.len() == i,
                forall|j: int| 0 <= j < i ==> v@[j] == 255u8,
            decreases FRAME_BUFFER_SIZE - i,
        {
            v.push(255);
            i = i + 1;
        }
        self.frame_buffer = v;
        proof {
            assert(self@.frame_buffer =~= Seq::new(FRAME_BUFFER_SIZE as nat, |i: int| 255u8));
            assert(self@ =~= (PpuView {
                frame_buffer: Seq::new(FRAME_BUFFER_SIZE as nat, |i: int| 255u8),
                ..old(self)@
            }));
        }
    }

    /// Draw scanline `y`: background, window and sprites for each of the
    /// 160 columns, then advance the window line counter if the window
    /// contributed (see [`spec_render`]).
    #[verifier::rlimit(100)]
    pub fn render(&mut self, mem: &Memory, y: usize)
        requires
            mem.wf(),
            old(self)@.pix_wf(),
            y < DISPLAY_HEIGHT,
        ensures
            final(self)@ == spec_render(old(self)@, mem@, y as int),
            final(self)@.pix_wf(),
            final(self)@.clocks_to_finish == old(self)@.clocks_to_finish,
    {
        let ghost orig = self@;
        let win_visible = {
            let lcdc = LCDControl::from_bits(mem.lcd_control);
            lcdc.bg_win_enable && lcdc.win_enable && self.wy_cond_triggered && mem.wx < 168
        };
        let mut x: usize = 0;
        while x < DISPLAY_WIDTH
            invariant
                mem.wf(),
                x <= DISPLAY_WIDTH,
                y < DISPLAY_HEIGHT,
                orig.pix_wf(),
                self@ == spec_render_px(orig, mem@, y as int, x as int),
                self@.pix_wf(),
                self@.obj_idx == orig.obj_idx,
                self@.clocks_to_finish == orig.clocks_to_finish,
                self@.window_line_counter == orig.window_line_counter,
                self@.wy_cond_triggered == orig.wy_cond_triggered,
                win_visible == spec_win_visible(orig, mem@),
            decreases DISPLAY_WIDTH - x,
        {
            let color = self.final_pixel(mem, y, x);
            proof {
                assert(spec_final_pixel(self@, mem@, y as int, x as int) == spec_final_pixel(
                    spec_render_px(orig, mem@, y as int, x as int),
                    mem@,
                    y as int,
                    x as int,
                ));
            }
            self.set_pixel(y, x, color);
            x = x + 1;
        }
        if win_visible && mem.wx <= 166 && self.window_line_counter < 144 {
            self.window_line_counter = self.window_line_counter + 1;
        }
    }

    /// The final shade of screen position (y, x)
    /// (see [`spec_final_pixel`]).
    fn final_pixel(&self, mem: &Memory, y: usize, x: usize) -> (r: Color)
        requires
            mem.wf(),
            self@.pix_wf(),
            y < DISPLAY_HEIGHT,
            x < DISPLAY_WIDTH,
        ensures
            r == spec_final_pixel(self@, mem@, y as int, x as int),
    {
        let lcdc = LCDControl::from_bits(mem.lcd_control);
        let win_visible = lcdc.bg_win_enable && lcdc.win_enable && self.wy_cond_triggered
            && mem.wx < 168;
        let bg = self.get_background_pixel(mem, y, x);
        let mut below = bg;
        if win_visible {
            match self.get_window_pixel(mem, x) {
                Some(c) => {
                    below = c;
                },
                None => {},
            }
        }
        if lcdc.obj_enable {
            self.resolve_objects(mem, y, x, below)
        } else {
            below
        }
    }

    /// The sprite layer's shade at (y, x) over the given background shade
    /// (see [`spec_obj_resolve`]).
    fn resolve_objects(&self, mem: &Memory, y: usize, x: usize, below: Color) -> (r: Color)
        requires
            mem.wf(),
            self@.pix_wf(),
            y < DISPLAY_HEIGHT,
            x < DISPLAY_WIDTH,
        ensures
            r == spec_obj_resolve(mem@, self@.obj_idx, 0, y as int, x as int, below),
    {
        let mut k: usize = 0;
        while k < self.obj_idx.len()
            invariant
                mem.wf(),
                self@.pix_wf(),
                y < DISPLAY_HEIGHT,
                x < DISPLAY_WIDTH,
                k <= self@.obj_idx.len(),
                spec_obj_resolve(mem@, self@.obj_idx, 0, y as int, x as int, below)
                    == spec_obj_resolve(mem@, self@.obj_idx, k as int, y as int, x as int, below),
            decreases self.obj_idx.len() - k,
        {
            let ox = self.obj_idx[k].0;
            let idx = self.obj_idx[k].1;
            if !(ox > x + 8 || ox <= x) {
                match self.get_object_pixel(mem, idx, y, x) {
                    Some(c) => {
                        let attr = mem.get_byte(0xfe00 + (idx as u16) * 4 + 3);
                        if (attr / 128) % 2 == 0 || matches!(below, Color::White) {
                            return c;
                        } else {
                            return below;
                        }
                    },
                    None => {},
                }
            }
            k = k + 1;
        }
        below
    }
}

/// The bus after a change of LY: the coincidence flag follows LY == LYC,
/// and the STAT interrupt is raised when the coincidence interrupt is
/// enabled and the flag is set.
pub open spec fn spec_set_ly(m: MemView, value: u8) -> MemView {
    let stat = spec_stat_of(m.lcd_status);
    let cmp = value == m.lyc;
    MemView {
        ly: value,
        interrupt_flag: if stat.ly_interrupt_enable && cmp {
            m.interrupt_flag | 2
        } else {
            m.interrupt_flag
        },
        lcd_status: spec_stat_bits(LCDStatus { ly_compare: cmp, ..stat }),
        ..m
    }
}

/// Enter HBlank: STAT mode 0, its interrupt if enabled, 204 cycles.
pub open spec fn spec_enter_mode0(p: PpuView, m: MemView) -> (PpuView, MemView) {
    let stat = spec_stat_of(m.lcd_status);
    (
        PpuView { clocks_to_finish: 204, ..p },
        MemView {
            lcd_status: spec_stat_bits(LCDStatus { mode: 0, ..stat }),
            interrupt_flag: if stat.hblank_interrupt_enable {
                m.interrupt_flag | 2
            } else {
                m.interrupt_flag
            },
            ..m
        },
    )
}

/// Enter VBlank: STAT mode 1, the VBlank interrupt, the STAT interrupt if
/// enabled, 456 cycles.
pub open spec fn spec_enter_mode1(p: PpuView, m: MemView) -> (PpuView, MemView) {
    let stat = spec_stat_of(m.lcd_status);
    (
        PpuView { clocks_to_finish: 456, ..p },
        MemView {
            lcd_status: spec_stat_bits(LCDStatus { mode: 1, ..stat }),
            interrupt_flag: if stat.vblank_interrupt_enable {
                (m.interrupt_flag | 1) | 2
            } else {
                m.interrupt_flag | 1
            },
            ..m
        },
    )
}

/// Enter OAM scan: STAT mode 2, its interrupt if enabled, 80 cycles.
pub open spec fn spec_enter_mode2(p: PpuView, m: MemView) -> (PpuView, MemView) {
    let stat = spec_stat_of(m.lcd_status);
    (
        PpuView { clocks_to_finish: 80, ..p },
        MemView {
            lcd_status: spec_stat_bits(LCDStatus { mode: 2, ..stat }),
            interrupt_flag: if stat.oam_interrupt_enable {
                m.interrupt_flag | 2
            } else {
                m.interrupt_flag
            },
            ..m
        },
    )
}

/// Enter drawing: STAT mode 3, 172 cycles.
pub open spec fn spec_enter_mode3(p: PpuView, m: MemView) -> (PpuView, MemView) {
    let stat = spec_stat_of(m.lcd_status);
    (
        PpuView { clocks_to_finish: 172, ..p },
        MemView { lcd_status: spec_stat_bits(LCDStatus { mode: 3, ..stat }), ..m },
    )
}

/// One T-cycle of the picture processor: latch the WY condition at the
/// first cycle of mode 2, burn one cycle, and at the end of the mode run
/// the mode's work and step the scanline machine
/// 2 (OAM scan) -> 3 (draw) -> 0 (HBlank) over lines 0..=143, then
/// 1 (VBlank) over lines 144..=153, wrapping to line 0 with the per-frame
/// state reset.
pub open spec fn spec_ppu_tick(p: PpuView, m: MemView) -> (PpuView, MemView) {
    let ly = m.ly;
    let stat = spec_stat_of(m.lcd_status);
    let p0 = if stat.mode == 2 && p.clocks_to_finish == 80 {
        PpuView { wy_cond_triggered: p.wy_cond_triggered || ly == m.wy, ..p }
    } else {
        p
    };
    let p1 = PpuView { clocks_to_finish: (p0.clocks_to_finish - 1) as usize, ..p0 };
    if p1.clocks_to_finish == 0 {
        if stat.mode == 2 {
            let p2 = PpuView { obj_idx: spec_oam_scan(m, ly as int), ..p1 };
            spec_enter_mode3(p2, m)
        } else if stat.mode == 3 {
            let p2: PpuView = if ly < 144 {
                spec_render(p1, m, ly as int)
            } else {
                // a STAT write can force mode 3 outside the visible lines;
                // there is then no line to draw
                p1
            };
            spec_enter_mode0(p2, m)
        } else if stat.mode == 0 {
            let (p2, m2) = if ly < 143 {
                spec_enter_mode2(p1, m)
            } else {
                spec_enter_mode1(p1, m)
            };
            (p2, spec_set_ly(m2, ((ly + 1) % 256) as u8))
        } else {
            if ly < 153 {
                (
                    PpuView { clocks_to_finish: 456, ..p1 },
                    spec_set_ly(m, ((ly + 1) % 256) as u8),
                )
            } else {
                let (p2, m2) = spec_enter_mode2(p1, m);
                (
                    PpuView { window_line_counter: 0, wy_cond_triggered: false, ..p2 },
                    spec_set_ly(m2, 0),
                )
            }
        }
    } else {
        (p1, m)
    }
}

impl PPU {
    fn set_ly(&mut self, mem: &mut Memory, value: u8)
        requires
            old(mem).wf(),
        ensures
            *final(self) == *old(self),
            final(mem)@ == spec_set_ly(old(mem)@, value),
            final(mem).wf(),
    {
        let mut stat = LCDStatus::from_bits(mem.lcd_status);
        mem.ly = value;
        stat.ly_compare = value == mem.lyc;
        if stat.ly_interrupt_enable && stat.ly_compare {
            mem.interrupt_flag = mem.interrupt_flag | 2;
        }
        mem.lcd_status = stat.to_bits();
    }

    fn enter_mode_0(&mut self, mem: &mut Memory)
        requires
            old(mem).wf(),
        ensures
            final(self)@ == spec_enter_mode0(old(self)@, old(mem)@).0,
            final(mem)@ == spec_enter_mode0(old(self)@, old(mem)@).1,
            final(mem).wf(),
    {
        let mut stat = LCDStatus::from_bits(mem.lcd_status);
        stat.mode = 0;
        mem.lcd_status = stat.to_bits();
        if stat.hblank_interrupt_enable {
            mem.interrupt_flag = mem.interrupt_flag | 2;
        }
        self.clocks_to_finish = 204;
    }

    fn enter_mode_1(&mut self, mem: &mut Memory)
        requires
            old(mem).wf(),
        ensures
            final(self)@ == spec_enter_mode1(old(self)@, old(mem)@).0,
            final(mem)@ == spec_enter_mode1(old(self)@, old(mem)@).1,
            final(mem).wf(),
    {
        let mut stat = LCDStatus::from_bits(mem.lcd_status);
        stat.mode = 1;
        mem.lcd_status = stat.to_bits();
        mem.interrupt_flag = mem.interrupt_flag | 1;
        if stat.vblank_interrupt_enable {
            mem.interrupt_flag = mem.interrupt_flag | 2;
        }
        self.clocks_to_finish = 456;
    }

    fn enter_mode_2(&mut self, mem: &mut Memory)
        requires
            old(mem).wf(),
        ensures
            final(self)@ == spec_enter_mode2(old(self)@, old(mem)@).0,
            final(mem)@ == spec_enter_mode2(old(self)@, old(mem)@).1,
            final(mem).wf(),
    {
        let mut stat = LCDStatus::from_bits(mem.lcd_status);
        stat.mode = 2;
        mem.lcd_status = stat.to_bits();
        if stat.oam_interrupt_enable {
            mem.interrupt_flag = mem.interrupt_flag | 2;
        }
        self.clocks_to_finish = 80;
    }

    fn enter_mode_3(&mut self, mem: &mut Memory)
        requires
            old(mem).wf(),
        ensures
            final(self)@ == spec_enter_mode3(old(self)@, old(mem)@).0,
            final(mem)@ == spec_enter_mode3(old(self)@, old(mem)@).1,
            final(mem).wf(),
    {
        let mut stat = LCDStatus::from_bits(mem.lcd_status);
        stat.mode = 3;
        mem.lcd_status = stat.to_bits();
        self.clocks_to_finish = 172;
    }

    /// One T-cycle of the picture processor (see [`spec_ppu_tick`]).
    #[verifier::rlimit(100)]
    pub fn tick(&mut self, mem: &mut Memory)
        requires
            old(self).wf(),
            old(mem).wf(),
        ensures
            final(self)@ == spec_ppu_tick(old(self)@, old(mem)@).0,
            final(mem)@ == spec_ppu_tick(old(self)@, old(mem)@).1,
            final(self).wf(),
            final(mem).wf(),
    {
        let ly = mem.ly;
        let wy = mem.wy;
        let stat = LCDStatus::from_bits(mem.lcd_status);
        if stat.mode == 2 && self.clocks_to_finish == 80 {
            self.wy_cond_triggered = self.wy_cond_triggered || ly == wy;
        }
        self.clocks_to_finish = self.clocks_to_finish - 1;
        if self.clocks_to_finish == 0 {
            if stat.mode == 2 {
                self.oam_scan(mem, ly as usize);
                self.enter_mode_3(mem);
            } else if stat.mode == 3 {
                if ly < 144 {
                    self.render(mem, ly as usize);
                }
                self.enter_mode_0(mem);
            } else if stat.mode == 0 {
                if ly < 143 {
                    self.enter_mode_2(mem);
                } else {
                    self.enter_mode_1(mem);
                }
                self.set_ly(mem, ((ly as u16 + 1) % 256) as u8);
            } else {
                if ly < 153 {
                    self.clocks_to_finish = 456;
                    self.set_ly(mem, ((ly as u16 + 1) % 256) as u8);
                } else {
                    self.enter_mode_2(mem);
                    self.set_ly(mem, 0);
                    self.window_line_counter = 0;
                    self.wy_cond_triggered = false;
                }
            }
        }
    }
}

} // verus!
