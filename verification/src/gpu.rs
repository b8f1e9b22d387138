//! The picture processing unit: LCD registers and modes, palettes, video RAM, and the
//! scanline renderer.
use vstd::prelude::*;

use crate::hardware::{VRAM_HEIGHT, VRAM_WIDTH};
use crate::ic::{Irq, Ints};
use crate::mmu::MemRead;

verus! {

/// The LCD controller's mode.
#[derive(Debug, Clone, Copy, PartialEq, Eq, Structural)]
pub enum Mode {
    OAM,
    VRAM,
    HBlank,
    VBlank,
    Off,
}

/// The mode number in the STAT register (0 while the LCD is off).
pub open spec fn mode_bits(m: Mode) -> u8 {
    match m {
        Mode::HBlank => 0,
        Mode::VBlank => 1,
        Mode::OAM => 2,
        Mode::VRAM => 3,
        Mode::Off => 0,
    }
}

/// The mode with the given STAT number; any other number is `Off`.
pub open spec fn mode_of_bits(v: u8) -> Mode {
    if v == 0 {
        Mode::HBlank
    } else if v == 1 {
        Mode::VBlank
    } else if v == 2 {
        Mode::OAM
    } else if v == 3 {
        Mode::VRAM
    } else {
        Mode::Off
    }
}

impl Mode {
    /// The mode number in the STAT register.
    pub fn bits(&self) -> (r: u8)
        ensures
            r == mode_bits(*self),
    {
        match self {
            Mode::HBlank => 0,
            Mode::VBlank => 1,
            Mode::OAM => 2,
            Mode::VRAM => 3,
            Mode::Off => 0,
        }
    }
}

impl From<u8> for Mode {
    fn from(v: u8) -> (r: Mode) {
        if v == 0 {
            Mode::HBlank
        } else if v == 1 {
            Mode::VBlank
        } else if v == 2 {
            Mode::OAM
        } else if v == 3 {
            Mode::VRAM
        } else {
            Mode::Off
        }
    }
}

impl vstd::std_specs::convert::FromSpecImpl<u8> for Mode {
    open spec fn obeys_from_spec() -> bool {
        true
    }

    open spec fn from_spec(v: u8) -> Mode {
        mode_of_bits(v)
    }
}

/// A palette entry: one of the four monochrome shades, or a 15-bit color.
#[derive(Clone, Copy, Debug, PartialEq, Eq, Structural)]
pub enum Color {
    White,
    LightGray,
    DarkGray,
    Black,
    Rgb(u8, u8, u8),
}

/// The shade with the given 2-bit number.
pub open spec fn shade(v: u8) -> Color {
    if v == 0 {
        Color::White
    } else if v == 1 {
        Color::LightGray
    } else if v == 2 {
        Color::DarkGray
    } else {
        Color::Black
    }
}

/// The 2-bit number of a shade.
pub open spec fn shade_bits(c: Color) -> u8 {
    match c {
        Color::White => 0,
        Color::LightGray => 1,
        Color::DarkGray => 2,
        _ => 3,
    }
}

/// One 5-bit color component scaled to 8 bits: the upper half of the range is pushed to the
/// top.
pub open spec fn color_adjust_spec(v: u8) -> u32 {
    if v >= 0x10 {
        (0xff - (0x1f - v)) as u32
    } else {
        v as u32
    }
}

/// The 0xRRGGBB pixel of a color.
pub open spec fn color_rgb(c: Color) -> u32 {
    match c {
        Color::White => 0xdddddd,
        Color::LightGray => 0xaaaaaa,
        Color::DarkGray => 0x888888,
        Color::Black => 0x555555,
        Color::Rgb(r, g, b) => (color_adjust_spec(r) << 16u32) | (color_adjust_spec(g) << 8u32)
            | color_adjust_spec(b),
    }
}

/// Scales one color component to 8 bits.
pub fn color_adjust(v: u8) -> (r: u32)
    requires
        v <= 0x1f,
    ensures
        r == color_adjust_spec(v),
{
    let v = v as u32;
    if v >= 0x10 {
        0xff - (0x1f - v)
    } else {
        v
    }
}

impl Color {
    /// A black color entry of the color palettes.
    pub fn rgb() -> (r: Self)
        ensures
            r == Color::Rgb(0, 0, 0),
    {
        Color::Rgb(0, 0, 0)
    }

    /// A shade from its 2-bit number.
    pub fn from_bits(v: u8) -> (r: Self)
        requires
            v < 4,
        ensures
            r == shade(v),
    {
        if v == 0 {
            Color::White
        } else if v == 1 {
            Color::LightGray
        } else if v == 2 {
            Color::DarkGray
        } else {
            Color::Black
        }
    }

    /// The 2-bit number of a shade.
    pub fn bits(&self) -> (r: u8)
        requires
            !(*self is Rgb),
        ensures
            r == shade_bits(*self),
            r < 4,
    {
        match *self {
            Color::White => 0,
            Color::LightGray => 1,
            Color::DarkGray => 2,
            _ => 3,
        }
    }

    /// The pixel value of the color.
    pub fn to_rgb(&self) -> (r: u32)
        requires
            *self matches Color::Rgb(r, g, b) ==> r <= 0x1f && g <= 0x1f && b <= 0x1f,
        ensures
            r == color_rgb(*self),
    {
        match *self {
            Color::White => 0xdddddd,
            Color::LightGray => 0xaaaaaa,
            Color::DarkGray => 0x888888,
            Color::Black => 0x555555,
            Color::Rgb(r, g, b) => {
                let mut c: u32 = 0;
                c = c | color_adjust(r) << 16u32;
                c = c | color_adjust(g) << 8u32;
                c = c | color_adjust(b);
                proof {
                    let (x, y, z) = (color_adjust_spec(r), color_adjust_spec(g), color_adjust_spec(b));
                    assert(((0u32 | (x << 16u32)) | (y << 8u32)) | z == ((x << 16u32) | (y << 8u32))
                        | z) by (bit_vector);
                }
                c
            },
        }
    }

    /// Writes the low byte of a color: red, and the low bits of green.
    pub fn set_low(&mut self, low: u8)
        requires
            *old(self) is Rgb,
        ensures
            *final(self) == Color::Rgb(
                low & 0x1f,
                (old(self)->1 & !0x7u8) | (low >> 5u8),
                old(self)->2,
            ),
    {
        match *self {
            Color::Rgb(_, g, b) => {
                let nr = low & 0x1f;
                let ng = g & !0x7 | low >> 5u8;
                *self = Color::Rgb(nr, ng, b);
            },
            _ => {},
        }
    }

    /// Writes the high byte of a color: blue, and the high bits of green.
    pub fn set_high(&mut self, high: u8)
        requires
            *old(self) is Rgb,
        ensures
            *final(self) == Color::Rgb(
                old(self)->0,
                (old(self)->1 & !0x18u8) | ((high & 0x3) << 3u8),
                (high >> 2u8) & 0x1f,
            ),
    {
        match *self {
            Color::Rgb(r, g, _) => {
                let ng = g & !0x18 | (high & 0x3) << 3u8;
                let nb = (high >> 2u8) & 0x1f;
                *self = Color::Rgb(r, ng, nb);
            },
            _ => {},
        }
    }

    /// Reads the low byte of a color.
    pub fn get_low(&self) -> (r: u8)
        requires
            *self is Rgb,
        ensures
            r == (self->0 & 0x1f) | ((self->1 & 0x7) << 5u8),
    {
        match *self {
            Color::Rgb(r, g, _) => (r & 0x1f) | (g & 0x7) << 5u8,
            _ => 0,
        }
    }

    /// Reads the high byte of a color.
    pub fn get_high(&self) -> (r: u8)
        requires
            *self is Rgb,
        ensures
            r == ((self->1 >> 3u8) & 0x3) | ((self->2 & 0x1f) << 2u8),
    {
        match *self {
            Color::Rgb(_, g, b) => ((g >> 3u8) & 0x3) | (b & 0x1f) << 2u8,
            _ => 0,
        }
    }
}

/// The four shades a monochrome palette register selects, lowest bits first.
pub open spec fn palette_spec(p: u8) -> Seq<Color> {
    seq![shade(p & 0x3), shade((p >> 2u8) & 0x3), shade((p >> 4u8) & 0x3), shade((p >> 6u8) & 0x3)]
}

/// Whether `p` is a monochrome palette: four shades.
pub open spec fn mono_palette(p: Seq<Color>) -> bool {
    p.len() == 4 && forall|i: int| 0 <= i < 4 ==> !(#[trigger] p[i] is Rgb)
}

/// Decodes a monochrome palette register.
pub fn to_palette(p: u8) -> (r: Vec<Color>)
    ensures
        r@ == palette_spec(p),
        mono_palette(r@),
{
    proof {
        crate::bits::lemma_byte_fields(p);
    }
    let r = vec![
        Color::from_bits(p & 0x3),
        Color::from_bits((p >> 2u8) & 0x3),
        Color::from_bits((p >> 4u8) & 0x3),
        Color::from_bits((p >> 6u8) & 0x3),
    ];
    assert(r@ =~= palette_spec(p));
    r
}

/// Encodes a monochrome palette register.
pub fn from_palette(p: &Vec<Color>) -> (r: u8)
    requires
        mono_palette(p@),
    ensures
        r == shade_bits(p@[0]) | (shade_bits(p@[1]) << 2u8) | (shade_bits(p@[2]) << 4u8) | (
        shade_bits(p@[3]) << 6u8),
{
    p[0].bits() | p[1].bits() << 2u8 | p[2].bits() << 4u8 | p[3].bits() << 6u8
}

/// Decoding a palette register and encoding it again gives the register back.
pub proof fn lemma_palette_roundtrip(p: u8)
    ensures
        mono_palette(palette_spec(p)),
        ({
            let s = palette_spec(p);
            shade_bits(s[0]) | (shade_bits(s[1]) << 2u8) | (shade_bits(s[2]) << 4u8) | (
            shade_bits(s[3]) << 6u8) == p
        }),
{
    let a = p & 0x3;
    let b = (p >> 2u8) & 0x3;
    let c = (p >> 4u8) & 0x3;
    let d = (p >> 6u8) & 0x3;
    crate::bits::lemma_byte_fields(p);
    assert(shade_bits(shade(a)) == a);
    assert(shade_bits(shade(b)) == b);
    assert(shade_bits(shade(c)) == c);
    assert(shade_bits(shade(d)) == d);
    assert(a | (b << 2u8) | (c << 4u8) | (d << 6u8) == p) by (bit_vector)
        requires
            a == p & 0x3,
            b == (p >> 2u8) & 0x3,
            c == (p >> 4u8) & 0x3,
            d == (p >> 6u8) & 0x3,
    ;
}

/// The abstract state of a [`ColorPalette`]: eight palettes of four colors, flat, and the
/// selected byte.
pub struct ColorPaletteView {
    pub cols: Seq<Color>,
    pub index: nat,
    pub auto_inc: bool,
}

/// A color with 5-bit components.
pub open spec fn rgb15(c: Color) -> bool {
    c matches Color::Rgb(r, g, b) && r <= 0x1f && g <= 0x1f && b <= 0x1f
}

pub open spec fn color_palette_wf(v: ColorPaletteView) -> bool {
    &&& v.cols.len() == 32
    &&& v.index < 0x40
    &&& forall|i: int| 0 <= i < 32 ==> rgb15(#[trigger] v.cols[i])
}

/// The color entry that palette byte `index` belongs to.
pub open spec fn color_entry(index: nat) -> int {
    ((index / 8) * 4 + (index % 8) / 2) as int
}

/// The palette byte the data register reads: the low or the high byte of a color.
pub open spec fn color_palette_read_spec(v: ColorPaletteView) -> u8 {
    let c = v.cols[color_entry(v.index)];
    if (v.index % 8) % 2 == 0 {
        (c->0 & 0x1f) | ((c->1 & 0x7) << 5u8)
    } else {
        ((c->1 >> 3u8) & 0x3) | ((c->2 & 0x1f) << 2u8)
    }
}

/// The palettes after a write of the data register: one byte of one color changes, and the
/// index moves on when auto-increment is set.
pub open spec fn color_palette_write_spec(v: ColorPaletteView, value: u8) -> ColorPaletteView {
    let i = color_entry(v.index);
    let c = v.cols[i];
    let nc = if (v.index % 8) % 2 == 0 {
        Color::Rgb(value & 0x1f, (c->1 & !0x7u8) | (value >> 5u8), c->2)
    } else {
        Color::Rgb(c->0, (c->1 & !0x18u8) | ((value & 0x3) << 3u8), (value >> 2u8) & 0x1f)
    };
    ColorPaletteView {
        cols: v.cols.update(i, nc),
        index: if v.auto_inc {
            (v.index + 1) % 0x40
        } else {
            v.index
        },
        ..v
    }
}

/// Writing either byte of a color keeps its components within 5 bits.
proof fn lemma_color_byte_fields(g: u8, value: u8)
    by (bit_vector)
    ensures
        g <= 0x1f ==> (g & !0x7u8) | (value >> 5u8) <= 0x1f,
        g <= 0x1f ==> (g & !0x18u8) | ((value & 0x3) << 3u8) <= 0x1f,
        value & 0x1f <= 0x1f,
        (value >> 2u8) & 0x1f <= 0x1f,
{
}

/// The color palettes of the Game Boy Color, reached through an index and a data register.
pub struct ColorPalette {
    cols: Vec<Color>,
    index: usize,
    auto_inc: bool,
}

impl View for ColorPalette {
    type V = ColorPaletteView;

    closed spec fn view(&self) -> ColorPaletteView {
        ColorPaletteView { cols: self.cols@, index: self.index as nat, auto_inc: self.auto_inc }
    }
}

impl ColorPalette {
    pub fn new() -> (r: Self)
        ensures
            color_palette_wf(r@),
            r@.cols == Seq::new(32, |i: int| Color::Rgb(0, 0, 0)),
            r@.index == 0,
            !r@.auto_inc,
    {
        let r = Self { cols: vec![Color::rgb(); 32], index: 0, auto_inc: false };
        assert(r@.cols =~= Seq::new(32, |i: int| Color::Rgb(0, 0, 0)));
        r
    }

    /// Writes the index register: bit 7 sets auto-increment, bits 0-5 select the byte.
    pub fn select(&mut self, value: u8)
        requires
            color_palette_wf(old(self)@),
        ensures
            color_palette_wf(final(self)@),
            final(self)@ == (ColorPaletteView {
                auto_inc: value & 0x80 != 0,
                index: ((value as usize) & 0x3f) as nat,
                ..old(self)@
            }),
    {
        self.auto_inc = value & 0x80 != 0;
        let v = value as usize;
        proof {
            crate::bits::lemma_wide_byte_fields(v);
        }
        self.index = v & 0x3f;
    }

    /// Reads the data register.
    pub fn read(&self) -> (r: u8)
        requires
            color_palette_wf(self@),
        ensures
            r == color_palette_read_spec(self@),
    {
        let idx = self.index / 8;
        let off = self.index % 8;
        if off % 2 == 0 {
            self.cols[idx * 4 + off / 2].get_low()
        } else {
            self.cols[idx * 4 + off / 2].get_high()
        }
    }

    /// Writes the data register.
    pub fn write(&mut self, value: u8)
        requires
            color_palette_wf(old(self)@),
        ensures
            color_palette_wf(final(self)@),
            final(self)@ == color_palette_write_spec(old(self)@, value),
    {
        let idx = self.index / 8;
        let off = self.index % 8;
        let i = idx * 4 + off / 2;
        let mut c = self.cols[i];
        if off % 2 == 0 {
            c.set_low(value);
        } else {
            c.set_high(value);
        }
        proof {
            let g = old(self)@.cols[i as int]->1;
            lemma_color_byte_fields(g, value);
        }
        self.cols.set(i, c);
        if self.auto_inc {
            self.index = (self.index + 1) % 0x40;
        }
    }

    /// The color palette `n` (0 to 7) holds as its color `i` (0 to 3).
    pub fn color(&self, n: usize, i: usize) -> (r: Color)
        requires
            color_palette_wf(self@),
            n < 8,
            i < 4,
        ensures
            r == self@.cols[n * 4 + i],
    {
        self.cols[n * 4 + i]
    }
}

/// The registers of the general-purpose DMA of the Game Boy Color, which this device does not
/// start.
#[derive(Clone, Copy)]
pub struct Hdma {
    pub on: bool,
    pub src_low: u8,
    pub src_high: u8,
    pub dst_low: u8,
    pub dst_high: u8,
    pub src_wip: u16,
    pub dst_wip: u16,
    pub len: u8,
    pub hblank: bool,
}

impl Hdma {
    pub fn new() -> (r: Self)
        ensures
            r == (Hdma {
                on: false,
                src_low: 0,
                src_high: 0,
                dst_low: 0,
                dst_high: 0,
                src_wip: 0,
                dst_wip: 0,
                len: 0,
                hblank: false,
            }),
    {
        Self {
            on: false,
            src_low: 0,
            src_high: 0,
            dst_low: 0,
            dst_high: 0,
            src_wip: 0,
            dst_wip: 0,
            len: 0,
            hblank: false,
        }
    }
}

/// The abstract state of a [`Gpu`].
pub struct GpuView {
    pub clocks: usize,
    pub lyc_interrupt: bool,
    pub oam_interrupt: bool,
    pub vblank_interrupt: bool,
    pub hblank_interrupt: bool,
    pub mode: Mode,
    pub ly: u8,
    pub lyc: u8,
    pub scy: u8,
    pub scx: u8,
    pub wx: u8,
    pub wy: u8,
    pub enable: bool,
    pub winmap: u16,
    pub winenable: bool,
    pub tiles: u16,
    pub bgmap: u16,
    pub spsize: u16,
    pub spenable: bool,
    pub bgenable: bool,
    pub bg_palette: Seq<Color>,
    pub obj_palette0: Seq<Color>,
    pub obj_palette1: Seq<Color>,
    pub bg_color_palette: ColorPaletteView,
    pub obj_color_palette: ColorPaletteView,
    pub vram: Seq<u8>,
    pub vram_select: usize,
    pub hdma: Hdma,
}

/// The invariant of the LCD controller: palettes of four shades, both video RAM banks, the
/// line counter and the mode clock in range, and the control fields on their two settings.
pub open spec fn gpu_wf(g: GpuView) -> bool {
    &&& mono_palette(g.bg_palette)
    &&& mono_palette(g.obj_palette0)
    &&& mono_palette(g.obj_palette1)
    &&& color_palette_wf(g.bg_color_palette)
    &&& color_palette_wf(g.obj_color_palette)
    &&& g.vram.len() == 0x4000
    &&& g.vram_select < 2
    &&& g.clocks < 456
    &&& (g.winmap == 0x9800 || g.winmap == 0x9c00)
    &&& (g.bgmap == 0x9800 || g.bgmap == 0x9c00)
    &&& (g.tiles == 0x8000 || g.tiles == 0x8800)
    &&& (g.spsize == 8 || g.spsize == 16)
}

/// The byte at `addr` (0x8000-0x9fff) of video RAM bank `bank`.
pub open spec fn vram_at(g: GpuView, addr: int, bank: int) -> u8 {
    g.vram[bank * 0x2000 + addr - 0x8000]
}

/// The LCDC value the fields encode.
pub open spec fn ctrl_spec(g: GpuView) -> u8 {
    (if g.enable { 0x80u8 } else { 0u8 }) | (if g.winmap == 0x9c00 { 0x40u8 } else { 0u8 }) | (
    if g.winenable { 0x20u8 } else { 0u8 }) | (if g.tiles == 0x8000 { 0x10u8 } else { 0u8 }) | (
    if g.bgmap == 0x9c00 { 0x08u8 } else { 0u8 }) | (if g.spsize == 16 { 0x04u8 } else { 0u8 })
        | (if g.spenable { 0x02u8 } else { 0u8 }) | (if g.bgenable { 0x01u8 } else { 0u8 })
}

/// The STAT value: the interrupt selections, the LY=LYC coincidence and the mode.
pub open spec fn status_spec(g: GpuView) -> u8 {
    (if g.lyc_interrupt { 0x40u8 } else { 0u8 }) | (if g.oam_interrupt { 0x20u8 } else { 0u8 })
        | (if g.vblank_interrupt { 0x10u8 } else { 0u8 }) | (if g.hblank_interrupt {
        0x08u8
    } else {
        0u8
    }) | (if g.ly == g.lyc { 0x04u8 } else { 0u8 }) | mode_bits(g.mode)
}

/// The state after an LCDC write. Switching the LCD on restarts it in H-blank; switching it
/// on or off clears a pending V-blank request.
pub open spec fn ctrl_write_spec(g: GpuView, irq: Irq, value: u8) -> (GpuView, Irq) {
    let g1 = GpuView {
        enable: value & 0x80 != 0,
        winmap: if value & 0x40 != 0 { 0x9c00 } else { 0x9800 },
        winenable: value & 0x20 != 0,
        tiles: if value & 0x10 != 0 { 0x8000 } else { 0x8800 },
        bgmap: if value & 0x08 != 0 { 0x9c00 } else { 0x9800 },
        spsize: if value & 0x04 != 0 { 16 } else { 8 },
        spenable: value & 0x02 != 0,
        bgenable: value & 0x01 != 0,
        ..g
    };
    if !g.enable && g1.enable {
        (
            GpuView { clocks: 0, mode: Mode::HBlank, ..g1 },
            Irq { request: Ints { vblank: false, ..irq.request }, ..irq },
        )
    } else if g.enable && !g1.enable {
        (GpuView { mode: Mode::Off, ..g1 }, Irq { request: Ints { vblank: false, ..irq.request }, ..irq })
    } else {
        (g1, irq)
    }
}

/// What a read of a register or of video RAM answers.
pub open spec fn gpu_read_spec(g: GpuView, addr: u16) -> MemRead {
    if 0x8000 <= addr <= 0x9fff {
        MemRead::Replace(vram_at(g, addr as int, g.vram_select as int))
    } else if addr == 0xff40 {
        MemRead::Replace(ctrl_spec(g))
    } else if addr == 0xff41 {
        MemRead::Replace(status_spec(g))
    } else if addr == 0xff42 {
        MemRead::Replace(g.scy)
    } else if addr == 0xff43 {
        MemRead::Replace(g.scx)
    } else if addr == 0xff44 {
        MemRead::Replace(g.ly)
    } else if addr == 0xff45 {
        MemRead::Replace(g.lyc)
    } else if addr == 0xff47 {
        MemRead::Replace(palette_bits(g.bg_palette))
    } else if addr == 0xff48 {
        MemRead::Replace(palette_bits(g.obj_palette0))
    } else if addr == 0xff49 {
        MemRead::Replace(palette_bits(g.obj_palette1))
    } else if addr == 0xff4a {
        MemRead::Replace(g.wy)
    } else if addr == 0xff4b {
        MemRead::Replace(g.wx)
    } else if addr == 0xff4f {
        MemRead::Replace((g.vram_select as u8) & 0xfe)
    } else if addr == 0xff51 {
        MemRead::Replace(g.hdma.src_high)
    } else if addr == 0xff52 {
        MemRead::Replace(g.hdma.src_low)
    } else if addr == 0xff53 {
        MemRead::Replace(g.hdma.dst_high)
    } else if addr == 0xff54 {
        MemRead::Replace(g.hdma.dst_low)
    } else if addr == 0xff55 {
        MemRead::Replace((g.hdma.len & 0x7f) | (if g.hdma.hblank { 0x80u8 } else { 0u8 }))
    } else if addr == 0xff68 || addr == 0xff6a {
        MemRead::PassThrough
    } else if addr == 0xff69 {
        MemRead::Replace(color_palette_read_spec(g.bg_color_palette))
    } else if addr == 0xff6b {
        MemRead::Replace(color_palette_read_spec(g.obj_color_palette))
    } else {
        MemRead::Replace(0)
    }
}

/// The register a monochrome palette encodes.
pub open spec fn palette_bits(p: Seq<Color>) -> u8 {
    shade_bits(p[0]) | (shade_bits(p[1]) << 2u8) | (shade_bits(p[2]) << 4u8) | (shade_bits(p[3])
        << 6u8)
}

/// The state after a write of a register or of video RAM; unknown registers ignore writes.
pub open spec fn gpu_write_spec(g: GpuView, irq: Irq, addr: u16, value: u8) -> (GpuView, Irq) {
    if 0x8000 <= addr <= 0x9fff {
        (
            GpuView {
                vram: g.vram.update(g.vram_select * 0x2000 + addr - 0x8000, value),
                ..g
            },
            irq,
        )
    } else if addr == 0xff40 {
        ctrl_write_spec(g, irq, value)
    } else if addr == 0xff41 {
        (
            GpuView {
                lyc_interrupt: value & 0x40 != 0,
                oam_interrupt: value & 0x20 != 0,
                vblank_interrupt: value & 0x10 != 0,
                hblank_interrupt: value & 0x08 != 0,
                ..g
            },
            irq,
        )
    } else if addr == 0xff42 {
        (GpuView { scy: value, ..g }, irq)
    } else if addr == 0xff43 {
        (GpuView { scx: value, ..g }, irq)
    } else if addr == 0xff44 {
        (GpuView { ly: 0, ..g }, irq)
    } else if addr == 0xff45 {
        (GpuView { lyc: value, ..g }, irq)
    } else if addr == 0xff47 {
        (GpuView { bg_palette: palette_spec(value), ..g }, irq)
    } else if addr == 0xff48 {
        (GpuView { obj_palette0: palette_spec(value), ..g }, irq)
    } else if addr == 0xff49 {
        (GpuView { obj_palette1: palette_spec(value), ..g }, irq)
    } else if addr == 0xff4a {
        (GpuView { wy: value, ..g }, irq)
    } else if addr == 0xff4b {
        (GpuView { wx: value, ..g }, irq)
    } else if addr == 0xff4f {
        (GpuView { vram_select: (value as usize) & 1, ..g }, irq)
    } else if addr == 0xff51 {
        (GpuView { hdma: Hdma { src_high: value, ..g.hdma }, ..g }, irq)
    } else if addr == 0xff52 {
        (GpuView { hdma: Hdma { src_low: value, ..g.hdma }, ..g }, irq)
    } else if addr == 0xff53 {
        (GpuView { hdma: Hdma { dst_high: value, ..g.hdma }, ..g }, irq)
    } else if addr == 0xff54 {
        (GpuView { hdma: Hdma { dst_low: value, ..g.hdma }, ..g }, irq)
    } else if addr == 0xff68 {
        (
            GpuView {
                bg_color_palette: ColorPaletteView {
                    auto_inc: value & 0x80 != 0,
                    index: ((value as usize) & 0x3f) as nat,
                    ..g.bg_color_palette
                },
                ..g
            },
            irq,
        )
    } else if addr == 0xff69 {
        (GpuView { bg_color_palette: color_palette_write_spec(g.bg_color_palette, value), ..g }, irq)
    } else if addr == 0xff6a {
        (
            GpuView {
                obj_color_palette: ColorPaletteView {
                    auto_inc: value & 0x80 != 0,
                    index: ((value as usize) & 0x3f) as nat,
                    ..g.obj_color_palette
                },
                ..g
            },
            irq,
        )
    } else if addr == 0xff6b {
        (GpuView { obj_color_palette: color_palette_write_spec(g.obj_color_palette, value), ..g }, irq)
    } else {
        (g, irq)
    }
}

/// The LCD controller: registers, video RAM and palettes, and the mode clock.
pub struct Gpu {
    clocks: usize,
    lyc_interrupt: bool,
    oam_interrupt: bool,
    vblank_interrupt: bool,
    hblank_interrupt: bool,
    mode: Mode,
    ly: u8,
    lyc: u8,
    scy: u8,
    scx: u8,
    wx: u8,
    wy: u8,
    enable: bool,
    winmap: u16,
    winenable: bool,
    tiles: u16,
    bgmap: u16,
    spsize: u16,
    spenable: bool,
    bgenable: bool,
    bg_palette: Vec<Color>,
    obj_palette0: Vec<Color>,
    obj_palette1: Vec<Color>,
    bg_color_palette: ColorPalette,
    obj_color_palette: ColorPalette,
    vram: Vec<u8>,
    vram_select: usize,
    hdma: Hdma,
}

impl View for Gpu {
    type V = GpuView;

    closed spec fn view(&self) -> GpuView {
        GpuView {
            clocks: self.clocks,
            lyc_interrupt: self.lyc_interrupt,
            oam_interrupt: self.oam_interrupt,
            vblank_interrupt: self.vblank_interrupt,
            hblank_interrupt: self.hblank_interrupt,
            mode: self.mode,
            ly: self.ly,
            lyc: self.lyc,
            scy: self.scy,
            scx: self.scx,
            wx: self.wx,
            wy: self.wy,
            enable: self.enable,
            winmap: self.winmap,
            winenable: self.winenable,
            tiles: self.tiles,
            bgmap: self.bgmap,
            spsize: self.spsize,
            spenable: self.spenable,
            bgenable: self.bgenable,
            bg_palette: self.bg_palette@,
            obj_palette0: self.obj_palette0@,
            obj_palette1: self.obj_palette1@,
            bg_color_palette: self.bg_color_palette@,
            obj_color_palette: self.obj_color_palette@,
            vram: self.vram@,
            vram_select: self.vram_select,
            hdma: self.hdma,
        }
    }
}

impl Gpu {
    pub fn new() -> (r: Self)
        ensures
            gpu_wf(r@),
            r@.mode == Mode::Off && r@.clocks == 0 && r@.ly == 0 && r@.lyc == 0,
            !r@.enable && !r@.winenable && !r@.spenable && !r@.bgenable,
            r@.winmap == 0x9800 && r@.bgmap == 0x9800 && r@.tiles == 0x8800 && r@.spsize == 8,
            r@.scx == 0 && r@.scy == 0 && r@.wx == 0 && r@.wy == 0,
            !r@.lyc_interrupt && !r@.oam_interrupt && !r@.vblank_interrupt && !r@.hblank_interrupt,
            r@.bg_palette == palette_spec(0xe4),
            r@.obj_palette0 == palette_spec(0xe4),
            r@.obj_palette1 == palette_spec(0xe4),
            r@.vram == Seq::new(0x4000, |i: int| 0u8),
            r@.vram_select == 0,
    {
        let g = Self {
            clocks: 0,
            lyc_interrupt: false,
            oam_interrupt: false,
            vblank_interrupt: false,
            hblank_interrupt: false,
            mode: Mode::Off,
            ly: 0,
            lyc: 0,
            scy: 0,
            scx: 0,
            wx: 0,
            wy: 0,
            enable: false,
            winmap: 0x9800,
            winenable: false,
            tiles: 0x8800,
            bgmap: 0x9800,
            spsize: 8,
            spenable: false,
            bgenable: false,
            bg_palette: vec![Color::White, Color::LightGray, Color::DarkGray, Color::Black],
            obj_palette0: vec![Color::White, Color::LightGray, Color::DarkGray, Color::Black],
            obj_palette1: vec![Color::White, Color::LightGray, Color::DarkGray, Color::Black],
            bg_color_palette: ColorPalette::new(),
            obj_color_palette: ColorPalette::new(),
            vram: vec![0; 0x4000],
            vram_select: 0,
            hdma: Hdma::new(),
        };
        assert(g.vram@ =~= Seq::new(0x4000, |i: int| 0u8));
        let p: u8 = 0xe4;
        assert(p & 0x3 == 0 && (p >> 2u8) & 0x3 == 1 && (p >> 4u8) & 0x3 == 2 && (p >> 6u8) & 0x3 == 3)
            by (bit_vector)
            requires
                p == 0xe4,
        ;
        assert(g.bg_palette@ =~= palette_spec(0xe4));
        assert(g.obj_palette0@ =~= palette_spec(0xe4));
        assert(g.obj_palette1@ =~= palette_spec(0xe4));
        g
    }

    fn read_vram(&self, addr: u16, bank: usize) -> (r: u8)
        requires
            gpu_wf(self@),
            0x8000 <= addr <= 0x9fff,
            bank < 2,
        ensures
            r == vram_at(self@, addr as int, bank as int),
    {
        let off = addr as usize - 0x8000;
        self.vram[bank * 0x2000 + off]
    }

    fn write_vram(&mut self, addr: u16, value: u8, bank: usize)
        requires
            gpu_wf(old(self)@),
            0x8000 <= addr <= 0x9fff,
            bank < 2,
        ensures
            final(self)@ == (GpuView {
                vram: old(self)@.vram.update(bank * 0x2000 + addr - 0x8000, value),
                ..old(self)@
            }),
    {
        let off = addr as usize - 0x8000;
        self.vram.set(bank * 0x2000 + off, value);
    }

    fn on_write_ctrl(&mut self, value: u8, irq: &mut Irq)
        requires
            gpu_wf(old(self)@),
        ensures
            gpu_wf(final(self)@),
            (final(self)@, *final(irq)) == ctrl_write_spec(old(self)@, *old(irq), value),
    {
        let old_enable = self.enable;
        self.enable = value & 0x80 != 0;
        self.winmap = if value & 0x40 != 0 {
            0x9c00
        } else {
            0x9800
        };
        self.winenable = value & 0x20 != 0;
        self.tiles = if value & 0x10 != 0 {
            0x8000
        } else {
            0x8800
        };
        self.bgmap = if value & 0x08 != 0 {
            0x9c00
        } else {
            0x9800
        };
        self.spsize = if value & 0x04 != 0 {
            16
        } else {
            8
        };
        self.spenable = value & 0x02 != 0;
        self.bgenable = value & 0x01 != 0;
        if !old_enable && self.enable {
            self.clocks = 0;
            self.mode = Mode::HBlank;
            irq.vblank(false);
        } else if old_enable && !self.enable {
            self.mode = Mode::Off;
            irq.vblank(false);
        }
    }

    fn on_write_status(&mut self, value: u8)
        ensures
            final(self)@ == (GpuView {
                lyc_interrupt: value & 0x40 != 0,
                oam_interrupt: value & 0x20 != 0,
                vblank_interrupt: value & 0x10 != 0,
                hblank_interrupt: value & 0x08 != 0,
                ..old(self)@
            }),
    {
        self.lyc_interrupt = value & 0x40 != 0;
        self.oam_interrupt = value & 0x20 != 0;
        self.vblank_interrupt = value & 0x10 != 0;
        self.hblank_interrupt = value & 0x08 != 0;
    }

    fn on_read_ctrl(&self) -> (r: u8)
        ensures
            r == ctrl_spec(self@),
    {
        let mut v: u8 = 0;
        v = v | if self.enable { 0x80u8 } else { 0x00u8 };
        v = v | if self.winmap == 0x9c00 { 0x40u8 } else { 0x00u8 };
        v = v | if self.winenable { 0x20u8 } else { 0x00u8 };
        v = v | if self.tiles == 0x8000 { 0x10u8 } else { 0x00u8 };
        v = v | if self.bgmap == 0x9c00 { 0x08u8 } else { 0x00u8 };
        v = v | if self.spsize == 16 { 0x04u8 } else { 0x00u8 };
        v = v | if self.spenable { 0x02u8 } else { 0x00u8 };
        v = v | if self.bgenable { 0x01u8 } else { 0x00u8 };
        proof {
            let (a, b, c, d, e, f, g, h) = (
                if self.enable { 0x80u8 } else { 0u8 },
                if self.winmap == 0x9c00 { 0x40u8 } else { 0u8 },
                if self.winenable { 0x20u8 } else { 0u8 },
                if self.tiles == 0x8000 { 0x10u8 } else { 0u8 },
                if self.bgmap == 0x9c00 { 0x08u8 } else { 0u8 },
                if self.spsize == 16 { 0x04u8 } else { 0u8 },
                if self.spenable { 0x02u8 } else { 0u8 },
                if self.bgenable { 0x01u8 } else { 0u8 },
            );
            assert((((((((0u8 | a) | b) | c) | d) | e) | f) | g) | h == a | b | c | d | e | f | g
                | h) by (bit_vector);
        }
        v
    }

    fn on_read_status(&self) -> (r: u8)
        ensures
            r == status_spec(self@),
    {
        let mut v: u8 = 0;
        v = v | if self.lyc_interrupt { 0x40u8 } else { 0x00u8 };
        v = v | if self.oam_interrupt { 0x20u8 } else { 0x00u8 };
        v = v | if self.vblank_interrupt { 0x10u8 } else { 0x00u8 };
        v = v | if self.hblank_interrupt { 0x08u8 } else { 0x00u8 };
        v = v | if self.ly == self.lyc { 0x04u8 } else { 0x00u8 };
        let p: u8 = self.mode.bits();
        v = v | p;
        proof {
            let (a, b, c, d, e, f) = (
                if self.lyc_interrupt { 0x40u8 } else { 0u8 },
                if self.oam_interrupt { 0x20u8 } else { 0u8 },
                if self.vblank_interrupt { 0x10u8 } else { 0u8 },
                if self.hblank_interrupt { 0x08u8 } else { 0u8 },
                if self.ly == self.lyc { 0x04u8 } else { 0u8 },
                mode_bits(self.mode),
            );
            assert((((((0u8 | a) | b) | c) | d) | e) | f == a | b | c | d | e | f) by (bit_vector);
        }
        v
    }

    /// The line being drawn (LY).
    pub fn current_line(&self) -> (r: u8)
        ensures
            r == self@.ly,
    {
        self.ly
    }

    /// Reads a register or video RAM.
    pub fn on_read(&self, addr: u16) -> (r: MemRead)
        requires
            gpu_wf(self@),
            addr != 0xff46,
        ensures
            r == gpu_read_spec(self@, addr),
    {
        if addr >= 0x8000 && addr <= 0x9fff {
            MemRead::Replace(self.read_vram(addr, self.vram_select))
        } else if addr == 0xff40 {
            MemRead::Replace(self.on_read_ctrl())
        } else if addr == 0xff41 {
            MemRead::Replace(self.on_read_status())
        } else if addr == 0xff42 {
            MemRead::Replace(self.scy)
        } else if addr == 0xff43 {
            MemRead::Replace(self.scx)
        } else if addr == 0xff44 {
            MemRead::Replace(self.ly)
        } else if addr == 0xff45 {
            MemRead::Replace(self.lyc)
        } else if addr == 0xff47 {
            MemRead::Replace(from_palette(&self.bg_palette))
        } else if addr == 0xff48 {
            MemRead::Replace(from_palette(&self.obj_palette0))
        } else if addr == 0xff49 {
            MemRead::Replace(from_palette(&self.obj_palette1))
        } else if addr == 0xff4a {
            MemRead::Replace(self.wy)
        } else if addr == 0xff4b {
            MemRead::Replace(self.wx)
        } else if addr == 0xff4f {
            MemRead::Replace(self.vram_select as u8 & 0xfe)
        } else if addr == 0xff51 {
            MemRead::Replace(self.hdma.src_high)
        } else if addr == 0xff52 {
            MemRead::Replace(self.hdma.src_low)
        } else if addr == 0xff53 {
            MemRead::Replace(self.hdma.dst_high)
        } else if addr == 0xff54 {
            MemRead::Replace(self.hdma.dst_low)
        } else if addr == 0xff55 {
            let mut v: u8 = 0;
            v = v | (self.hdma.len & 0x7f);
            v = v | if self.hdma.hblank { 0x80u8 } else { 0x00u8 };
            proof {
                let (a, b) = (self.hdma.len & 0x7f, if self.hdma.hblank { 0x80u8 } else { 0u8 });
                assert((0u8 | a) | b == a | b) by (bit_vector);
            }
            MemRead::Replace(v)
        } else if addr == 0xff68 {
            MemRead::PassThrough
        } else if addr == 0xff69 {
            MemRead::Replace(self.bg_color_palette.read())
        } else if addr == 0xff6a {
            MemRead::PassThrough
        } else if addr == 0xff6b {
            MemRead::Replace(self.obj_color_palette.read())
        } else {
            MemRead::Replace(0)
        }
    }

    /// Writes a register or video RAM. A DMA request (0xff46) and a general-purpose DMA start
    /// (0xff55) are not handled here.
    #[verifier::rlimit(40)]
    pub fn on_write(&mut self, addr: u16, value: u8, irq: &mut Irq)
        requires
            gpu_wf(old(self)@),
            addr != 0xff46,
            addr != 0xff55,
        ensures
            gpu_wf(final(self)@),
            (final(self)@, *final(irq)) == gpu_write_spec(old(self)@, *old(irq), addr, value),
    {
        if addr >= 0x8000 && addr <= 0x9fff {
            self.write_vram(addr, value, self.vram_select);
        } else if addr == 0xff40 {
            self.on_write_ctrl(value, irq);
        } else if addr == 0xff41 {
            self.on_write_status(value);
        } else if addr == 0xff42 {
            self.scy = value;
        } else if addr == 0xff43 {
            self.scx = value;
        } else if addr == 0xff44 {
            self.ly = 0;
        } else if addr == 0xff45 {
            self.lyc = value;
        } else if addr == 0xff47 {
            self.bg_palette = to_palette(value);
        } else if addr == 0xff48 {
            self.obj_palette0 = to_palette(value);
        } else if addr == 0xff49 {
            self.obj_palette1 = to_palette(value);
        } else if addr == 0xff4a {
            self.wy = value;
        } else if addr == 0xff4b {
            self.wx = value;
        } else if addr == 0xff4f {
            let v = value as usize;
            proof {
                crate::bits::lemma_wide_byte_fields(v);
            }
            self.vram_select = v & 1;
        } else if addr == 0xff51 {
            self.hdma.src_high = value;
        } else if addr == 0xff52 {
            self.hdma.src_low = value;
        } else if addr == 0xff53 {
            self.hdma.dst_high = value;
        } else if addr == 0xff54 {
            self.hdma.dst_low = value;
        } else if addr == 0xff68 {
            self.bg_color_palette.select(value);
        } else if addr == 0xff69 {
            self.bg_color_palette.write(value);
        } else if addr == 0xff6a {
            self.obj_color_palette.select(value);
        } else if addr == 0xff6b {
            self.obj_color_palette.write(value);
        }
    }
}

// ---------------------------------------------------------------------------------------------
// Rendering
// ---------------------------------------------------------------------------------------------

/// The address of the tile that map `mapbase` holds at column `tx`, row `ty`: tile numbers
/// count up from 0x8000, or as signed numbers around 0x9000.
pub open spec fn tile_base_spec(g: GpuView, mapbase: u16, tx: int, ty: int) -> int {
    let num = vram_at(g, mapbase + tx + ty * 32, 0);
    if g.tiles == 0x8000 {
        0x8000 + num * 16
    } else {
        0x8800 + 0x800 + (num as i8) * 16
    }
}

/// The 2-bit color number of pixel (`txoff`, `tyoff`) of the tile at `tilebase`: bit
/// `7 - txoff` of the row's low and high bytes.
pub open spec fn tile_byte_spec(g: GpuView, tilebase: int, txoff: int, tyoff: int, bank: int) -> nat {
    let l = vram_at(g, tilebase + tyoff * 2, bank);
    let h = vram_at(g, tilebase + tyoff * 2 + 1, bank);
    let sh = (7 - txoff) as u8;
    (((h >> sh) & 1) * 2 + ((l >> sh) & 1)) as nat
}

/// The background color number at column `x` of the current line (0 with the background off).
pub open spec fn bg_coli(g: GpuView, x: int) -> nat {
    if g.bgenable {
        let yy = (g.ly + g.scy) % 256;
        let xx = (x + g.scx) % 256;
        let tbase = tile_base_spec(g, g.bgmap, xx / 8, yy / 8);
        tile_byte_spec(g, tbase, xx % 8, yy % 8, 0)
    } else {
        0
    }
}

/// Whether the window covers column `x` of the current line.
pub open spec fn win_covers(g: GpuView, x: int) -> bool {
    g.winenable && g.ly >= g.wy && x + 7 >= g.wx
}

/// The window color number at column `x` of the current line, where the window covers it.
pub open spec fn win_coli(g: GpuView, x: int) -> nat {
    let yy = g.ly - g.wy;
    let xx = x + 7 - g.wx;
    let tbase = tile_base_spec(g, g.winmap, xx / 8, yy / 8);
    tile_byte_spec(g, tbase, xx % 8, yy % 8, 0)
}

/// The pixel at column `x` before sprites: the window where it covers, else the background,
/// else 0.
pub open spec fn base_pixel(g: GpuView, x: int) -> u32 {
    if win_covers(g, x) {
        color_rgb(g.bg_palette[win_coli(g, x) as int])
    } else if g.bgenable {
        color_rgb(g.bg_palette[bg_coli(g, x) as int])
    } else {
        0
    }
}

/// The pixel sprite `i` of the attribute table `oam` draws at column `x` of the current
/// line, if any: not where the sprite misses the line or the column, not where its color is 0,
/// and not over a background color 1-3 when its priority bit is set.
pub open spec fn sprite_pixel(g: GpuView, oam: Seq<u8>, i: int, x: int) -> Option<u32> {
    let ypos = oam[i * 4] as int;
    let xpos = oam[i * 4 + 1] as int;
    let ti = oam[i * 4 + 2];
    let attr = oam[i * 4 + 3];
    let ly = g.ly as int;
    if ly + 16 < ypos || ly + 16 - ypos >= g.spsize || x + 8 < xpos || x + 8 - xpos >= 8 {
        None
    } else {
        let tyoff = ly + 16 - ypos;
        let tyoff = if attr & 0x40 != 0 {
            g.spsize - 1 - tyoff
        } else {
            tyoff
        };
        let ti = if g.spsize == 16 {
            if tyoff >= 8 {
                ti | 1
            } else {
                ti & 0xfe
            }
        } else {
            ti
        };
        let txoff = x + 8 - xpos;
        let txoff = if attr & 0x20 != 0 {
            7 - txoff
        } else {
            txoff
        };
        let coli = tile_byte_spec(g, 0x8000 + ti * 16, txoff, tyoff % 8, 0);
        let palette = if attr & 0x10 != 0 {
            g.obj_palette1
        } else {
            g.obj_palette0
        };
        if coli == 0 || (attr & 0x80 != 0 && bg_coli(g, x) != 0) {
            None
        } else {
            Some(color_rgb(palette[coli as int]))
        }
    }
}

/// Where sprite `i` (8 pixels tall, no vertical flip, above the background) covers column
/// `x` of the current line, the color number it shows is read from its tile row at bit
/// `7 - t` for column offset `t` (leftmost pixel in bit 7), and at bit `t` when the attribute's
/// x-flip bit (0x20) is set, so the flipped sprite is the mirror image; color 0 is
/// transparent.
pub proof fn lemma_sprite_xflip(g: GpuView, oam: Seq<u8>, i: int, x: int)
    requires
        0 <= i,
        i * 4 + 3 < oam.len(),
        g.spsize == 8,
        oam[i * 4 + 3] & 0x40 == 0,
        oam[i * 4 + 3] & 0x80 == 0,
        g.ly + 16 >= oam[i * 4] as int,
        g.ly + 16 - oam[i * 4] < 8,
        x + 8 >= oam[i * 4 + 1] as int,
        x + 8 - oam[i * 4 + 1] < 8,
    ensures
        ({
            let t = x + 8 - oam[i * 4 + 1];
            let row = g.ly + 16 - oam[i * 4];
            let base = 0x8000 + oam[i * 4 + 2] * 16;
            let l = vram_at(g, base + row * 2, 0);
            let h = vram_at(g, base + row * 2 + 1, 0);
            let attr = oam[i * 4 + 3];
            let sh: u8 = if attr & 0x20 != 0 {
                t as u8
            } else {
                (7 - t) as u8
            };
            let coli = (((h >> sh) & 1) * 2 + ((l >> sh) & 1)) as nat;
            let palette = if attr & 0x10 != 0 {
                g.obj_palette1
            } else {
                g.obj_palette0
            };
            sprite_pixel(g, oam, i, x) == if coli == 0 {
                None
            } else {
                Some(color_rgb(palette[coli as int]))
            }
        }),
{
}

/// The pixel at column `x` after sprites 0 to `n - 1`: a later sprite draws over an earlier
/// one.
pub open spec fn layered_pixel(g: GpuView, oam: Seq<u8>, n: nat, x: int) -> u32
    decreases n,
{
    if n == 0 {
        base_pixel(g, x)
    } else {
        match sprite_pixel(g, oam, n - 1, x) {
            Some(c) => c,
            None => layered_pixel(g, oam, (n - 1) as nat, x),
        }
    }
}

/// The pixel at column `x` of the current line.
pub open spec fn line_pixel(g: GpuView, oam: Seq<u8>, x: int) -> u32 {
    if g.spenable {
        layered_pixel(g, oam, 40, x)
    } else {
        base_pixel(g, x)
    }
}

/// A monochrome palette entry's pixel, one of the four shades.
proof fn lemma_mono_rgb(p: Seq<Color>, i: int)
    requires
        mono_palette(p),
        0 <= i < 4,
    ensures
        !(p[i] is Rgb),
{
}

impl Gpu {
    fn get_tile_base(&self, mapbase: u16, tx: u16, ty: u16) -> (r: u16)
        requires
            gpu_wf(self@),
            mapbase == 0x9800 || mapbase == 0x9c00,
            tx < 32,
            ty < 32,
        ensures
            r == tile_base_spec(self@, mapbase, tx as int, ty as int),
            0x8000 <= r <= 0x97f0,
    {
        let ti = tx + ty * 32;
        let num = self.read_vram(mapbase + ti, 0);
        if self.tiles == 0x8000 {
            self.tiles + num as u16 * 16
        } else {
            let s = num as i8 as i16;
            self.tiles + (0x800 + s * 16) as u16
        }
    }

    fn get_tile_byte(&self, tilebase: u16, txoff: u16, tyoff: u16, bank: usize) -> (r: usize)
        requires
            gpu_wf(self@),
            0x8000 <= tilebase,
            tilebase + tyoff * 2 + 1 <= 0x9fff,
            txoff < 8,
            tyoff < 8,
            bank < 2,
        ensures
            r == tile_byte_spec(self@, tilebase as int, txoff as int, tyoff as int, bank as int),
            r < 4,
    {
        let l = self.read_vram(tilebase + tyoff * 2, bank);
        let h = self.read_vram(tilebase + tyoff * 2 + 1, bank);
        let sh = (7 - txoff) as u8;
        let l = (l >> sh) & 1;
        let h = ((h >> sh) & 1) << 1u8;
        proof {
            let (hh, ll) = (vram_at(self@, tilebase + tyoff * 2 + 1, bank as int), vram_at(self@, tilebase + tyoff * 2, bank as int));
            assert(((hh >> sh) & 1) << 1u8 == ((hh >> sh) & 1) * 2 && ((hh >> sh) & 1) <= 1 && ((ll
                >> sh) & 1) <= 1 && (((hh >> sh) & 1) << 1u8) | ((ll >> sh) & 1) == (((hh >> sh) & 1)
                << 1u8) + ((ll >> sh) & 1)) by (bit_vector);
        }
        (h | l) as usize
    }

    /// Renders the current line: background, then window, then the sprites of `oam` in order.
    pub fn draw(&self, oam: &[u8]) -> (r: Vec<u32>)
        requires
            gpu_wf(self@),
            self@.ly < VRAM_HEIGHT,
            oam@.len() >= 160,
        ensures
            r@.len() == VRAM_WIDTH,
            forall|x: int| 0 <= x < VRAM_WIDTH ==> r@[x] == line_pixel(self@, oam@, x),
    {
        let width: usize = VRAM_WIDTH;
        let mut buf: Vec<u32> = vec![0; width];
        let mut bgbuf: Vec<usize> = vec![0; width];
        let g = Ghost(self@);
        if self.bgenable {
            let mapbase = self.bgmap;
            let yy = (self.ly as u16 + self.scy as u16) % 256;
            let ty = yy / 8;
            let tyoff = yy % 8;
            let mut x: u16 = 0;
            while x < 160
                invariant
                    g@ == self@,
                    gpu_wf(self@),
                    self@.bgenable,
                    mapbase == self@.bgmap,
                    yy == (self@.ly + self@.scy) % 256,
                    ty == yy / 8,
                    tyoff == yy % 8,
                    x <= 160,
                    buf@.len() == 160,
                    bgbuf@.len() == 160,
                    forall|j: int| 0 <= j < x ==> buf@[j] == base_pixel_bg(self@, j) && bgbuf@[j] == bg_coli(self@, j),
                    forall|j: int| x <= j < 160 ==> buf@[j] == 0 && bgbuf@[j] == 0,
                decreases 160 - x,
            {
                let xx = (x + self.scx as u16) % 256;
                let tx = xx / 8;
                let txoff = xx % 8;
                let tbase = self.get_tile_base(mapbase, tx, ty);
                let coli = self.get_tile_byte(tbase, txoff, tyoff, 0);
                proof {
                    lemma_mono_rgb(self@.bg_palette, coli as int);
                }
                let col = self.bg_palette[coli].to_rgb();
                buf.set(x as usize, col);
                bgbuf.set(x as usize, coli);
                x = x + 1;
            }
        }
        assert(forall|j: int| 0 <= j < 160 ==> buf@[j] == base_pixel_bg(self@, j) && bgbuf@[j] == bg_coli(self@, j));
        if self.winenable {
            let mapbase = self.winmap;
            if self.ly >= self.wy {
                let yy = (self.ly - self.wy) as u16;
                let ty = yy / 8;
                let tyoff = yy % 8;
                let mut x: u16 = 0;
                while x < 160
                    invariant
                        gpu_wf(self@),
                        self@.winenable,
                        self@.ly < 144,
                        self@.ly >= self@.wy,
                        mapbase == self@.winmap,
                        yy == self@.ly - self@.wy,
                        ty == yy / 8,
                        tyoff == yy % 8,
                        x <= 160,
                        buf@.len() == 160,
                        forall|j: int| 0 <= j < x ==> buf@[j] == base_pixel(self@, j),
                        forall|j: int| x <= j < 160 ==> buf@[j] == base_pixel_bg(self@, j),
                    decreases 160 - x,
                {
                    if x + 7 < self.wx as u16 {
                        x = x + 1;
                        continue;
                    }
                    let xx = x + 7 - self.wx as u16;
                    let tx = xx / 8;
                    let txoff = xx % 8;
                    let tbase = self.get_tile_base(mapbase, tx, ty);
                    let coli = self.get_tile_byte(tbase, txoff, tyoff, 0);
                    proof {
                        lemma_mono_rgb(self@.bg_palette, coli as int);
                    }
                    let col = self.bg_palette[coli].to_rgb();
                    buf.set(x as usize, col);
                    x = x + 1;
                }
            }
        }
        assert(forall|j: int| 0 <= j < 160 ==> buf@[j] == base_pixel(self@, j));
        if self.spenable {
            let mut i: u16 = 0;
            while i < 40
                invariant
                    gpu_wf(self@),
                    self@.spenable,
                    self@.ly < 144,
                    oam@.len() >= 160,
                    i <= 40,
                    buf@.len() == 160,
                    bgbuf@.len() == 160,
                    forall|j: int| 0 <= j < 160 ==> bgbuf@[j] == bg_coli(self@, j),
                    forall|j: int| 0 <= j < 160 ==> buf@[j] == layered_pixel(self@, oam@, i as nat, j),
                decreases 40 - i,
            {
                self.draw_sprite(oam, i, &mut buf, &bgbuf);
                i = i + 1;
            }
        }
        buf
    }

    /// Draws sprite `i` of `oam` over the current line in `buf`.
    fn draw_sprite(&self, oam: &[u8], i: u16, buf: &mut Vec<u32>, bgbuf: &Vec<usize>)
        requires
            gpu_wf(self@),
            self@.ly < 144,
            oam@.len() >= 160,
            i < 40,
            old(buf)@.len() == 160,
            bgbuf@.len() == 160,
            forall|j: int| 0 <= j < 160 ==> bgbuf@[j] == bg_coli(self@, j),
            forall|j: int| 0 <= j < 160 ==> old(buf)@[j] == layered_pixel(self@, oam@, i as nat, j),
        ensures
            final(buf)@.len() == 160,
            forall|j: int| 0 <= j < 160 ==> final(buf)@[j] == layered_pixel(self@, oam@, (i + 1) as nat, j),
    {
        let o = (i * 4) as usize;
        let ypos = oam[o] as u16;
        let xpos = oam[o + 1] as u16;
        let ti = oam[o + 2];
        let attr = oam[o + 3];
        let ly = self.ly as u16;
        if ly + 16 < ypos {
            // This sprite doesn't hit the current ly
            return;
        }
        let tyoff = ly + 16 - ypos;
        if tyoff >= self.spsize {
            // This sprite doesn't hit the current ly
            return;
        }
        let tyoff = if attr & 0x40 != 0 {
            self.spsize - 1 - tyoff
        } else {
            tyoff
        };
        let ti = if self.spsize == 16 {
            if tyoff >= 8 {
                ti | 1
            } else {
                ti & 0xfe
            }
        } else {
            ti
        };
        let tyoff = tyoff % 8;
        let tiles: u16 = 0x8000;
        let mut x: u16 = 0;
        while x < 160
            invariant
                gpu_wf(self@),
                self@.ly < 144,
                oam@.len() >= 160,
                i < 40,
                o == i * 4,
                ypos == oam@[o as int],
                xpos == oam@[o + 1],
                attr == oam@[o + 3],
                ly == self@.ly,
                ly + 16 >= ypos,
                ly + 16 - ypos < self@.spsize,
                tyoff < 8,
                tiles == 0x8000,
                ti == (if self@.spsize == 16 {
                    if (if attr & 0x40 != 0 { self@.spsize - 1 - (ly + 16 - ypos) } else { ly + 16 - ypos }) >= 8 {
                        oam@[o + 2] | 1
                    } else {
                        oam@[o + 2] & 0xfe
                    }
                } else {
                    oam@[o + 2]
                }),
                tyoff == (if attr & 0x40 != 0 { self@.spsize - 1 - (ly + 16 - ypos) } else { ly + 16 - ypos }) % 8,
                x <= 160,
                buf@.len() == 160,
                bgbuf@.len() == 160,
                forall|j: int| 0 <= j < 160 ==> bgbuf@[j] == bg_coli(self@, j),
                forall|j: int| 0 <= j < x ==> buf@[j] == layered_pixel(self@, oam@, (i + 1) as nat, j),
                forall|j: int| x <= j < 160 ==> buf@[j] == layered_pixel(self@, oam@, i as nat, j),
            decreases 160 - x,
        {
            assert(layered_pixel(self@, oam@, (i + 1) as nat, x as int) == match sprite_pixel(self@, oam@, i as int, x as int) {
                Some(c) => c,
                None => layered_pixel(self@, oam@, i as nat, x as int),
            });
            if x + 8 < xpos {
                x = x + 1;
                continue;
            }
            let txoff = x + 8 - xpos;
            if txoff >= 8 {
                x = x + 1;
                continue;
            }
            let txoff = if attr & 0x20 != 0 {
                7 - txoff
            } else {
                txoff
            };
            let tbase = tiles + ti as u16 * 16;
            let coli = self.get_tile_byte(tbase, txoff, tyoff, 0);
            if coli == 0 {
                // Color index 0 means transparent
                x = x + 1;
                continue;
            }
            let bgcoli = bgbuf[x as usize];
            if attr & 0x80 != 0 && bgcoli != 0 {
                // If priority is lower than bg color 1-3, don't draw
                x = x + 1;
                continue;
            }
            let col = if attr & 0x10 != 0 {
                proof {
                    lemma_mono_rgb(self@.obj_palette1, coli as int);
                }
                self.obj_palette1[coli].to_rgb()
            } else {
                proof {
                    lemma_mono_rgb(self@.obj_palette0, coli as int);
                }
                self.obj_palette0[coli].to_rgb()
            };
            buf.set(x as usize, col);
            x = x + 1;
        }
    }
}

/// The pixel at column `x` after the background alone.
pub open spec fn base_pixel_bg(g: GpuView, x: int) -> u32 {
    if g.bgenable {
        color_rgb(g.bg_palette[bg_coli(g, x) as int])
    } else {
        0
    }
}

/// The interrupt lines with the LCD request raised when `cond` holds.
pub open spec fn lcd_if(irq: Irq, cond: bool) -> Irq {
    if cond {
        Irq { request: Ints { lcd: true, ..irq.request }, ..irq }
    } else {
        irq
    }
}

/// The mode machine after the mode clock reaches `clocks`: OAM search (80 cycles), transfer
/// (172), H-blank (204), ten lines of V-blank (456 each). The line counter moves at the end of
/// each H-blank and V-blank line; the LCD interrupt is raised on entering H-blank, V-blank or
/// OAM search when selected. Returns the state, the interrupt lines, and whether the current
/// line was drawn.
pub open spec fn gpu_advance_spec(g: GpuView, irq: Irq, clocks: nat) -> (GpuView, Irq, bool) {
    match g.mode {
        Mode::OAM => if clocks >= 80 {
            (GpuView { clocks: 0, mode: Mode::VRAM, ..g }, irq, false)
        } else {
            (GpuView { clocks: clocks as usize, ..g }, irq, false)
        },
        Mode::VRAM => if clocks >= 172 {
            (GpuView { clocks: 0, mode: Mode::HBlank, ..g }, lcd_if(irq, g.hblank_interrupt), true)
        } else {
            (GpuView { clocks: clocks as usize, ..g }, irq, false)
        },
        Mode::HBlank => if clocks >= 204 {
            let ly = (g.ly + 1) as u8;
            if ly >= 143 {
                (
                    GpuView { clocks: 0, mode: Mode::VBlank, ly, ..g },
                    lcd_if(Irq { request: Ints { vblank: true, ..irq.request }, ..irq }, g.vblank_interrupt),
                    false,
                )
            } else {
                (GpuView { clocks: 0, mode: Mode::OAM, ly, ..g }, lcd_if(irq, g.oam_interrupt), false)
            }
        } else {
            (GpuView { clocks: clocks as usize, ..g }, irq, false)
        },
        Mode::VBlank => if clocks >= 456 {
            let ly = (g.ly + 1) as u8;
            if ly > 153 {
                (GpuView { clocks: 0, mode: Mode::OAM, ly: 0, ..g }, lcd_if(irq, g.oam_interrupt), false)
            } else {
                (GpuView { clocks: 0, mode: Mode::VBlank, ly, ..g }, irq, false)
            }
        } else {
            (GpuView { clocks: clocks as usize, ..g }, irq, false)
        },
        Mode::Off => (GpuView { clocks: 0, ..g }, irq, false),
    }
}

/// `buf` is line `line` (the current line) as `draw` renders it.
pub open spec fn rendered_line(g: GpuView, oam: Seq<u8>, line: usize, buf: Seq<u32>) -> bool {
    &&& line == g.ly
    &&& buf.len() == VRAM_WIDTH
    &&& forall|x: int| 0 <= x < VRAM_WIDTH ==> buf[x] == line_pixel(g, oam, x)
}

/// The state after `time` cycles: the mode machine advances, then the LCD interrupt is raised
/// when LY equals LYC with that selected.
pub open spec fn gpu_step_spec(g: GpuView, irq: Irq, time: nat) -> (GpuView, Irq, bool) {
    let (g1, irq1, drew) = gpu_advance_spec(g, irq, (g.clocks + time) as nat);
    (g1, lcd_if(irq1, g.lyc_interrupt && g.lyc == g1.ly), drew)
}

impl Gpu {
    /// Advances the mode clock by `time` cycles. When the transfer of a visible line ends, the
    /// line is rendered from video RAM and the sprite attributes `oam`, and returned with its
    /// number for the display.
    #[verifier::rlimit(60)]
    pub fn step(&mut self, time: usize, oam: &[u8], irq: &mut Irq) -> (r: Option<(usize, Vec<u32>)>)
        requires
            gpu_wf(old(self)@),
            old(self)@.ly < 255,
            time <= usize::MAX - 456,
            oam@.len() >= 160,
        ensures
            gpu_wf(final(self)@),
            final(self)@ == gpu_step_spec(old(self)@, *old(irq), time as nat).0,
            *final(irq) == gpu_step_spec(old(self)@, *old(irq), time as nat).1,
            (r is Some) == (gpu_step_spec(old(self)@, *old(irq), time as nat).2 && old(self)@.ly
                < VRAM_HEIGHT),
            r matches Some((line, buf)) ==> rendered_line(old(self)@, oam@, line, buf@),
    {
        let clocks = self.clocks + time;
        let drawn = match self.mode {
            Mode::OAM => {
                self.step_oam(clocks);
                None
            },
            Mode::VRAM => self.step_vram(clocks, oam, irq),
            Mode::HBlank => {
                self.step_hblank(clocks, irq);
                None
            },
            Mode::VBlank => {
                self.step_vblank(clocks, irq);
                None
            },
            Mode::Off => {
                self.clocks = 0;
                None
            },
        };
        if self.lyc_interrupt && self.lyc == self.ly {
            irq.lcd(true);
        }
        drawn
    }

    fn step_oam(&mut self, clocks: usize)
        requires
            gpu_wf(old(self)@),
            old(self)@.mode == Mode::OAM,
        ensures
            gpu_wf(final(self)@),
            final(self)@ == (if clocks >= 80 {
                GpuView { clocks: 0, mode: Mode::VRAM, ..old(self)@ }
            } else {
                GpuView { clocks: clocks, ..old(self)@ }
            }),
    {
        if clocks >= 80 {
            self.clocks = 0;
            self.mode = Mode::VRAM;
        } else {
            self.clocks = clocks;
        }
    }

    fn step_vram(&mut self, clocks: usize, oam: &[u8], irq: &mut Irq) -> (r: Option<(usize, Vec<u32>)>)
        requires
            gpu_wf(old(self)@),
            old(self)@.mode == Mode::VRAM,
            oam@.len() >= 160,
        ensures
            gpu_wf(final(self)@),
            (final(self)@, *final(irq)) == ({
                let (g, i, _) = gpu_advance_spec(old(self)@, *old(irq), clocks as nat);
                (g, i)
            }),
            (r is Some) == (clocks >= 172 && old(self)@.ly < VRAM_HEIGHT),
            r matches Some((line, buf)) ==> rendered_line(old(self)@, oam@, line, buf@),
    {
        if clocks >= 172 {
            let mut drawn = None;
            if (self.ly as usize) < VRAM_HEIGHT {
                drawn = Some((self.ly as usize, self.draw(oam)));
            }
            if self.hblank_interrupt {
                irq.lcd(true);
            }
            self.clocks = 0;
            self.mode = Mode::HBlank;
            drawn
        } else {
            self.clocks = clocks;
            None
        }
    }

    fn step_hblank(&mut self, clocks: usize, irq: &mut Irq)
        requires
            gpu_wf(old(self)@),
            old(self)@.mode == Mode::HBlank,
            old(self)@.ly < 255,
        ensures
            gpu_wf(final(self)@),
            (final(self)@, *final(irq)) == ({
                let (g, i, _) = gpu_advance_spec(old(self)@, *old(irq), clocks as nat);
                (g, i)
            }),
    {
        if clocks >= 204 {
            self.ly = self.ly + 1;
            self.clocks = 0;
            if self.ly >= 143 {
                irq.vblank(true);
                if self.vblank_interrupt {
                    irq.lcd(true);
                }
                self.mode = Mode::VBlank;
            } else {
                if self.oam_interrupt {
                    irq.lcd(true);
                }
                self.mode = Mode::OAM;
            }
        } else {
            self.clocks = clocks;
        }
    }

    fn step_vblank(&mut self, clocks: usize, irq: &mut Irq)
        requires
            gpu_wf(old(self)@),
            old(self)@.mode == Mode::VBlank,
            old(self)@.ly < 255,
        ensures
            gpu_wf(final(self)@),
            (final(self)@, *final(irq)) == ({
                let (g, i, _) = gpu_advance_spec(old(self)@, *old(irq), clocks as nat);
                (g, i)
            }),
    {
        if clocks >= 456 {
            self.ly = self.ly + 1;
            self.clocks = 0;
            if self.ly > 153 {
                self.ly = 0;
                if self.oam_interrupt {
                    irq.lcd(true);
                }
                self.mode = Mode::OAM;
            } else {
                self.mode = Mode::VBlank;
            }
        } else {
            self.clocks = clocks;
        }
    }
}

/// A read of video RAM gives back the last value written at that address in the selected
/// bank, and the write leaves the registers alone.
pub proof fn lemma_vram_read_after_write(g: GpuView, irq: Irq, addr: u16, other: u16, v: u8)
    requires
        gpu_wf(g),
        0x8000 <= addr <= 0x9fff,
        0x8000 <= other <= 0x9fff,
    ensures
        ({
            let (g1, irq1) = gpu_write_spec(g, irq, addr, v);
            &&& gpu_read_spec(g1, other) == if other == addr {
                MemRead::Replace(v)
            } else {
                gpu_read_spec(g, other)
            }
            &&& irq1 == irq
            &&& GpuView { vram: g.vram, ..g1 } == g
        }),
{
}

} // verus!
