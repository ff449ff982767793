//! Frame rendering: bitmap modes 3, 4 and 5, tiled mode 0 with windows and
//! colour effects, and 4bpp sprites, all as functions of the registers and
//! of the palette, VRAM and OAM bytes.
use vstd::prelude::*;

use super::{
    BACKBUFFER, BG0_ENABLE, BG1_ENABLE, BG2_ENABLE, BG3_ENABLE, DISPCNT_MODE_MASK, HEIGHT, MODE_0,
    MODE_3, MODE_4, MODE_5, OBJ_1D_MAPPING, OBJ_ENABLE, OBJ_WIN_ENABLE, Ppu, WIDTH, WIN0_ENABLE,
    WIN1_ENABLE,
};
use crate::gba::bits::{le16, lemma_bits_u8, lemma_bits_u16, lemma_bits_u32, read_u16, read_u16_checked};

verus! {

/// A rendered frame: `WIDTH * HEIGHT` ARGB8888 pixels, row by row.
pub type FrameBuffer = Vec<u32>;

pub const WIN_LAYER_BG0: u16 = 0x0001;
pub const WIN_LAYER_BG1: u16 = 0x0002;
pub const WIN_LAYER_BG2: u16 = 0x0004;
pub const WIN_LAYER_BG3: u16 = 0x0008;
pub const WIN_LAYER_OBJ: u16 = 0x0010;
pub const WIN_LAYER_EFFECT: u16 = 0x0020;
pub const WIN_MASK_ALL: u16 = 0x003f;
pub const BLEND_LAYER_BACKDROP: u16 = 0x0020;
pub const BLEND_MODE_ALPHA: u16 = 1;
pub const BLEND_MODE_LIGHTEN: u16 = 2;
pub const BLEND_MODE_DARKEN: u16 = 3;
pub const BG_MOSAIC: u16 = 0x0040;
pub const BG_TILE_SIZE: usize = 8;
pub const SCREEN_BLOCK_SIZE: usize = 0x800;
pub const CHAR_BLOCK_SIZE: usize = 0x4000;
pub const MODE5_WIDTH: usize = 160;
pub const MODE5_HEIGHT: usize = 128;
pub const OBJ_TILE_BASE_TEXT_MODE: usize = 0x10000;
pub const OBJ_PALETTE_BASE: usize = 0x200;
pub const BITMAP_PAGE_SIZE: usize = 0xA000;
pub const FRAME_PIXELS: usize = 38400;

// ---------------------------------------------------------------------------
// Colours

/// A 5-bit channel widened to 8 bits by repeating its top bits.
pub open spec fn spec_expand5(c: int) -> int {
    c * 8 + c / 4
}

/// The ARGB8888 value of a BGR555 colour: opaque, with each 5-bit channel
/// widened to 8 bits.
pub open spec fn spec_argb(color: u16) -> u32 {
    (0xff00_0000int
        + spec_expand5(color as int % 32) * 0x10000
        + spec_expand5((color as int / 32) % 32) * 0x100
        + spec_expand5((color as int / 1024) % 32)) as u32
}

/// Converts a BGR555 colour to opaque ARGB8888.
pub fn bgr555_to_argb8888(color: u16) -> (r: u32)
    ensures
        r == spec_argb(color),
{
    let r5 = (color % 32) as u32;
    let g5 = ((color / 32) % 32) as u32;
    let b5 = ((color / 1024) % 32) as u32;
    let r8 = r5 * 8 + r5 / 4;
    let g8 = g5 * 8 + g5 / 4;
    let b8 = b5 * 8 + b5 / 4;
    0xff00_0000 + r8 * 0x10000 + g8 * 0x100 + b8
}

/// A colour from its three 5-bit channels.
pub open spec fn spec_rgb(r: int, g: int, b: int) -> u16 {
    (r + g * 32 + b * 1024) as u16
}

pub open spec fn spec_min(a: int, b: int) -> int {
    if a < b { a } else { b }
}

/// Alpha blending: each channel is `(top * eva + lower * evb) / 16`, at most 31.
pub open spec fn spec_alpha_blend(top: u16, lower: u16, eva: int, evb: int) -> u16 {
    spec_rgb(
        spec_min(((top as int % 32) * eva + (lower as int % 32) * evb) / 16, 31),
        spec_min((((top as int / 32) % 32) * eva + ((lower as int / 32) % 32) * evb) / 16, 31),
        spec_min((((top as int / 1024) % 32) * eva + ((lower as int / 1024) % 32) * evb) / 16, 31),
    )
}

/// One channel moved `evy / 16` of the way towards white (`lighten`) or black.
pub open spec fn spec_brightness_channel(c: int, evy: int, lighten: bool) -> int {
    if lighten { c + ((31 - c) * evy) / 16 } else { c - (c * evy) / 16 }
}

/// Brightness increase or decrease, with the coefficient capped at 16.
pub open spec fn spec_brightness_blend(color: u16, evy: int, lighten: bool) -> u16 {
    let e = spec_min(evy, 16);
    spec_rgb(
        spec_brightness_channel(color as int % 32, e, lighten),
        spec_brightness_channel((color as int / 32) % 32, e, lighten),
        spec_brightness_channel((color as int / 1024) % 32, e, lighten),
    )
}

fn alpha_channel(top: u16, lower: u16, eva: u16, evb: u16) -> (r: u16)
    requires
        top < 32,
        lower < 32,
        eva <= 16,
        evb <= 16,
    ensures
        r == spec_min((top * eva + lower * evb) / 16, 31),
{
    assert(top * eva <= 31 * 16) by (nonlinear_arith)
        requires top < 32, eva <= 16;
    assert(lower * evb <= 31 * 16) by (nonlinear_arith)
        requires lower < 32, evb <= 16;
    let v = (top * eva + lower * evb) / 16;
    if v < 31 { v } else { 31 }
}

fn alpha_blend(top: u16, lower: u16, eva: u16, evb: u16) -> (r: u16)
    requires
        eva <= 16,
        evb <= 16,
    ensures
        r == spec_alpha_blend(top, lower, eva as int, evb as int),
{
    let r = alpha_channel(top % 32, lower % 32, eva, evb);
    let g = alpha_channel((top / 32) % 32, (lower / 32) % 32, eva, evb);
    let b = alpha_channel((top / 1024) % 32, (lower / 1024) % 32, eva, evb);
    r + g * 32 + b * 1024
}

fn brightness_channel(channel: u16, evy: u16, lighten: bool) -> (r: u16)
    requires
        channel < 32,
        evy <= 16,
    ensures
        r == spec_brightness_channel(channel as int, evy as int, lighten),
        r < 32,
{
    if lighten {
        assert((31 - channel) * evy <= (31 - channel) * 16) by (nonlinear_arith)
            requires channel < 32, evy <= 16;
        channel + ((31 - channel) * evy) / 16
    } else {
        assert(channel * evy <= channel * 16) by (nonlinear_arith)
            requires channel < 32, evy <= 16;
        channel - (channel * evy) / 16
    }
}

fn brightness_blend(color: u16, evy: u16, lighten: bool) -> (r: u16)
    ensures
        r == spec_brightness_blend(color, evy as int, lighten),
{
    let evy = if evy < 16 { evy } else { 16 };
    let r = brightness_channel(color % 32, evy, lighten);
    let g = brightness_channel((color / 32) % 32, evy, lighten);
    let b = brightness_channel((color / 1024) % 32, evy, lighten);
    r + g * 32 + b * 1024
}

// ---------------------------------------------------------------------------
// Fixed-point helpers

/// A 28-bit two's-complement value.
pub open spec fn spec_sext28(v: u32) -> int {
    if v >= 0x0800_0000 { v - 0x1000_0000 } else { v as int }
}

/// A 16-bit two's-complement value.
pub open spec fn spec_s16(v: u16) -> int {
    if v >= 0x8000 { v - 0x10000 } else { v as int }
}

/// The integer part of the affine map `reference + x_step * x + y_step * y`
/// in 8-bit fixed point (rounded towards minus infinity).
pub open spec fn spec_affine_coord(reference: u32, x_step: u16, y_step: u16, x: int, y: int) -> int {
    (spec_sext28(reference & 0x0fff_ffff) + spec_s16(x_step) * x + spec_s16(y_step) * y) / 256
}

/// Sign-extends a 28-bit field.
fn sign_extend_u32(value: u32, bits: u32) -> (r: i32)
    requires
        bits == 28,
        value < 0x1000_0000,
    ensures
        r == spec_sext28(value),
{
    if value >= 0x0800_0000 { value as i32 - 0x1000_0000 } else { value as i32 }
}

fn s16(v: u16) -> (r: i64)
    ensures
        r == spec_s16(v),
{
    if v >= 0x8000 { v as i64 - 0x10000 } else { v as i64 }
}

/// `v / 256` rounded towards minus infinity, for `|v| < 2^40`.
fn floor_div256(v: i64) -> (r: i64)
    requires
        -0x100_0000_0000 < v < 0x100_0000_0000,
    ensures
        r == v / 256,
{
    let shifted = (v + 0x100_0000_0000) as u64 / 256;
    proof {
        vstd::arithmetic::div_mod::lemma_fundamental_div_mod(v as int, 256);
        vstd::arithmetic::div_mod::lemma_fundamental_div_mod_converse(
            v + 0x100_0000_0000, 256, v as int / 256 + 0x1_0000_0000, v as int % 256);
    }
    shifted as i64 - 0x1_0000_0000
}

fn affine_source_coord(reference: u32, x_step: u16, y_step: u16, x: usize, y: usize) -> (r: i32)
    requires
        x < 256,
        y < 256,
    ensures
        r == spec_affine_coord(reference, x_step, y_step, x as int, y as int),
{
    proof { lemma_bits_u32(reference, 0x0fff_ffff); }
    let base = sign_extend_u32(reference & 0x0fff_ffff, 28) as i64;
    let xs = s16(x_step);
    let ys = s16(y_step);
    assert(-0x8000 * 256 <= xs * (x as i64) <= 0x8000 * 256) by (nonlinear_arith)
        requires -0x8000 <= xs < 0x8000, 0 <= x < 256;
    assert(-0x8000 * 256 <= ys * (y as i64) <= 0x8000 * 256) by (nonlinear_arith)
        requires -0x8000 <= ys < 0x8000, 0 <= y < 256;
    let sum = base + xs * x as i64 + ys * y as i64;
    let q = floor_div256(sum);
    q as i32
}

// ---------------------------------------------------------------------------
// BG2 bitmap sampling

pub open spec fn spec_mode(p: Ppu) -> u16 {
    p.dispcnt & DISPCNT_MODE_MASK
}

pub open spec fn spec_bg2_enabled(p: Ppu) -> bool {
    p.dispcnt & BG2_ENABLE != 0
}

/// Width of a mosaic block (MOSAIC bits 0-3, plus one).
pub open spec fn spec_mosaic_w(mosaic: u16) -> int {
    (mosaic & 0x000f) as int + 1
}

/// Height of a mosaic block (MOSAIC bits 4-7, plus one).
pub open spec fn spec_mosaic_h(mosaic: u16) -> int {
    ((mosaic >> 4u16) & 0x000f) as int + 1
}

/// The bitmap pixel that BG2 shows at screen `(x, y)`: the screen point is
/// first snapped to its mosaic block (when BG2CNT enables mosaic), then
/// mapped through the BG2 affine transform; `None` when it falls outside a
/// `width` x `height` bitmap.
pub open spec fn spec_bg2_source(p: Ppu, x: int, y: int, width: int, height: int) -> Option<(int, int)> {
    let mw = spec_mosaic_w(p.mosaic);
    let mh = spec_mosaic_h(p.mosaic);
    let sx = if p.bgcnt@[2] & BG_MOSAIC == 0 { x } else { x / mw * mw };
    let sy = if p.bgcnt@[2] & BG_MOSAIC == 0 { y } else { y / mh * mh };
    let ax = spec_affine_coord(p.bgx@[0], p.bgpa@[0], p.bgpb@[0], sx, sy);
    let ay = spec_affine_coord(p.bgy@[0], p.bgpc@[0], p.bgpd@[0], sx, sy);
    if ax < 0 || ay < 0 || ax >= width || ay >= height { None } else { Some((ax, ay)) }
}

/// Byte offset of the bitmap page that DISPCNT selects.
pub open spec fn spec_page(p: Ppu) -> int {
    if p.dispcnt & BACKBUFFER != 0 { 0xA000 } else { 0 }
}

/// Column of pixel number `i` of a frame.
pub open spec fn px(i: int) -> int {
    i % 240
}

/// Row of pixel number `i` of a frame.
pub open spec fn py(i: int) -> int {
    i / 240
}

/// Mode 3: BG2 shows a 240x160 bitmap of 16-bit colours.
pub open spec fn spec_mode3_pixel(p: Ppu, vram: Seq<u8>, x: int, y: int) -> u16 {
    match spec_bg2_source(p, x, y, 240, 160) {
        Some((sx, sy)) => le16(vram, (sy * 240 + sx) * 2),
        None => 0,
    }
}

/// Mode 4: BG2 shows a 240x160 bitmap of palette indices from the selected page.
pub open spec fn spec_mode4_pixel(p: Ppu, palette: Seq<u8>, vram: Seq<u8>, x: int, y: int) -> u16 {
    match spec_bg2_source(p, x, y, 240, 160) {
        Some((sx, sy)) => le16(palette, vram[spec_page(p) + sy * 240 + sx] * 2),
        None => 0,
    }
}

/// Mode 5: BG2 shows a 160x128 bitmap of 16-bit colours from the selected
/// page in the top-left corner of the screen.
pub open spec fn spec_mode5_pixel(p: Ppu, vram: Seq<u8>, x: int, y: int) -> u16 {
    if x < 160 && y < 128 {
        match spec_bg2_source(p, x, y, 160, 128) {
            Some((sx, sy)) => le16(vram, spec_page(p) + (sy * 160 + sx) * 2),
            None => 0,
        }
    } else {
        0
    }
}

/// The mode 3 read for screen `(x, y)` stays inside VRAM.
pub open spec fn mode3_read_ok(p: Ppu, vram: Seq<u8>, x: int, y: int) -> bool {
    match spec_bg2_source(p, x, y, 240, 160) {
        Some((sx, sy)) => (sy * 240 + sx) * 2 + 1 < vram.len(),
        None => true,
    }
}

/// The mode 4 reads for screen `(x, y)` stay inside VRAM and the palette.
pub open spec fn mode4_read_ok(p: Ppu, palette: Seq<u8>, vram: Seq<u8>, x: int, y: int) -> bool {
    match spec_bg2_source(p, x, y, 240, 160) {
        Some((sx, sy)) => spec_page(p) + sy * 240 + sx < vram.len()
            && vram[spec_page(p) + sy * 240 + sx] * 2 + 1 < palette.len(),
        None => true,
    }
}

/// The mode 5 read for screen `(x, y)` stays inside VRAM.
pub open spec fn mode5_read_ok(p: Ppu, vram: Seq<u8>, x: int, y: int) -> bool {
    match spec_bg2_source(p, x, y, 160, 128) {
        Some((sx, sy)) => spec_page(p) + (sy * 160 + sx) * 2 + 1 < vram.len(),
        None => true,
    }
}

/// Every read that mode 3 makes stays inside VRAM.
pub open spec fn mode3_reads_ok(p: Ppu, vram: Seq<u8>) -> bool {
    forall|x: int, y: int| 0 <= x < 240 && 0 <= y < 160 ==> #[trigger] mode3_read_ok(p, vram, x, y)
}

/// Every read that mode 4 makes stays inside VRAM and the palette.
pub open spec fn mode4_reads_ok(p: Ppu, palette: Seq<u8>, vram: Seq<u8>) -> bool {
    forall|x: int, y: int| 0 <= x < 240 && 0 <= y < 160 ==> #[trigger] mode4_read_ok(p, palette, vram, x, y)
}

/// Every read that mode 5 makes stays inside VRAM.
pub open spec fn mode5_reads_ok(p: Ppu, vram: Seq<u8>) -> bool {
    forall|x: int, y: int| 0 <= x < 160 && 0 <= y < 128 ==> #[trigger] mode5_read_ok(p, vram, x, y)
}

/// The mode 3 frame before colour conversion: black unless mode 3 with BG2 on.
pub open spec fn spec_mode3_raw(p: Ppu, vram: Seq<u8>, i: int) -> u16 {
    if spec_mode(p) == MODE_3 && spec_bg2_enabled(p) { spec_mode3_pixel(p, vram, px(i), py(i)) } else { 0 }
}

/// The mode 4 frame before colour conversion: black unless mode 4 with BG2 on.
pub open spec fn spec_mode4_raw(p: Ppu, palette: Seq<u8>, vram: Seq<u8>, i: int) -> u16 {
    if spec_mode(p) == MODE_4 && spec_bg2_enabled(p) { spec_mode4_pixel(p, palette, vram, px(i), py(i)) } else { 0 }
}

/// The mode 5 frame before colour conversion: black unless mode 5 with BG2 on.
pub open spec fn spec_mode5_raw(p: Ppu, vram: Seq<u8>, i: int) -> u16 {
    if spec_mode(p) == MODE_5 && spec_bg2_enabled(p) { spec_mode5_pixel(p, vram, px(i), py(i)) } else { 0 }
}

/// `frame` holds the ARGB8888 conversion of each of the `FRAME_PIXELS` raw colours of `raw`.
pub open spec fn converts(frame: Seq<u32>, raw: Seq<u16>) -> bool {
    &&& frame.len() == raw.len()
    &&& forall|i: int| 0 <= i < raw.len() ==> #[trigger] frame[i] == spec_argb(raw[i])
}

/// Pixel `i` of a frame lies at column `px(i)` of row `py(i)`.
pub proof fn lemma_pixel_coords(i: int)
    requires
        0 <= i < 38400,
    ensures
        0 <= px(i) < 240,
        0 <= py(i) < 160,
        i == py(i) * 240 + px(i),
{
    vstd::arithmetic::div_mod::lemma_fundamental_div_mod(i, 240);
}

/// Column `x` of row `y` is pixel `y * 240 + x` of a frame.
pub proof fn lemma_pixel_index(x: int, y: int)
    requires
        0 <= x < 240,
        0 <= y < 160,
    ensures
        px(y * 240 + x) == x,
        py(y * 240 + x) == y,
        0 <= y * 240 + x < 38400,
{
    vstd::arithmetic::div_mod::lemma_fundamental_div_mod_converse(y * 240 + x, 240, y, x);
}

/// Converts a raw BGR555 frame to ARGB8888.
fn convert_frame(raw: &Vec<u16>) -> (r: Vec<u32>)
    ensures
        converts(r@, raw@),
{
    let mut out: Vec<u32> = Vec::with_capacity(raw.len());
    let mut i: usize = 0;
    while i < raw.len()
        invariant
            i <= raw.len(),
            out@.len() == i,
            forall|j: int| 0 <= j < i ==> #[trigger] out@[j] == spec_argb(raw@[j]),
        decreases raw.len() - i,
    {
        out.push(bgr555_to_argb8888(raw[i]));
        i += 1;
    }
    out
}


impl Ppu {
    fn bg2_bitmap_source_pixel(&self, x: usize, y: usize, bitmap_width: usize, bitmap_height: usize)
        -> (r: Option<(usize, usize)>)
        requires
            x < 240,
            y < 160,
            bitmap_width <= 240,
            bitmap_height <= 160,
        ensures
            match r {
                Some((a, b)) => spec_bg2_source(*self, x as int, y as int, bitmap_width as int, bitmap_height as int)
                    == Some((a as int, b as int)) && a < bitmap_width && b < bitmap_height,
                None => spec_bg2_source(*self, x as int, y as int, bitmap_width as int, bitmap_height as int) is None,
            },
    {
        let mosaic_on = self.bgcnt[2] & BG_MOSAIC != 0;
        let (screen_x, screen_y) = if !mosaic_on {
            (x, y)
        } else {
            proof {
                lemma_bits_u16(self.mosaic, 0x000f, 0);
                lemma_bits_u16(self.mosaic >> 4u16, 0x000f, 0);
            }
            let mosaic_width = (self.mosaic & 0x000f) as usize + 1;
            let mosaic_height = ((self.mosaic >> 4) & 0x000f) as usize + 1;
            proof {
                vstd::arithmetic::div_mod::lemma_fundamental_div_mod(x as int, mosaic_width as int);
                vstd::arithmetic::div_mod::lemma_fundamental_div_mod(y as int, mosaic_height as int);
                assert(x as int / mosaic_width as int * mosaic_width as int == mosaic_width as int * (x as int / mosaic_width as int)) by (nonlinear_arith);
                assert(y as int / mosaic_height as int * mosaic_height as int == mosaic_height as int * (y as int / mosaic_height as int)) by (nonlinear_arith);
            }
            (x / mosaic_width * mosaic_width, y / mosaic_height * mosaic_height)
        };
        let source_x = affine_source_coord(self.bgx[0], self.bgpa[0], self.bgpb[0], screen_x, screen_y);
        let source_y = affine_source_coord(self.bgy[0], self.bgpc[0], self.bgpd[0], screen_x, screen_y);
        if source_x < 0 || source_y < 0 || source_x >= bitmap_width as i32 || source_y >= bitmap_height as i32 {
            return None;
        }
        Some((source_x as usize, source_y as usize))
    }

    fn raw_mode3(&self, vram: &[u8]) -> (r: Vec<u16>)
        requires
            spec_mode(*self) == MODE_3 && spec_bg2_enabled(*self) ==> mode3_reads_ok(*self, vram@),
        ensures
            r@.len() == FRAME_PIXELS,
            forall|i: int| 0 <= i < FRAME_PIXELS ==> #[trigger] r@[i] == spec_mode3_raw(*self, vram@, i),
    {
        let active = (self.dispcnt & DISPCNT_MODE_MASK) == MODE_3 && (self.dispcnt & BG2_ENABLE) != 0;
        let mut frame: Vec<u16> = Vec::with_capacity(FRAME_PIXELS);
        let mut i: usize = 0;
        while i < FRAME_PIXELS
            invariant
                i <= FRAME_PIXELS,
                active == (spec_mode(*self) == MODE_3 && spec_bg2_enabled(*self)),
                active ==> mode3_reads_ok(*self, vram@),
                frame@.len() == i,
                forall|j: int| 0 <= j < i ==> #[trigger] frame@[j] == spec_mode3_raw(*self, vram@, j),
            decreases FRAME_PIXELS - i,
        {
            let x = i % WIDTH;
            let y = i / WIDTH;
            let mut color: u16 = 0;
            if active {
                assert(mode3_read_ok(*self, vram@, x as int, y as int));
                if let Some((source_x, source_y)) = self.bg2_bitmap_source_pixel(x, y, WIDTH, HEIGHT) {
                    color = read_u16(vram, (source_y * WIDTH + source_x) * 2);
                }
            }
            frame.push(color);
            i += 1;
        }
        frame
    }

    /// Draws a mode 3 frame: BG2 shows the 16-bit bitmap in VRAM (black
    /// when not in mode 3 with BG2 on).
    pub fn render_mode3(&self, vram: &[u8]) -> (r: FrameBuffer)
        requires
            spec_mode(*self) == MODE_3 && spec_bg2_enabled(*self) ==> mode3_reads_ok(*self, vram@),
        ensures
            r@.len() == FRAME_PIXELS,
            forall|i: int| 0 <= i < FRAME_PIXELS ==> #[trigger] r@[i] == spec_argb(spec_mode3_raw(*self, vram@, i)),
    {
        let raw = self.raw_mode3(vram);
        convert_frame(&raw)
    }

    fn raw_mode4(&self, palette: &[u8], vram: &[u8]) -> (r: Vec<u16>)
        requires
            spec_mode(*self) == MODE_4 && spec_bg2_enabled(*self) ==> mode4_reads_ok(*self, palette@, vram@),
        ensures
            r@.len() == FRAME_PIXELS,
            forall|i: int| 0 <= i < FRAME_PIXELS ==> #[trigger] r@[i] == spec_mode4_raw(*self, palette@, vram@, i),
    {
        let active = (self.dispcnt & DISPCNT_MODE_MASK) == MODE_4 && (self.dispcnt & BG2_ENABLE) != 0;
        let page_offset: usize = if self.dispcnt & BACKBUFFER != 0 { BITMAP_PAGE_SIZE } else { 0 };
        let mut frame: Vec<u16> = Vec::with_capacity(FRAME_PIXELS);
        let mut i: usize = 0;
        while i < FRAME_PIXELS
            invariant
                i <= FRAME_PIXELS,
                active == (spec_mode(*self) == MODE_4 && spec_bg2_enabled(*self)),
                active ==> mode4_reads_ok(*self, palette@, vram@),
                page_offset == spec_page(*self),
                frame@.len() == i,
                forall|j: int| 0 <= j < i ==> #[trigger] frame@[j] == spec_mode4_raw(*self, palette@, vram@, j),
            decreases FRAME_PIXELS - i,
        {
            let x = i % WIDTH;
            let y = i / WIDTH;
            let mut color: u16 = 0;
            if active {
                assert(mode4_read_ok(*self, palette@, vram@, x as int, y as int));
                if let Some((source_x, source_y)) = self.bg2_bitmap_source_pixel(x, y, WIDTH, HEIGHT) {
                    let color_index = vram[page_offset + source_y * WIDTH + source_x] as usize;
                    color = read_u16(palette, color_index * 2);
                }
            }
            frame.push(color);
            i += 1;
        }
        frame
    }

    /// Draws a mode 4 frame: BG2 shows the selected 8-bit paletted bitmap.
    pub fn render_mode4(&self, palette: &[u8], vram: &[u8]) -> (r: FrameBuffer)
        requires
            spec_mode(*self) == MODE_4 && spec_bg2_enabled(*self) ==> mode4_reads_ok(*self, palette@, vram@),
        ensures
            r@.len() == FRAME_PIXELS,
            forall|i: int| 0 <= i < FRAME_PIXELS ==> #[trigger] r@[i] == spec_argb(spec_mode4_raw(*self, palette@, vram@, i)),
    {
        let raw = self.raw_mode4(palette, vram);
        convert_frame(&raw)
    }

    fn raw_mode5(&self, vram: &[u8]) -> (r: Vec<u16>)
        requires
            spec_mode(*self) == MODE_5 && spec_bg2_enabled(*self) ==> mode5_reads_ok(*self, vram@),
        ensures
            r@.len() == FRAME_PIXELS,
            forall|i: int| 0 <= i < FRAME_PIXELS ==> #[trigger] r@[i] == spec_mode5_raw(*self, vram@, i),
    {
        let active = (self.dispcnt & DISPCNT_MODE_MASK) == MODE_5 && (self.dispcnt & BG2_ENABLE) != 0;
        let page_offset: usize = if self.dispcnt & BACKBUFFER != 0 { BITMAP_PAGE_SIZE } else { 0 };
        let mut frame: Vec<u16> = Vec::with_capacity(FRAME_PIXELS);
        let mut i: usize = 0;
        while i < FRAME_PIXELS
            invariant
                i <= FRAME_PIXELS,
                active == (spec_mode(*self) == MODE_5 && spec_bg2_enabled(*self)),
                active ==> mode5_reads_ok(*self, vram@),
                page_offset == spec_page(*self),
                frame@.len() == i,
                forall|j: int| 0 <= j < i ==> #[trigger] frame@[j] == spec_mode5_raw(*self, vram@, j),
            decreases FRAME_PIXELS - i,
        {
            let x = i % WIDTH;
            let y = i / WIDTH;
            let mut color: u16 = 0;
            if active && x < MODE5_WIDTH && y < MODE5_HEIGHT {
                assert(mode5_read_ok(*self, vram@, x as int, y as int));
                if let Some((source_x, source_y)) = self.bg2_bitmap_source_pixel(x, y, MODE5_WIDTH, MODE5_HEIGHT) {
                    color = read_u16(vram, page_offset + (source_y * MODE5_WIDTH + source_x) * 2);
                }
            }
            frame.push(color);
            i += 1;
        }
        frame
    }

    /// Draws a mode 5 frame: BG2 shows the selected 160x128 16-bit bitmap.
    pub fn render_mode5(&self, vram: &[u8]) -> (r: FrameBuffer)
        requires
            spec_mode(*self) == MODE_5 && spec_bg2_enabled(*self) ==> mode5_reads_ok(*self, vram@),
        ensures
            r@.len() == FRAME_PIXELS,
            forall|i: int| 0 <= i < FRAME_PIXELS ==> #[trigger] r@[i] == spec_argb(spec_mode5_raw(*self, vram@, i)),
    {
        let raw = self.raw_mode5(vram);
        convert_frame(&raw)
    }
}


// ---------------------------------------------------------------------------
// Mode 0: tiled backgrounds, windows and colour effects

/// DISPCNT enable bit of background `bg`.
pub open spec fn spec_bg_enable_bit(bg: int) -> u16 {
    if bg == 0 { BG0_ENABLE } else if bg == 1 { BG1_ENABLE } else if bg == 2 { BG2_ENABLE } else { BG3_ENABLE }
}

/// Window-mask and colour-effect target bit of background `bg`.
pub open spec fn spec_layer_bit(bg: int) -> u16 {
    if bg == 0 { WIN_LAYER_BG0 } else if bg == 1 { WIN_LAYER_BG1 } else if bg == 2 { WIN_LAYER_BG2 } else { WIN_LAYER_BG3 }
}

fn bg_enable_bit(bg: usize) -> (r: u16)
    ensures
        r == spec_bg_enable_bit(bg as int),
{
    if bg == 0 { BG0_ENABLE } else if bg == 1 { BG1_ENABLE } else if bg == 2 { BG2_ENABLE } else { BG3_ENABLE }
}

fn layer_bit(bg: usize) -> (r: u16)
    ensures
        r == spec_layer_bit(bg as int),
{
    if bg == 0 { WIN_LAYER_BG0 } else if bg == 1 { WIN_LAYER_BG1 } else if bg == 2 { WIN_LAYER_BG2 } else { WIN_LAYER_BG3 }
}

/// Size in pixels of a text background (BGnCNT bits 14-15).
pub open spec fn spec_text_bg_size(bgcnt: u16) -> (int, int) {
    let s = (bgcnt >> 14u16) & 0x3;
    if s == 0 { (256, 256) } else if s == 1 { (512, 256) } else if s == 2 { (256, 512) } else { (512, 512) }
}

fn text_bg_size(bgcnt: u16) -> (r: (usize, usize))
    ensures
        r.0 as int == spec_text_bg_size(bgcnt).0,
        r.1 as int == spec_text_bg_size(bgcnt).1,
        r.0 == 256 || r.0 == 512,
        r.1 == 256 || r.1 == 512,
{
    let s = (bgcnt >> 14) & 0x3;
    if s == 0 { (256, 256) } else if s == 1 { (512, 256) } else if s == 2 { (256, 512) } else { (512, 512) }
}

/// The colour number at background point `(bg_x, bg_y)` of a text
/// background: its 32x32 screen block (several of them for 512-pixel
/// backgrounds) gives the tile map entry, whose tile number and flip bits
/// select the pixel of an 8x8 tile; 4bpp tiles add the entry's palette bank.
/// `None` for colour 0 (transparent) or where VRAM is too short.
pub open spec fn spec_text_bg_color_index(
    vram: Seq<u8>,
    char_base: int,
    screen_base: int,
    is_8bpp: bool,
    bg_width: int,
    bg_x: int,
    bg_y: int,
) -> Option<u16> {
    let tile_x = bg_x / 8;
    let tile_y = bg_y / 8;
    let screen_block = if bg_width > 256 {
        if bg_y >= 256 { 2 + tile_x / 32 } else { tile_x / 32 }
    } else {
        if bg_y >= 256 { 1 } else { 0 }
    };
    let map_offset = screen_base + screen_block * 0x800 + ((tile_y % 32) * 32 + tile_x % 32) * 2;
    if map_offset + 1 >= vram.len() {
        None
    } else {
        let entry = le16(vram, map_offset);
        let tile_number = (entry & 0x03ff) as int;
        let pixel_x = if entry & 0x0400 != 0 { 7 - bg_x % 8 } else { bg_x % 8 };
        let pixel_y = if entry & 0x0800 != 0 { 7 - bg_y % 8 } else { bg_y % 8 };
        if is_8bpp {
            let offset = char_base + tile_number * 64 + pixel_y * 8 + pixel_x;
            if offset >= vram.len() || vram[offset] == 0 { None } else { Some(vram[offset] as u16) }
        } else {
            let offset = char_base + tile_number * 32 + (pixel_y * 8 + pixel_x) / 2;
            if offset >= vram.len() {
                None
            } else {
                let color = if pixel_x % 2 == 0 { vram[offset] & 0x0f } else { vram[offset] >> 4u8 };
                if color == 0 { None } else { Some((((entry >> 12u16) & 0x0f) as int * 16 + color as int) as u16) }
            }
        }
    }
}

/// Horizontal offset of background `bg` on line `y`.
pub open spec fn spec_hofs_at(p: Ppu, bg: int, y: int) -> u16 {
    if p.bghofs_scanline_valid@[bg] { p.bghofs_scanline@[bg * 160 + y] } else { p.bghofs@[bg] }
}

/// Vertical offset of background `bg` on line `y`.
pub open spec fn spec_vofs_at(p: Ppu, bg: int, y: int) -> u16 {
    if p.bgvofs_scanline_valid@[bg] { p.bgvofs_scanline@[bg * 160 + y] } else { p.bgvofs@[bg] }
}

/// The colour that text background `bg` shows at screen `(x, y)`, or `None`
/// where it is transparent there.
pub open spec fn spec_text_bg_pixel(p: Ppu, bg: int, x: int, y: int, palette: Seq<u8>, vram: Seq<u8>) -> Option<u16> {
    let bgcnt = p.bgcnt@[bg];
    let char_base = ((bgcnt >> 2u16) & 0x3) as int * 0x4000;
    let screen_base = ((bgcnt >> 8u16) & 0x1f) as int * 0x800;
    let is_8bpp = bgcnt & 0x0080 != 0;
    let (w, h) = spec_text_bg_size(bgcnt);
    let bg_x = (x + spec_hofs_at(p, bg, y)) % w;
    let bg_y = (y + spec_vofs_at(p, bg, y)) % h;
    match spec_text_bg_color_index(vram, char_base, screen_base, is_8bpp, w, bg_x, bg_y) {
        None => None,
        Some(ci) => if ci == 0 || ci as int * 2 + 1 >= palette.len() { None } else { Some(le16(palette, ci as int * 2)) },
    }
}

/// Layers are searched by key `k = priority * 4 + bg`, i.e. in order of
/// BGnCNT priority and then background number. This is background `k % 4`
/// if its priority is `k / 4`, it is enabled in DISPCNT and in `mask`, and it
/// is not transparent at `(x, y)`.
pub open spec fn spec_bg_layer(p: Ppu, palette: Seq<u8>, vram: Seq<u8>, mask: u16, k: int, x: int, y: int) -> Option<u16> {
    let bg = k % 4;
    if (p.bgcnt@[bg] & 0x3) as int == k / 4 && p.dispcnt & spec_bg_enable_bit(bg) != 0
        && mask & spec_layer_bit(bg) != 0 {
        spec_text_bg_pixel(p, bg, x, y, palette, vram)
    } else {
        None
    }
}

/// The first visible background layer at `(x, y)` with key `k` or later,
/// with its key.
pub open spec fn spec_first_layer(p: Ppu, palette: Seq<u8>, vram: Seq<u8>, mask: u16, k: int, x: int, y: int)
    -> Option<(int, u16)>
    decreases 16 - k,
{
    if k >= 16 || k < 0 {
        None
    } else {
        match spec_bg_layer(p, palette, vram, mask, k, x, y) {
            Some(c) => Some((k, c)),
            None => spec_first_layer(p, palette, vram, mask, k + 1, x, y),
        }
    }
}

pub open spec fn spec_windows_enabled(p: Ppu) -> bool {
    p.dispcnt & (WIN0_ENABLE | WIN1_ENABLE | OBJ_WIN_ENABLE) != 0
}

/// Window `w` covers `[left, right) x [top, bottom)`, its edges taken from
/// WINnH / WINnV and clamped to the screen.
pub open spec fn spec_window_contains(p: Ppu, w: int, x: int, y: int) -> bool {
    let left = spec_min(((p.winh@[w] >> 8u16) & 0xff) as int, 240);
    let right = spec_min((p.winh@[w] & 0xff) as int, 240);
    let top = spec_min(((p.winv@[w] >> 8u16) & 0xff) as int, 160);
    let bottom = spec_min((p.winv@[w] & 0xff) as int, 160);
    x >= left && x < right && y >= top && y < bottom
}

/// The enabled layers at `(x, y)`: WININ's low byte inside window 0, its
/// high byte inside window 1 (window 0 first), WINOUT elsewhere.
pub open spec fn spec_window_mask(p: Ppu, x: int, y: int) -> u16 {
    if p.dispcnt & WIN0_ENABLE != 0 && spec_window_contains(p, 0, x, y) {
        p.winin & 0x003f
    } else if p.dispcnt & WIN1_ENABLE != 0 && spec_window_contains(p, 1, x, y) {
        (p.winin >> 8u16) & 0x003f
    } else {
        p.winout & WIN_MASK_ALL
    }
}

/// All layers and effects are enabled where no window is enabled.
pub open spec fn spec_pixel_mask(p: Ppu, x: int, y: int) -> u16 {
    if spec_windows_enabled(p) { spec_window_mask(p, x, y) } else { WIN_MASK_ALL }
}

/// The colour effect of BLDCNT applied to the top layer (colour and target
/// bit) and the layer below it, if any.
pub open spec fn spec_apply_blend(p: Ppu, top_color: u16, top_layer: u16, lower: Option<(u16, u16)>) -> u16 {
    let mode = (p.bldcnt >> 6u16) & 0x3;
    let top_targets = p.bldcnt & 0x003f;
    let lower_targets = (p.bldcnt >> 8u16) & 0x003f;
    if mode == 0 || top_targets & top_layer == 0 {
        top_color
    } else if mode == BLEND_MODE_ALPHA {
        match lower {
            None => top_color,
            Some((lower_color, lower_layer)) => if lower_targets & lower_layer == 0 {
                top_color
            } else {
                spec_alpha_blend(
                    top_color,
                    lower_color,
                    spec_min((p.bldalpha & 0x001f) as int, 16),
                    spec_min(((p.bldalpha >> 8u16) & 0x001f) as int, 16),
                )
            },
        }
    } else if mode == BLEND_MODE_LIGHTEN {
        spec_brightness_blend(top_color, (p.bldy & 0x001f) as int, true)
    } else if mode == BLEND_MODE_DARKEN {
        spec_brightness_blend(top_color, (p.bldy & 0x001f) as int, false)
    } else {
        top_color
    }
}

/// Palette entry 0, the backdrop colour (black when the palette is too short).
pub open spec fn spec_backdrop(palette: Seq<u8>) -> u16 {
    if 1 < palette.len() { le16(palette, 0) } else { 0 }
}

/// A mode 0 screen pixel: the first visible background in priority order
/// (or the backdrop) on top, blended with the next one (or the backdrop)
/// where the window mask enables colour effects.
pub open spec fn spec_mode0_pixel(p: Ppu, palette: Seq<u8>, vram: Seq<u8>, x: int, y: int) -> u16 {
    let mask = spec_pixel_mask(p, x, y);
    let backdrop = spec_backdrop(palette);
    let effects = !spec_windows_enabled(p) || mask & WIN_LAYER_EFFECT != 0;
    match spec_first_layer(p, palette, vram, mask, 0, x, y) {
        Some((k, c)) => {
            let lower = match spec_first_layer(p, palette, vram, mask, k + 1, x, y) {
                Some((k2, c2)) => (c2, spec_layer_bit(k2 % 4)),
                None => (backdrop, BLEND_LAYER_BACKDROP),
            };
            if effects { spec_apply_blend(p, c, spec_layer_bit(k % 4), Some(lower)) } else { c }
        },
        None => if effects { spec_apply_blend(p, backdrop, BLEND_LAYER_BACKDROP, None) } else { backdrop },
    }
}

/// The mode 0 frame before colour conversion: all backdrop unless in mode 0.
pub open spec fn spec_mode0_raw(p: Ppu, palette: Seq<u8>, vram: Seq<u8>, i: int) -> u16 {
    if spec_mode(p) == MODE_0 { spec_mode0_pixel(p, palette, vram, px(i), py(i)) } else { spec_backdrop(palette) }
}

/// A pixel of a mode 0 scanline: the first enabled, non-transparent
/// background in priority order, else the backdrop; no windows or effects.
pub open spec fn spec_scanline_pixel(p: Ppu, palette: Seq<u8>, vram: Seq<u8>, x: int, y: int) -> u16 {
    if spec_mode(p) != MODE_0 {
        spec_backdrop(palette)
    } else {
        match spec_first_layer(p, palette, vram, WIN_MASK_ALL, 0, x, y) {
            Some((_k, c)) => c,
            None => spec_backdrop(palette),
        }
    }
}

fn text_bg_color_index(
    vram: &[u8],
    char_base: usize,
    screen_base: usize,
    is_8bpp: bool,
    bg_width: usize,
    bg_x: usize,
    bg_y: usize,
) -> (r: Option<u16>)
    requires
        char_base <= 0xC000,
        screen_base <= 0xF800,
        bg_width == 256 || bg_width == 512,
        bg_x < 512,
        bg_y < 512,
    ensures
        r == spec_text_bg_color_index(vram@, char_base as int, screen_base as int, is_8bpp, bg_width as int, bg_x as int, bg_y as int),
{
    let tile_x = bg_x / BG_TILE_SIZE;
    let tile_y = bg_y / BG_TILE_SIZE;
    let screen_block: usize = if bg_width > 256 {
        if bg_y >= 256 { 2 + tile_x / 32 } else { tile_x / 32 }
    } else {
        if bg_y >= 256 { 1 } else { 0 }
    };
    let map_x = tile_x % 32;
    let map_y = tile_y % 32;
    let map_offset = screen_base + screen_block * SCREEN_BLOCK_SIZE + (map_y * 32 + map_x) * 2;
    let entry = match read_u16_checked(vram, map_offset) {
        Some(entry) => entry,
        None => return None,
    };
    proof { lemma_bits_u16(entry, 0x03ff, 0); }
    let tile_number = (entry & 0x03ff) as usize;
    let mut pixel_x = bg_x % BG_TILE_SIZE;
    let mut pixel_y = bg_y % BG_TILE_SIZE;
    if entry & 0x0400 != 0 {
        pixel_x = BG_TILE_SIZE - 1 - pixel_x;
    }
    if entry & 0x0800 != 0 {
        pixel_y = BG_TILE_SIZE - 1 - pixel_y;
    }
    if is_8bpp {
        let tile_offset = char_base + tile_number * 64 + pixel_y * BG_TILE_SIZE + pixel_x;
        if tile_offset >= vram.len() {
            return None;
        }
        let color = vram[tile_offset];
        if color == 0 { None } else { Some(color as u16) }
    } else {
        let tile_offset = char_base + tile_number * 32 + (pixel_y * BG_TILE_SIZE + pixel_x) / 2;
        if tile_offset >= vram.len() {
            return None;
        }
        let byte = vram[tile_offset];
        let color = if pixel_x % 2 == 0 { byte & 0x0f } else { byte >> 4 };
        if color == 0 {
            None
        } else {
            proof { lemma_bits_u16(entry >> 12u16, 0x0f, 0); }
            Some(((entry >> 12) & 0x0f) * 16 + color as u16)
        }
    }
}

#[derive(Clone, Copy)]
struct RenderedLayer {
    color: u16,
    blend_layer: u16,
}

impl Ppu {
    fn text_bg_pixel_raw(&self, bg: usize, screen_x: usize, screen_y: usize, palette: &[u8], vram: &[u8]) -> (r: Option<u16>)
        requires
            bg < 4,
            screen_x < 240,
            screen_y < 160,
        ensures
            r == spec_text_bg_pixel(*self, bg as int, screen_x as int, screen_y as int, palette@, vram@),
    {
        let bgcnt = self.bgcnt[bg];
        proof {
            lemma_bits_u16(bgcnt >> 2u16, 0x3, 0);
            lemma_bits_u16(bgcnt >> 8u16, 0x1f, 0);
        }
        let char_base = ((bgcnt >> 2) & 0x3) as usize * CHAR_BLOCK_SIZE;
        let screen_base = ((bgcnt >> 8) & 0x1f) as usize * SCREEN_BLOCK_SIZE;
        let is_8bpp = bgcnt & 0x0080 != 0;
        let (bg_width, bg_height) = text_bg_size(bgcnt);
        let hofs = if self.bghofs_scanline_valid[bg] {
            self.bghofs_scanline[bg * HEIGHT + screen_y]
        } else {
            self.bghofs[bg]
        };
        let vofs = if self.bgvofs_scanline_valid[bg] {
            self.bgvofs_scanline[bg * HEIGHT + screen_y]
        } else {
            self.bgvofs[bg]
        };
        let bg_x = (screen_x + hofs as usize) % bg_width;
        let bg_y = (screen_y + vofs as usize) % bg_height;
        let color_index = match text_bg_color_index(vram, char_base, screen_base, is_8bpp, bg_width, bg_x, bg_y) {
            Some(ci) => ci,
            None => return None,
        };
        if color_index == 0 {
            return None;
        }
        read_u16_checked(palette, color_index as usize * 2)
    }

    fn bg_layer_color(&self, palette: &[u8], vram: &[u8], mask: u16, key: usize, x: usize, y: usize) -> (r: Option<u16>)
        requires
            key < 16,
            x < 240,
            y < 160,
        ensures
            r == spec_bg_layer(*self, palette@, vram@, mask, key as int, x as int, y as int),
    {
        let bg = key % 4;
        if (self.bgcnt[bg] & 0x3) as usize == key / 4 && self.dispcnt & bg_enable_bit(bg) != 0
            && mask & layer_bit(bg) != 0 {
            self.text_bg_pixel_raw(bg, x, y, palette, vram)
        } else {
            None
        }
    }

    fn first_bg_layer(&self, palette: &[u8], vram: &[u8], mask: u16, from: usize, x: usize, y: usize)
        -> (r: Option<(usize, u16)>)
        requires
            from <= 16,
            x < 240,
            y < 160,
        ensures
            match r {
                Some((k, c)) => spec_first_layer(*self, palette@, vram@, mask, from as int, x as int, y as int)
                    == Some((k as int, c)) && from <= k < 16,
                None => spec_first_layer(*self, palette@, vram@, mask, from as int, x as int, y as int) is None,
            },
    {
        let mut key = from;
        while key < 16
            invariant
                from <= key <= 16,
                x < 240,
                y < 160,
                spec_first_layer(*self, palette@, vram@, mask, from as int, x as int, y as int)
                    == spec_first_layer(*self, palette@, vram@, mask, key as int, x as int, y as int),
            decreases 16 - key,
        {
            if let Some(color) = self.bg_layer_color(palette, vram, mask, key, x, y) {
                return Some((key, color));
            }
            key += 1;
        }
        None
    }

    fn windows_enabled(&self) -> (r: bool)
        ensures
            r == spec_windows_enabled(*self),
    {
        self.dispcnt & (WIN0_ENABLE | WIN1_ENABLE | OBJ_WIN_ENABLE) != 0
    }

    fn window_contains(&self, window: usize, x: usize, y: usize) -> (r: bool)
        requires
            window < 2,
        ensures
            r == spec_window_contains(*self, window as int, x as int, y as int),
    {
        let l = ((self.winh[window] >> 8) & 0xff) as usize;
        let r = (self.winh[window] & 0xff) as usize;
        let t = ((self.winv[window] >> 8) & 0xff) as usize;
        let b = (self.winv[window] & 0xff) as usize;
        let left = if l < WIDTH { l } else { WIDTH };
        let right = if r < WIDTH { r } else { WIDTH };
        let top = if t < HEIGHT { t } else { HEIGHT };
        let bottom = if b < HEIGHT { b } else { HEIGHT };
        x >= left && x < right && y >= top && y < bottom
    }

    fn window_mask(&self, x: usize, y: usize) -> (r: u16)
        ensures
            r == spec_window_mask(*self, x as int, y as int),
    {
        if self.dispcnt & WIN0_ENABLE != 0 && self.window_contains(0, x, y) {
            self.winin & 0x003f
        } else if self.dispcnt & WIN1_ENABLE != 0 && self.window_contains(1, x, y) {
            (self.winin >> 8) & 0x003f
        } else {
            self.winout & WIN_MASK_ALL
        }
    }

    fn apply_blend(&self, top: RenderedLayer, lower: Option<RenderedLayer>) -> (r: u16)
        ensures
            r == spec_apply_blend(*self, top.color, top.blend_layer, match lower {
                Some(l) => Some((l.color, l.blend_layer)),
                None => None,
            }),
    {
        let mode = (self.bldcnt >> 6) & 0x3;
        let top_targets = self.bldcnt & 0x003f;
        let lower_targets = (self.bldcnt >> 8) & 0x003f;

        if mode == 0 || top_targets & top.blend_layer == 0 {
            return top.color;
        }
        if mode == BLEND_MODE_ALPHA {
            let lower = match lower {
                Some(lower) => lower,
                None => return top.color,
            };
            if lower_targets & lower.blend_layer == 0 {
                return top.color;
            }
            let a = self.bldalpha & 0x001f;
            let b = (self.bldalpha >> 8) & 0x001f;
            let eva = if a < 16 { a } else { 16 };
            let evb = if b < 16 { b } else { 16 };
            alpha_blend(top.color, lower.color, eva, evb)
        } else if mode == BLEND_MODE_LIGHTEN {
            brightness_blend(top.color, self.bldy & 0x001f, true)
        } else if mode == BLEND_MODE_DARKEN {
            brightness_blend(top.color, self.bldy & 0x001f, false)
        } else {
            top.color
        }
    }

    fn mode0_pixel(&self, palette: &[u8], vram: &[u8], x: usize, y: usize, backdrop: u16) -> (r: u16)
        requires
            x < 240,
            y < 160,
            backdrop == spec_backdrop(palette@),
        ensures
            r == spec_mode0_pixel(*self, palette@, vram@, x as int, y as int),
    {
        let windows = self.windows_enabled();
        let mask = if windows { self.window_mask(x, y) } else { WIN_MASK_ALL };
        let effects_enabled = !windows || mask & WIN_LAYER_EFFECT != 0;
        let backdrop_layer = RenderedLayer { color: backdrop, blend_layer: BLEND_LAYER_BACKDROP };
        match self.first_bg_layer(palette, vram, mask, 0, x, y) {
            Some((key, color)) => {
                let top = RenderedLayer { color, blend_layer: layer_bit(key % 4) };
                let lower = match self.first_bg_layer(palette, vram, mask, key + 1, x, y) {
                    Some((key2, color2)) => RenderedLayer { color: color2, blend_layer: layer_bit(key2 % 4) },
                    None => backdrop_layer,
                };
                if effects_enabled { self.apply_blend(top, Some(lower)) } else { top.color }
            },
            None => {
                if effects_enabled { self.apply_blend(backdrop_layer, None) } else { backdrop }
            },
        }
    }

    fn raw_mode0(&self, palette: &[u8], vram: &[u8]) -> (r: Vec<u16>)
        ensures
            r@.len() == FRAME_PIXELS,
            forall|i: int| 0 <= i < FRAME_PIXELS ==> #[trigger] r@[i] == spec_mode0_raw(*self, palette@, vram@, i),
    {
        let backdrop = match read_u16_checked(palette, 0) {
            Some(c) => c,
            None => 0,
        };
        let active = (self.dispcnt & DISPCNT_MODE_MASK) == MODE_0;
        let mut frame: Vec<u16> = Vec::with_capacity(FRAME_PIXELS);
        let mut i: usize = 0;
        while i < FRAME_PIXELS
            invariant
                i <= FRAME_PIXELS,
                active == (spec_mode(*self) == MODE_0),
                backdrop == spec_backdrop(palette@),
                frame@.len() == i,
                forall|j: int| 0 <= j < i ==> #[trigger] frame@[j] == spec_mode0_raw(*self, palette@, vram@, j),
            decreases FRAME_PIXELS - i,
        {
            let color = if active { self.mode0_pixel(palette, vram, i % WIDTH, i / WIDTH, backdrop) } else { backdrop };
            frame.push(color);
            i += 1;
        }
        frame
    }

    /// Draws a mode 0 frame from the text backgrounds (see
    /// `spec_mode0_pixel`); the backdrop in other modes.
    pub fn render_mode0(&self, palette: &[u8], vram: &[u8]) -> (r: FrameBuffer)
        ensures
            r@.len() == FRAME_PIXELS,
            forall|i: int| 0 <= i < FRAME_PIXELS ==> #[trigger] r@[i] == spec_argb(spec_mode0_raw(*self, palette@, vram@, i)),
    {
        let raw = self.raw_mode0(palette, vram);
        convert_frame(&raw)
    }

    /// Renders line `y` of mode 0 into the first `WIDTH` entries of `line`
    /// as BGR555 colours (no windows or effects); does nothing for lines past
    /// the screen or a `line` shorter than `WIDTH`.
    pub fn render_mode0_scanline(&self, y: usize, palette: &[u8], vram: &[u8], line: &mut Vec<u16>)
        ensures
            y >= HEIGHT || old(line)@.len() < WIDTH ==> final(line)@ == old(line)@,
            y < HEIGHT && old(line)@.len() >= WIDTH ==> {
                &&& final(line)@.len() == old(line)@.len()
                &&& forall|x: int| 0 <= x < WIDTH ==> #[trigger] final(line)@[x] == spec_scanline_pixel(*self, palette@, vram@, x, y as int)
                &&& forall|x: int| WIDTH <= x < old(line)@.len() ==> #[trigger] final(line)@[x] == old(line)@[x]
            },
    {
        if y >= HEIGHT || line.len() < WIDTH {
            return;
        }
        let backdrop = match read_u16_checked(palette, 0) {
            Some(c) => c,
            None => 0,
        };
        let active = (self.dispcnt & DISPCNT_MODE_MASK) == MODE_0;
        let ghost line0 = line@;
        let mut x: usize = 0;
        while x < WIDTH
            invariant
                x <= WIDTH,
                y < HEIGHT,
                line0.len() >= WIDTH,
                active == (spec_mode(*self) == MODE_0),
                backdrop == spec_backdrop(palette@),
                line@.len() == line0.len(),
                forall|j: int| 0 <= j < x ==> #[trigger] line@[j] == spec_scanline_pixel(*self, palette@, vram@, j, y as int),
                forall|j: int| x <= j < line0.len() ==> #[trigger] line@[j] == line0[j],
            decreases WIDTH - x,
        {
            let mut color = backdrop;
            if active {
                if let Some((_key, c)) = self.first_bg_layer(palette, vram, WIN_MASK_ALL, 0, x, y) {
                    color = c;
                }
            }
            line.set(x, color);
            x += 1;
        }
    }
}


// ---------------------------------------------------------------------------
// Sprites (OBJ)

/// Attribute `n` (0, 1 or 2) of OAM entry `i`.
pub open spec fn spec_obj_attr(oam: Seq<u8>, i: int, n: int) -> u16 {
    le16(oam, i * 8 + n * 2)
}

pub open spec fn spec_obj_is_affine(attr0: u16) -> bool {
    attr0 & 0x0100 != 0
}

/// Sprites that are drawn: not disabled (a non-affine sprite with bit 9
/// set), of normal mode (bits 10-11 clear), and 4bpp (bit 13 clear).
pub open spec fn spec_obj_eligible(attr0: u16) -> bool {
    &&& !(!spec_obj_is_affine(attr0) && attr0 & 0x0200 != 0)
    &&& (attr0 >> 10u16) & 0x3 == 0
    &&& attr0 & 0x2000 == 0
}

/// Priority of a sprite (attribute 2, bits 10-11); 0 is drawn on top.
pub open spec fn spec_obj_priority(attr2: u16) -> int {
    ((attr2 >> 10u16) & 0x3) as int
}

/// Width and height of a sprite from its shape (attribute 0, bits 14-15) and
/// size (attribute 1, bits 14-15).
pub open spec fn spec_obj_size(attr0: u16, attr1: u16) -> (int, int) {
    let shape = (attr0 >> 14u16) & 0x3;
    let size = (attr1 >> 14u16) & 0x3;
    if shape == 0 {
        if size == 0 { (8, 8) } else if size == 1 { (16, 16) } else if size == 2 { (32, 32) } else { (64, 64) }
    } else if shape == 1 {
        if size == 0 { (16, 8) } else if size == 1 { (32, 8) } else if size == 2 { (32, 16) } else { (64, 32) }
    } else if shape == 2 {
        if size == 0 { (8, 16) } else if size == 1 { (8, 32) } else if size == 2 { (16, 32) } else { (32, 64) }
    } else {
        (8, 8)
    }
}

/// The area a sprite covers on screen: twice its size for a double-size
/// affine sprite.
pub open spec fn spec_obj_draw_size(attr0: u16, attr1: u16) -> (int, int) {
    let (w, h) = spec_obj_size(attr0, attr1);
    if spec_obj_is_affine(attr0) && attr0 & 0x0200 != 0 { (w * 2, h * 2) } else { (w, h) }
}

/// A `bits`-bit two's-complement value.
pub open spec fn spec_sign_extend(value: int, bits: int) -> int {
    let half = if bits == 8 { 128int } else { 256int };
    if value >= half { value - 2 * half } else { value }
}

/// Screen position of a sprite's top-left corner: X is attribute 1 bits 0-8
/// and Y attribute 0 bits 0-7, both signed.
pub open spec fn spec_obj_origin(attr0: u16, attr1: u16) -> (int, int) {
    (spec_sign_extend((attr1 & 0x01ff) as int, 9), spec_sign_extend((attr0 & 0x00ff) as int, 8))
}

/// Affine parameter at byte `offset` of OAM parameter group `group`, signed;
/// `default` when OAM is too short to hold it.
pub open spec fn spec_oam_param(oam: Seq<u8>, group: int, offset: int, default: u16) -> int {
    spec_s16(if group * 32 + offset + 1 < oam.len() { le16(oam, group * 32 + offset) } else { default })
}

/// The affine matrix `(pa, pb, pc, pd)` of parameter group `group`.
pub open spec fn spec_obj_params(oam: Seq<u8>, group: int) -> (int, int, int, int) {
    (
        spec_oam_param(oam, group, 6, 0x0100),
        spec_oam_param(oam, group, 14, 0),
        spec_oam_param(oam, group, 22, 0),
        spec_oam_param(oam, group, 30, 0x0100),
    )
}

/// The sprite pixel shown at draw-area position `(x, y)`: itself for a plain
/// sprite; for an affine one, the matrix applied about the centres of the
/// draw area and the sprite. `None` outside the sprite.
pub open spec fn spec_obj_source(
    x: int,
    y: int,
    w: int,
    h: int,
    dw: int,
    dh: int,
    affine: bool,
    params: (int, int, int, int),
) -> Option<(int, int)> {
    if !affine {
        Some((x, y))
    } else {
        let (pa, pb, pc, pd) = params;
        let cx = x - dw / 2;
        let cy = y - dh / 2;
        let sx = (pa * cx + pb * cy) / 256 + w / 2;
        let sy = (pc * cx + pd * cy) / 256 + h / 2;
        if sx < 0 || sy < 0 || sx >= w || sy >= h { None } else { Some((sx, sy)) }
    }
}

/// Colour number of pixel `pixel_in_tile` of 4bpp tile `tile_number`, 0
/// when the tile does not fit in VRAM.
pub open spec fn spec_obj_4bpp_color(vram: Seq<u8>, base: int, tile_number: int, pixel_in_tile: int) -> u8 {
    let tile_offset = base + tile_number * 32;
    if tile_offset + 31 >= vram.len() {
        0
    } else {
        let b = vram[tile_offset + pixel_in_tile / 2];
        if pixel_in_tile % 2 == 0 { b & 0x0f } else { b >> 4u8 }
    }
}

/// Palette byte offset of the sprite with the given attributes at draw-area
/// position `(x, y)`, or `None` where it is transparent.
pub open spec fn spec_obj_draw_index(
    p: Ppu,
    vram: Seq<u8>,
    attr0: u16,
    attr1: u16,
    attr2: u16,
    params: (int, int, int, int),
    x: int,
    y: int,
) -> Option<int> {
    let (w, h) = spec_obj_size(attr0, attr1);
    let (dw, dh) = spec_obj_draw_size(attr0, attr1);
    match spec_obj_source(x, y, w, h, dw, dh, spec_obj_is_affine(attr0), params) {
        None => None,
        Some((sx, sy)) => {
            let row_stride = if p.dispcnt & OBJ_1D_MAPPING != 0 { w / 8 } else { 32 };
            let tile_number = (attr2 & 0x03ff) as int + (sy / 8) * row_stride + sx / 8;
            let ci = spec_obj_4bpp_color(vram, 0x10000, tile_number, (sy % 8) * 8 + sx % 8);
            if ci == 0 { None } else { Some(0x200 + (((attr2 >> 12u16) & 0x0f) as int * 16 + ci as int) * 2) }
        },
    }
}

/// Palette byte offset of the colour that sprite `i` draws at screen
/// `(sx, sy)`, or `None` where it draws nothing.
pub open spec fn spec_obj_palette_index(p: Ppu, vram: Seq<u8>, oam: Seq<u8>, i: int, sx: int, sy: int) -> Option<int> {
    let attr0 = spec_obj_attr(oam, i, 0);
    let attr1 = spec_obj_attr(oam, i, 1);
    let attr2 = spec_obj_attr(oam, i, 2);
    let (dw, dh) = spec_obj_draw_size(attr0, attr1);
    let (ox, oy) = spec_obj_origin(attr0, attr1);
    if spec_obj_eligible(attr0) && 0 <= sx - ox < dw && 0 <= sy - oy < dh && 0 <= sx < 240 && 0 <= sy < 160 {
        spec_obj_draw_index(p, vram, attr0, attr1, attr2, spec_obj_params(oam, ((attr1 >> 9u16) & 0x1f) as int), sx - ox, sy - oy)
    } else {
        None
    }
}

/// The colour sprite `i` draws at screen `(sx, sy)`.
pub open spec fn spec_obj_color(p: Ppu, palette: Seq<u8>, vram: Seq<u8>, oam: Seq<u8>, i: int, sx: int, sy: int) -> Option<u16> {
    match spec_obj_palette_index(p, vram, oam, i, sx, sy) {
        Some(pi) => Some(le16(palette, pi)),
        None => None,
    }
}

/// Sprites are searched by key `k = priority * 128 + i`: the colour of the
/// first sprite, from key `k` on, whose priority is `k / 128` and that draws
/// at `(sx, sy)`. From key 0 this is the sprite on top: lowest priority
/// value first, then lowest OAM index.
pub open spec fn spec_obj_top(p: Ppu, palette: Seq<u8>, vram: Seq<u8>, oam: Seq<u8>, k: int, sx: int, sy: int) -> Option<u16>
    decreases 512 - k,
{
    if k >= 512 || k < 0 {
        None
    } else if spec_obj_priority(spec_obj_attr(oam, k % 128, 2)) == k / 128 {
        match spec_obj_color(p, palette, vram, oam, k % 128, sx, sy) {
            Some(c) => Some(c),
            None => spec_obj_top(p, palette, vram, oam, k + 1, sx, sy),
        }
    } else {
        spec_obj_top(p, palette, vram, oam, k + 1, sx, sy)
    }
}

/// `c` where present, else `under`.
pub open spec fn spec_over(c: Option<u16>, under: u16) -> u16 {
    match c {
        Some(v) => v,
        None => under,
    }
}

/// The palette read for sprite `i` at screen `(sx, sy)` stays inside the palette.
pub open spec fn obj_palette_read_ok(p: Ppu, palette: Seq<u8>, vram: Seq<u8>, oam: Seq<u8>, i: int, sx: int, sy: int) -> bool {
    match spec_obj_palette_index(p, vram, oam, i, sx, sy) {
        Some(pi) => pi + 1 < palette.len(),
        None => true,
    }
}

/// Every read that sprite drawing makes stays inside OAM and the palette.
pub open spec fn obj_reads_ok(p: Ppu, palette: Seq<u8>, vram: Seq<u8>, oam: Seq<u8>) -> bool {
    &&& oam.len() >= 127 * 8 + 6
    &&& forall|i: int, sx: int, sy: int| 0 <= i < 128 && 0 <= sx < 240 && 0 <= sy < 160
        ==> #[trigger] obj_palette_read_ok(p, palette, vram, oam, i, sx, sy)
}

fn obj_size(attr0: u16, attr1: u16) -> (r: (usize, usize))
    ensures
        r.0 as int == spec_obj_size(attr0, attr1).0,
        r.1 as int == spec_obj_size(attr0, attr1).1,
        8 <= r.0 <= 64,
        8 <= r.1 <= 64,
{
    let shape = (attr0 >> 14) & 0x3;
    let size = (attr1 >> 14) & 0x3;
    if shape == 0 {
        if size == 0 { (8, 8) } else if size == 1 { (16, 16) } else if size == 2 { (32, 32) } else { (64, 64) }
    } else if shape == 1 {
        if size == 0 { (16, 8) } else if size == 1 { (32, 8) } else if size == 2 { (32, 16) } else { (64, 32) }
    } else if shape == 2 {
        if size == 0 { (8, 16) } else if size == 1 { (8, 32) } else if size == 2 { (16, 32) } else { (32, 64) }
    } else {
        (8, 8)
    }
}

/// Sign-extends an 8- or 9-bit field.
fn sign_extend(value: u16, bits: u32) -> (r: i32)
    requires
        bits == 8 || bits == 9,
        bits == 8 ==> value < 256,
        bits == 9 ==> value < 512,
    ensures
        r == spec_sign_extend(value as int, bits as int),
{
    let half: i32 = if bits == 8 { 128 } else { 256 };
    if value as i32 >= half { value as i32 - 2 * half } else { value as i32 }
}

fn oam_param(oam: &[u8], offset: usize, default: u16) -> (r: i64)
    requires
        offset < 0x10000,
    ensures
        r == spec_s16(if offset + 1 < oam@.len() { le16(oam@, offset as int) } else { default }),
{
    match read_u16_checked(oam, offset) {
        Some(v) => s16(v),
        None => s16(default),
    }
}

fn obj_affine_params(oam: &[u8], index: usize) -> (r: (i64, i64, i64, i64))
    requires
        index < 32,
    ensures
        r.0 as int == spec_obj_params(oam@, index as int).0,
        r.1 as int == spec_obj_params(oam@, index as int).1,
        r.2 as int == spec_obj_params(oam@, index as int).2,
        r.3 as int == spec_obj_params(oam@, index as int).3,
        -0x8000 <= r.0 < 0x8000,
        -0x8000 <= r.1 < 0x8000,
        -0x8000 <= r.2 < 0x8000,
        -0x8000 <= r.3 < 0x8000,
{
    let base = index * 32;
    (oam_param(oam, base + 6, 0x0100), oam_param(oam, base + 14, 0), oam_param(oam, base + 22, 0), oam_param(oam, base + 30, 0x0100))
}

fn obj_source_pixel(
    draw_x: usize,
    draw_y: usize,
    obj_width: usize,
    obj_height: usize,
    draw_width: usize,
    draw_height: usize,
    affine: Option<(i64, i64, i64, i64)>,
) -> (r: Option<(usize, usize)>)
    requires
        draw_x < 128,
        draw_y < 128,
        obj_width <= 64,
        obj_height <= 64,
        draw_width <= 128,
        draw_height <= 128,
        affine matches Some(m) ==> -0x8000 <= m.0 < 0x8000 && -0x8000 <= m.1 < 0x8000
            && -0x8000 <= m.2 < 0x8000 && -0x8000 <= m.3 < 0x8000,
    ensures
        match r {
            Some((a, b)) => (a < obj_width && b < obj_height) || (a == draw_x && b == draw_y),
            None => true,
        },
        ({
            let spec_r = spec_obj_source(
                draw_x as int, draw_y as int, obj_width as int, obj_height as int, draw_width as int,
                draw_height as int, affine is Some,
                match affine { Some(m) => (m.0 as int, m.1 as int, m.2 as int, m.3 as int), None => (0, 0, 0, 0) },
            );
            match r {
                Some((a, b)) => spec_r == Some((a as int, b as int)),
                None => spec_r is None,
            }
        }),
{
    let (pa, pb, pc, pd) = match affine {
        Some(m) => m,
        None => return Some((draw_x, draw_y)),
    };
    let x = draw_x as i64 - (draw_width as i64 / 2);
    let y = draw_y as i64 - (draw_height as i64 / 2);
    assert(-0x8000 * 128 <= pa * x <= 0x8000 * 128) by (nonlinear_arith)
        requires -0x8000 <= pa < 0x8000, -128 <= x <= 128;
    assert(-0x8000 * 128 <= pb * y <= 0x8000 * 128) by (nonlinear_arith)
        requires -0x8000 <= pb < 0x8000, -128 <= y <= 128;
    assert(-0x8000 * 128 <= pc * x <= 0x8000 * 128) by (nonlinear_arith)
        requires -0x8000 <= pc < 0x8000, -128 <= x <= 128;
    assert(-0x8000 * 128 <= pd * y <= 0x8000 * 128) by (nonlinear_arith)
        requires -0x8000 <= pd < 0x8000, -128 <= y <= 128;
    let source_x = floor_div256(pa * x + pb * y) + (obj_width as i64 / 2);
    let source_y = floor_div256(pc * x + pd * y) + (obj_height as i64 / 2);
    if source_x < 0 || source_y < 0 || source_x >= obj_width as i64 || source_y >= obj_height as i64 {
        return None;
    }
    Some((source_x as usize, source_y as usize))
}

fn obj_4bpp_color(vram: &[u8], base: usize, tile_number: usize, pixel_in_tile: usize) -> (r: u8)
    requires
        base <= 0x10000,
        tile_number < 0x10000,
        pixel_in_tile < 64,
    ensures
        r == spec_obj_4bpp_color(vram@, base as int, tile_number as int, pixel_in_tile as int),
{
    let tile_offset = base + tile_number * 32;
    if tile_offset + 31 >= vram.len() {
        return 0;
    }
    let color_byte = vram[tile_offset + pixel_in_tile / 2];
    if pixel_in_tile % 2 == 0 { color_byte & 0x0f } else { color_byte >> 4 }
}


/// `params` holds the affine matrix of an affine sprite (`None` otherwise).
pub open spec fn spec_params_match(params: Option<(i64, i64, i64, i64)>, attr0: u16, attr1: u16, oam: Seq<u8>) -> bool {
    if spec_obj_is_affine(attr0) {
        match params {
            Some(m) => (m.0 as int, m.1 as int, m.2 as int, m.3 as int) == spec_obj_params(oam, ((attr1 >> 9u16) & 0x1f) as int)
                && -0x8000 <= m.0 < 0x8000 && -0x8000 <= m.1 < 0x8000 && -0x8000 <= m.2 < 0x8000 && -0x8000 <= m.3 < 0x8000,
            None => false,
        }
    } else {
        params is None
    }
}

/// The pixel `pix` after sprite `i` has been drawn over the rows of its draw
/// area before `row`, and over the first `col` pixels of row `row`.
pub open spec fn spec_painted(
    p: Ppu,
    palette: Seq<u8>,
    vram: Seq<u8>,
    oam: Seq<u8>,
    i: int,
    ox: int,
    oy: int,
    row: int,
    col: int,
    under: Seq<u16>,
    pix: int,
) -> u16 {
    let dx = px(pix) - ox;
    let dy = py(pix) - oy;
    if dy < row || (dy == row && dx < col) {
        spec_over(spec_obj_color(p, palette, vram, oam, i, px(pix), py(pix)), under[pix])
    } else {
        under[pix]
    }
}

impl Ppu {
    fn obj_draw_index(
        &self,
        vram: &[u8],
        oam: &[u8],
        attr0: u16,
        attr1: u16,
        attr2: u16,
        params: Option<(i64, i64, i64, i64)>,
        x: usize,
        y: usize,
    ) -> (r: Option<usize>)
        requires
            x < spec_obj_draw_size(attr0, attr1).0,
            y < spec_obj_draw_size(attr0, attr1).1,
            spec_params_match(params, attr0, attr1, oam@),
        ensures
            match r {
                Some(v) => spec_obj_draw_index(*self, vram@, attr0, attr1, attr2,
                    spec_obj_params(oam@, ((attr1 >> 9u16) & 0x1f) as int), x as int, y as int) == Some(v as int),
                None => spec_obj_draw_index(*self, vram@, attr0, attr1, attr2,
                    spec_obj_params(oam@, ((attr1 >> 9u16) & 0x1f) as int), x as int, y as int) is None,
            },
            r matches Some(v) ==> v <= 0x3fe,
    {
        let (obj_width, obj_height) = obj_size(attr0, attr1);
        let affine = attr0 & 0x0100 != 0;
        let double_size = affine && attr0 & 0x0200 != 0;
        let (draw_width, draw_height) = if double_size {
            (obj_width * 2, obj_height * 2)
        } else {
            (obj_width, obj_height)
        };
        let (source_x, source_y) = match obj_source_pixel(x, y, obj_width, obj_height, draw_width, draw_height, params) {
            Some(s) => s,
            None => return None,
        };
        proof {
            lemma_bits_u16(attr2, 0x03ff, 0);
            lemma_bits_u16(attr2 >> 12u16, 0x0f, 0);
        }
        let row_stride = if self.dispcnt & OBJ_1D_MAPPING != 0 { obj_width / 8 } else { 32 };
        assert((source_y / 8) * row_stride <= 16 * 32) by (nonlinear_arith)
            requires source_y < 128, row_stride <= 32;
        let tile_number = (attr2 & 0x03ff) as usize + (source_y / 8) * row_stride + source_x / 8;
        let pixel_in_tile = (source_y % 8) * 8 + (source_x % 8);
        let color_index = obj_4bpp_color(vram, OBJ_TILE_BASE_TEXT_MODE, tile_number, pixel_in_tile);
        if color_index == 0 {
            return None;
        }
        proof {
            let ghost b = vram@[OBJ_TILE_BASE_TEXT_MODE + tile_number * 32 + pixel_in_tile / 2];
            lemma_bits_u8(b);
        }
        let palette_bank = ((attr2 >> 12) & 0x0f) as usize;
        Some(OBJ_PALETTE_BASE + (palette_bank * 16 + color_index as usize) * 2)
    }

    /// Draws OAM entry `index` over `frame` (raw colours).
    fn paint_obj(&self, palette: &[u8], vram: &[u8], oam: &[u8], index: usize, frame: &mut Vec<u16>)
        requires
            index < 128,
            old(frame)@.len() == FRAME_PIXELS,
            oam@.len() >= 127 * 8 + 6,
            spec_obj_eligible(spec_obj_attr(oam@, index as int, 0)),
            forall|sx: int, sy: int| 0 <= sx < 240 && 0 <= sy < 160
                ==> #[trigger] obj_palette_read_ok(*self, palette@, vram@, oam@, index as int, sx, sy),
        ensures
            final(frame)@.len() == FRAME_PIXELS,
            forall|pix: int| 0 <= pix < FRAME_PIXELS ==> #[trigger] final(frame)@[pix]
                == spec_over(spec_obj_color(*self, palette@, vram@, oam@, index as int, px(pix), py(pix)), old(frame)@[pix]),
    {
        let offset = index * 8;
        let attr0 = read_u16(oam, offset);
        let attr1 = read_u16(oam, offset + 2);
        let attr2 = read_u16(oam, offset + 4);
        let (obj_width, obj_height) = obj_size(attr0, attr1);
        let affine = attr0 & 0x0100 != 0;
        let double_size = affine && attr0 & 0x0200 != 0;
        let (draw_width, draw_height) = if double_size {
            (obj_width * 2, obj_height * 2)
        } else {
            (obj_width, obj_height)
        };
        proof {
            lemma_bits_u16(attr1, 0x01ff, 0);
            lemma_bits_u16(attr0, 0x00ff, 0);
            lemma_bits_u16(attr1 >> 9u16, 0x1f, 0);
        }
        let obj_x = sign_extend(attr1 & 0x01ff, 9);
        let obj_y = sign_extend(attr0 & 0x00ff, 8);
        let affine_params = if affine {
            Some(obj_affine_params(oam, ((attr1 >> 9) & 0x1f) as usize))
        } else {
            None
        };
        let ghost under = frame@;
        let ghost ox = obj_x as int;
        let ghost oy = obj_y as int;
        assert forall|pix: int| 0 <= pix < FRAME_PIXELS implies #[trigger] frame@[pix]
            == spec_painted(*self, palette@, vram@, oam@, index as int, ox, oy, 0, 0, under, pix) by {
            lemma_pixel_coords(pix);
        }
        let mut y: usize = 0;
        while y < draw_height
            invariant
                y <= draw_height,
                draw_height <= 128,
                draw_width <= 128,
                index < 128,
                oam@.len() >= 127 * 8 + 6,
                attr0 == spec_obj_attr(oam@, index as int, 0),
                attr1 == spec_obj_attr(oam@, index as int, 1),
                attr2 == spec_obj_attr(oam@, index as int, 2),
                spec_obj_eligible(attr0),
                (draw_width as int, draw_height as int) == spec_obj_draw_size(attr0, attr1),
                (ox, oy) == spec_obj_origin(attr0, attr1),
                ox == obj_x,
                oy == obj_y,
                -256 <= obj_x < 256,
                -128 <= obj_y < 128,
                spec_params_match(affine_params, attr0, attr1, oam@),
                forall|sx: int, sy: int| 0 <= sx < 240 && 0 <= sy < 160
                    ==> #[trigger] obj_palette_read_ok(*self, palette@, vram@, oam@, index as int, sx, sy),
                frame@.len() == FRAME_PIXELS,
                under.len() == FRAME_PIXELS,
                forall|pix: int| 0 <= pix < FRAME_PIXELS ==> #[trigger] frame@[pix]
                    == spec_painted(*self, palette@, vram@, oam@, index as int, ox, oy, y as int, 0, under, pix),
            decreases draw_height - y,
        {
            let screen_y = obj_y + y as i32;
            if screen_y < 0 || screen_y >= HEIGHT as i32 {
                assert forall|pix: int| 0 <= pix < FRAME_PIXELS implies #[trigger] frame@[pix]
                    == spec_painted(*self, palette@, vram@, oam@, index as int, ox, oy, y + 1, 0, under, pix) by {
                    lemma_pixel_coords(pix);
                    assert(frame@[pix] == spec_painted(*self, palette@, vram@, oam@, index as int, ox, oy, y as int, 0, under, pix));
                }
                y += 1;
                continue;
            }
            let mut x: usize = 0;
            while x < draw_width
                invariant
                    x <= draw_width,
                    y < draw_height,
                    draw_height <= 128,
                    draw_width <= 128,
                    index < 128,
                    0 <= screen_y < 160,
                    screen_y == obj_y + y,
                    oam@.len() >= 127 * 8 + 6,
                    attr0 == spec_obj_attr(oam@, index as int, 0),
                    attr1 == spec_obj_attr(oam@, index as int, 1),
                    attr2 == spec_obj_attr(oam@, index as int, 2),
                    spec_obj_eligible(attr0),
                    (draw_width as int, draw_height as int) == spec_obj_draw_size(attr0, attr1),
                    (ox, oy) == spec_obj_origin(attr0, attr1),
                    ox == obj_x,
                    oy == obj_y,
                    -256 <= obj_x < 256,
                    -128 <= obj_y < 128,
                    spec_params_match(affine_params, attr0, attr1, oam@),
                    forall|sx: int, sy: int| 0 <= sx < 240 && 0 <= sy < 160
                        ==> #[trigger] obj_palette_read_ok(*self, palette@, vram@, oam@, index as int, sx, sy),
                    frame@.len() == FRAME_PIXELS,
                    under.len() == FRAME_PIXELS,
                    forall|pix: int| 0 <= pix < FRAME_PIXELS ==> #[trigger] frame@[pix]
                        == spec_painted(*self, palette@, vram@, oam@, index as int, ox, oy, y as int, x as int, under, pix),
                decreases draw_width - x,
            {
                let screen_x = obj_x + x as i32;
                if screen_x < 0 || screen_x >= WIDTH as i32 {
                    assert forall|pix: int| 0 <= pix < FRAME_PIXELS implies #[trigger] frame@[pix]
                        == spec_painted(*self, palette@, vram@, oam@, index as int, ox, oy, y as int, x + 1, under, pix) by {
                        lemma_pixel_coords(pix);
                        assert(frame@[pix] == spec_painted(*self, palette@, vram@, oam@, index as int, ox, oy, y as int, x as int, under, pix));
                    }
                    x += 1;
                    continue;
                }
                let sx = screen_x as usize;
                let sy = screen_y as usize;
                let pix = sy * WIDTH + sx;
                proof { lemma_pixel_index(sx as int, sy as int); }
                let found = self.obj_draw_index(vram, oam, attr0, attr1, attr2, affine_params, x, y);
                let ghost before = frame@;
                assert(obj_palette_read_ok(*self, palette@, vram@, oam@, index as int, sx as int, sy as int));
                assert(spec_obj_palette_index(*self, vram@, oam@, index as int, sx as int, sy as int)
                    == spec_obj_draw_index(*self, vram@, attr0, attr1, attr2,
                        spec_obj_params(oam@, ((attr1 >> 9u16) & 0x1f) as int), x as int, y as int));
                if let Some(palette_index) = found {
                    let color = read_u16(palette, palette_index);
                    frame.set(pix, color);
                }
                assert forall|q: int| 0 <= q < FRAME_PIXELS implies #[trigger] frame@[q]
                    == spec_painted(*self, palette@, vram@, oam@, index as int, ox, oy, y as int, x + 1, under, q) by {
                    lemma_pixel_coords(q);
                    assert(before[q] == spec_painted(*self, palette@, vram@, oam@, index as int, ox, oy, y as int, x as int, under, q));
                    if q != pix as int {
                        assert(!(py(q) - oy == y && px(q) - ox == x));
                    }
                }
                x += 1;
            }
            assert forall|pix: int| 0 <= pix < FRAME_PIXELS implies #[trigger] frame@[pix]
                == spec_painted(*self, palette@, vram@, oam@, index as int, ox, oy, y + 1, 0, under, pix) by {
                lemma_pixel_coords(pix);
                assert(frame@[pix] == spec_painted(*self, palette@, vram@, oam@, index as int, ox, oy, y as int, draw_width as int, under, pix));
            }
            y += 1;
        }
        assert forall|pix: int| 0 <= pix < FRAME_PIXELS implies #[trigger] frame@[pix]
            == spec_over(spec_obj_color(*self, palette@, vram@, oam@, index as int, px(pix), py(pix)), under[pix]) by {
            lemma_pixel_coords(pix);
            assert(frame@[pix] == spec_painted(*self, palette@, vram@, oam@, index as int, ox, oy, draw_height as int, 0, under, pix));
        }
    }
}


/// The frame of the current mode before sprites and colour conversion.
pub open spec fn spec_background_raw(p: Ppu, palette: Seq<u8>, vram: Seq<u8>, i: int) -> u16 {
    let mode = spec_mode(p);
    if mode == MODE_0 {
        spec_mode0_raw(p, palette, vram, i)
    } else if mode == MODE_3 {
        spec_mode3_raw(p, vram, i)
    } else if mode == MODE_4 {
        spec_mode4_raw(p, palette, vram, i)
    } else if mode == MODE_5 {
        spec_mode5_raw(p, vram, i)
    } else {
        0
    }
}

/// A screen pixel before colour conversion: the top sprite where sprites
/// are enabled and one draws there, else the background.
pub open spec fn spec_frame_raw(p: Ppu, palette: Seq<u8>, vram: Seq<u8>, oam: Seq<u8>, i: int) -> u16 {
    if p.dispcnt & OBJ_ENABLE != 0 {
        spec_over(spec_obj_top(p, palette, vram, oam, 0, px(i), py(i)), spec_background_raw(p, palette, vram, i))
    } else {
        spec_background_raw(p, palette, vram, i)
    }
}

/// Every read that rendering a frame makes stays inside the palette, VRAM and OAM.
pub open spec fn frame_reads_ok(p: Ppu, palette: Seq<u8>, vram: Seq<u8>, oam: Seq<u8>) -> bool {
    &&& spec_mode(p) == MODE_3 && spec_bg2_enabled(p) ==> mode3_reads_ok(p, vram)
    &&& spec_mode(p) == MODE_4 && spec_bg2_enabled(p) ==> mode4_reads_ok(p, palette, vram)
    &&& spec_mode(p) == MODE_5 && spec_bg2_enabled(p) ==> mode5_reads_ok(p, vram)
    &&& p.dispcnt & OBJ_ENABLE != 0 ==> obj_reads_ok(p, palette, vram, oam)
}

impl Ppu {
    /// Draws the sprites over `frame` (raw colours): lowest priority value on
    /// top, then lowest OAM index.
    fn render_objs(&self, palette: &[u8], vram: &[u8], oam: &[u8], frame: &mut Vec<u16>)
        requires
            old(frame)@.len() == FRAME_PIXELS,
            obj_reads_ok(*self, palette@, vram@, oam@),
        ensures
            final(frame)@.len() == FRAME_PIXELS,
            forall|pix: int| 0 <= pix < FRAME_PIXELS ==> #[trigger] final(frame)@[pix]
                == spec_over(spec_obj_top(*self, palette@, vram@, oam@, 0, px(pix), py(pix)), old(frame)@[pix]),
    {
        let ghost under = frame@;
        let mut key: usize = 512;
        while key > 0
            invariant
                key <= 512,
                obj_reads_ok(*self, palette@, vram@, oam@),
                frame@.len() == FRAME_PIXELS,
                under.len() == FRAME_PIXELS,
                forall|pix: int| 0 <= pix < FRAME_PIXELS ==> #[trigger] frame@[pix]
                    == spec_over(spec_obj_top(*self, palette@, vram@, oam@, key as int, px(pix), py(pix)), under[pix]),
            decreases key,
        {
            key -= 1;
            let index = key % 128;
            let priority = key / 128;
            let offset = index * 8;
            let attr0 = read_u16(oam, offset);
            let attr2 = read_u16(oam, offset + 4);
            let affine = attr0 & 0x0100 != 0;
            let eligible = !(!affine && attr0 & 0x0200 != 0) && ((attr0 >> 10) & 0x3) == 0 && attr0 & 0x2000 == 0;
            let ghost before = frame@;
            if eligible && ((attr2 >> 10) & 0x3) as usize == priority {
                assert forall|sx: int, sy: int| 0 <= sx < 240 && 0 <= sy < 160
                    implies #[trigger] obj_palette_read_ok(*self, palette@, vram@, oam@, index as int, sx, sy) by {
                }
                self.paint_obj(palette, vram, oam, index, frame);
            }
            assert forall|pix: int| 0 <= pix < FRAME_PIXELS implies #[trigger] frame@[pix]
                == spec_over(spec_obj_top(*self, palette@, vram@, oam@, key as int, px(pix), py(pix)), under[pix]) by {
                assert(before[pix] == spec_over(spec_obj_top(*self, palette@, vram@, oam@, key + 1, px(pix), py(pix)), under[pix]));
            }
        }
    }

    fn render_background_raw(&self, palette: &[u8], vram: &[u8]) -> (r: Vec<u16>)
        requires
            spec_mode(*self) == MODE_3 && spec_bg2_enabled(*self) ==> mode3_reads_ok(*self, vram@),
            spec_mode(*self) == MODE_4 && spec_bg2_enabled(*self) ==> mode4_reads_ok(*self, palette@, vram@),
            spec_mode(*self) == MODE_5 && spec_bg2_enabled(*self) ==> mode5_reads_ok(*self, vram@),
        ensures
            r@.len() == FRAME_PIXELS,
            forall|i: int| 0 <= i < FRAME_PIXELS ==> #[trigger] r@[i] == spec_background_raw(*self, palette@, vram@, i),
    {
        let mode = self.dispcnt & DISPCNT_MODE_MASK;
        if mode == MODE_0 {
            self.raw_mode0(palette, vram)
        } else if mode == MODE_3 {
            self.raw_mode3(vram)
        } else if mode == MODE_4 {
            self.raw_mode4(palette, vram)
        } else if mode == MODE_5 {
            self.raw_mode5(vram)
        } else {
            vec![0; FRAME_PIXELS]
        }
    }

    /// Renders a whole frame: the background of the current mode, sprites on
    /// top where DISPCNT enables them, converted to ARGB8888.
    pub fn render_frame(&self, palette: &[u8], vram: &[u8], oam: &[u8]) -> (r: FrameBuffer)
        requires
            frame_reads_ok(*self, palette@, vram@, oam@),
        ensures
            r@.len() == FRAME_PIXELS,
            forall|i: int| 0 <= i < FRAME_PIXELS ==> #[trigger] r@[i] == spec_argb(spec_frame_raw(*self, palette@, vram@, oam@, i)),
    {
        let mut frame = self.render_background_raw(palette, vram);
        if self.dispcnt & OBJ_ENABLE != 0 {
            self.render_objs(palette, vram, oam, &mut frame);
        }
        convert_frame(&frame)
    }
}


/// With hardware-sized palette RAM, VRAM and OAM, no rendering read goes
/// out of bounds.
pub proof fn lemma_frame_reads_ok(p: Ppu, palette: Seq<u8>, vram: Seq<u8>, oam: Seq<u8>)
    requires
        palette.len() == 0x400,
        vram.len() == 0x18000,
        oam.len() == 0x400,
    ensures
        frame_reads_ok(p, palette, vram, oam),
{
    assert forall|x: int, y: int| 0 <= x < 240 && 0 <= y < 160 implies #[trigger] mode3_read_ok(p, vram, x, y) by {}
    assert forall|x: int, y: int| 0 <= x < 240 && 0 <= y < 160 implies #[trigger] mode4_read_ok(p, palette, vram, x, y) by {}
    assert forall|x: int, y: int| 0 <= x < 160 && 0 <= y < 128 implies #[trigger] mode5_read_ok(p, vram, x, y) by {}
    assert forall|i: int, sx: int, sy: int| 0 <= i < 128 && 0 <= sx < 240 && 0 <= sy < 160
        implies #[trigger] obj_palette_read_ok(p, palette, vram, oam, i, sx, sy) by {
        let attr0 = spec_obj_attr(oam, i, 0);
        let attr1 = spec_obj_attr(oam, i, 1);
        let attr2 = spec_obj_attr(oam, i, 2);
        lemma_bits_u16(attr2 >> 12u16, 0x0f, 0);
        let (w, h) = spec_obj_size(attr0, attr1);
        let (dw, dh) = spec_obj_draw_size(attr0, attr1);
        let (ox, oy) = spec_obj_origin(attr0, attr1);
        let params = spec_obj_params(oam, ((attr1 >> 9u16) & 0x1f) as int);
        match spec_obj_source(sx - ox, sy - oy, w, h, dw, dh, spec_obj_is_affine(attr0), params) {
            Some((qx, qy)) => {
                let row_stride = if p.dispcnt & OBJ_1D_MAPPING != 0 { w / 8 } else { 32 };
                let tile_number = (attr2 & 0x03ff) as int + (qy / 8) * row_stride + qx / 8;
                let tile_offset = 0x10000 + tile_number * 32;
                let pit = (qy % 8) * 8 + qx % 8;
                if tile_offset + 31 < vram.len() {
                    lemma_bits_u8(vram[tile_offset + pit / 2]);
                }
            },
            None => {},
        }
    }
}

} // verus!
