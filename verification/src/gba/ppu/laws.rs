//! What the renderer does, stated over the registers and memory bytes
//! themselves: window masks, the BG2 affine transform, and the sprite
//! affine parameters.
use vstd::prelude::*;

use super::{Ppu, WIN0_ENABLE, WIN1_ENABLE};
use super::renderer::{
    spec_bg2_source, spec_first_layer, spec_mode0_pixel, spec_mode3_pixel, spec_obj_draw_index,
    spec_obj_draw_size, spec_obj_eligible, spec_obj_origin, spec_obj_palette_index, spec_obj_params,
    spec_obj_source, spec_pixel_mask, BG_MOSAIC,
};
use crate::gba::bits::le16;

verus! {

/// A 16-bit two's-complement register value.
pub open spec fn signed16(v: u16) -> int {
    if v >= 0x8000 { v - 0x10000 } else { v as int }
}

/// The 28-bit two's-complement reference point held in a BG2X/BG2Y value.
pub open spec fn signed28(v: u32) -> int {
    let low = (v % 0x1000_0000) as int;
    if low >= 0x0800_0000 { low - 0x1000_0000 } else { low }
}

/// `(x, y)` lies inside window 1 as WIN1H (left in the high byte, right in
/// the low byte) and WIN1V (top, bottom) give it, on screen.
pub open spec fn inside_window1(p: Ppu, x: int, y: int) -> bool {
    &&& 0 <= x < 240 && 0 <= y < 160
    &&& (p.winh@[1] / 256) as int <= x < (p.winh@[1] % 256) as int
    &&& (p.winv@[1] / 256) as int <= y < (p.winv@[1] % 256) as int
}

/// `(x, y)` lies outside window 0's edges (WIN0H, WIN0V).
pub open spec fn outside_window0(p: Ppu, x: int, y: int) -> bool {
    ||| x < (p.winh@[0] / 256) as int || x >= (p.winh@[0] % 256) as int
    ||| y < (p.winv@[0] / 256) as int || y >= (p.winv@[0] % 256) as int
}

proof fn lemma_u16_halves(v: u16)
    by (bit_vector)
    ensures
        v >> 8u16 == v / 256,
        (v >> 8u16) & 0xff == v / 256,
        v & 0xff == v % 256,
        (v >> 8u16) & 0x003f == (v / 256) % 64,
        v & 0x003f == v % 64,
{
}

proof fn lemma_u28_low(v: u32)
    by (bit_vector)
    ensures
        v & 0x0fff_ffff == v % 0x1000_0000,
{
}

proof fn lemma_any_window_enabled(dispcnt: u16)
    by (bit_vector)
    ensures
        dispcnt & 0x4000 != 0 ==> dispcnt & (0x2000u16 | 0x4000u16 | 0x8000u16) != 0,
{
}

/// Inside window 1, and not inside an enabled window 0, the layers (and
/// the colour effect) that show are those WININ's bits 8-13 enable.
pub proof fn lemma_window1_mask(p: Ppu, x: int, y: int)
    requires
        p.dispcnt & WIN1_ENABLE != 0,
        p.dispcnt & WIN0_ENABLE == 0 || outside_window0(p, x, y),
        inside_window1(p, x, y),
    ensures
        spec_pixel_mask(p, x, y) == (p.winin / 256) % 64,
{
    lemma_u16_halves(p.winh@[0]);
    lemma_u16_halves(p.winh@[1]);
    lemma_u16_halves(p.winv@[0]);
    lemma_u16_halves(p.winv@[1]);
    lemma_u16_halves(p.winin);
    lemma_any_window_enabled(p.dispcnt);
}

/// `(x, y)` lies inside window 0 as WIN0H and WIN0V give it, on screen.
pub open spec fn inside_window0(p: Ppu, x: int, y: int) -> bool {
    &&& 0 <= x < 240 && 0 <= y < 160
    &&& (p.winh@[0] / 256) as int <= x < (p.winh@[0] % 256) as int
    &&& (p.winv@[0] / 256) as int <= y < (p.winv@[0] % 256) as int
}

/// `(x, y)` lies outside window 1's edges (WIN1H, WIN1V).
pub open spec fn outside_window1(p: Ppu, x: int, y: int) -> bool {
    ||| x < (p.winh@[1] / 256) as int || x >= (p.winh@[1] % 256) as int
    ||| y < (p.winv@[1] / 256) as int || y >= (p.winv@[1] % 256) as int
}

/// Inside an enabled window 0 the layers WININ's bits 0-5 enable show,
/// whatever window 1 says; where no window is enabled in DISPCNT (bits
/// 13-15) every layer and the colour effect show; outside the enabled
/// windows 0 and 1 (with the object window off) WINOUT's bits 0-5 apply.
pub proof fn lemma_window_masks(p: Ppu, x: int, y: int)
    ensures
        p.dispcnt & WIN0_ENABLE != 0 && inside_window0(p, x, y) ==> spec_pixel_mask(p, x, y) == p.winin % 64,
        p.dispcnt & 0xe000 == 0 ==> spec_pixel_mask(p, x, y) == 0x3f,
        p.dispcnt & 0xe000 != 0 && p.dispcnt & 0x8000 == 0
            && (p.dispcnt & WIN0_ENABLE == 0 || outside_window0(p, x, y))
            && (p.dispcnt & WIN1_ENABLE == 0 || outside_window1(p, x, y))
            ==> spec_pixel_mask(p, x, y) == p.winout % 64,
{
    lemma_u16_halves(p.winh@[0]);
    lemma_u16_halves(p.winh@[1]);
    lemma_u16_halves(p.winv@[0]);
    lemma_u16_halves(p.winv@[1]);
    lemma_u16_halves(p.winin);
    lemma_u16_halves(p.winout);
    lemma_window_bits(p.dispcnt);
}

proof fn lemma_window_bits(dispcnt: u16)
    by (bit_vector)
    ensures
        dispcnt & 0x2000 != 0 ==> dispcnt & (0x2000u16 | 0x4000u16 | 0x8000u16) != 0,
        (dispcnt & 0xe000 == 0) == (dispcnt & (0x2000u16 | 0x4000u16 | 0x8000u16) == 0),
{
}

/// The first visible layer does not depend on WININ, only on the mask.
proof fn lemma_first_layer_ignores_winin(p: Ppu, q: Ppu, palette: Seq<u8>, vram: Seq<u8>, mask: u16, k: int, x: int, y: int)
    requires
        q == (Ppu { winin: q.winin, ..p }),
    ensures
        spec_first_layer(p, palette, vram, mask, k, x, y) == spec_first_layer(q, palette, vram, mask, k, x, y),
    decreases 16 - k,
{
    if 0 <= k < 16 {
        lemma_first_layer_ignores_winin(p, q, palette, vram, mask, k + 1, x, y);
    }
}

/// Inside window 1, and not inside an enabled window 0, a mode 0 pixel
/// does not depend on WININ's low byte (window 0's layers).
pub proof fn lemma_window1_ignores_window0_layers(p: Ppu, winin: u16, palette: Seq<u8>, vram: Seq<u8>, x: int, y: int)
    requires
        p.dispcnt & WIN1_ENABLE != 0,
        p.dispcnt & WIN0_ENABLE == 0 || outside_window0(p, x, y),
        inside_window1(p, x, y),
        winin / 256 == p.winin / 256,
    ensures
        spec_mode0_pixel(p, palette, vram, x, y) == spec_mode0_pixel(Ppu { winin, ..p }, palette, vram, x, y),
{
    let q = Ppu { winin, ..p };
    lemma_window1_mask(p, x, y);
    lemma_window1_mask(q, x, y);
    let mask = spec_pixel_mask(p, x, y);
    lemma_first_layer_ignores_winin(p, q, palette, vram, mask, 0, x, y);
    assert forall|k: int| 0 <= k <= 16 implies spec_first_layer(p, palette, vram, mask, k, x, y)
        == #[trigger] spec_first_layer(q, palette, vram, mask, k, x, y) by {
        lemma_first_layer_ignores_winin(p, q, palette, vram, mask, k, x, y);
    }
}

/// Without mosaic, BG2 at screen `(x, y)` samples the bitmap at
/// `(floor((BG2X + PA*x + PB*y) / 256), floor((BG2Y + PC*x + PD*y) / 256))`,
/// and nothing outside a `width` x `height` bitmap.
pub proof fn lemma_bg2_affine_source(p: Ppu, x: int, y: int, width: int, height: int)
    requires
        p.bgcnt@[2] & BG_MOSAIC == 0,
    ensures
        ({
            let ax = (signed28(p.bgx@[0]) + signed16(p.bgpa@[0]) * x + signed16(p.bgpb@[0]) * y) / 256;
            let ay = (signed28(p.bgy@[0]) + signed16(p.bgpc@[0]) * x + signed16(p.bgpd@[0]) * y) / 256;
            spec_bg2_source(p, x, y, width, height)
                == if 0 <= ax < width && 0 <= ay < height { Some((ax, ay)) } else { None::<(int, int)> }
        }),
{
    lemma_u28_low(p.bgx@[0]);
    lemma_u28_low(p.bgy@[0]);
}

/// In mode 3 without mosaic, the pixel at `(x, y)` is the 16-bit colour
/// stored at the sampled bitmap position, or 0 outside the bitmap.
pub proof fn lemma_mode3_affine_pixel(p: Ppu, vram: Seq<u8>, x: int, y: int)
    requires
        p.bgcnt@[2] & BG_MOSAIC == 0,
    ensures
        ({
            let ax = (signed28(p.bgx@[0]) + signed16(p.bgpa@[0]) * x + signed16(p.bgpb@[0]) * y) / 256;
            let ay = (signed28(p.bgy@[0]) + signed16(p.bgpc@[0]) * x + signed16(p.bgpd@[0]) * y) / 256;
            spec_mode3_pixel(p, vram, x, y)
                == if 0 <= ax < 240 && 0 <= ay < 160 { le16(vram, (ay * 240 + ax) * 2) } else { 0 }
        }),
{
    lemma_bg2_affine_source(p, x, y, 240, 160);
}

/// Sprite affine parameter group `g` is PA, PB, PC, PD at OAM bytes
/// `32g + 6`, `32g + 14`, `32g + 22` and `32g + 30`, signed.
pub proof fn lemma_obj_params_layout(oam: Seq<u8>, g: int)
    requires
        0 <= g < 32,
        oam.len() >= 1024,
    ensures
        spec_obj_params(oam, g) == (
            signed16(le16(oam, 32 * g + 6)),
            signed16(le16(oam, 32 * g + 14)),
            signed16(le16(oam, 32 * g + 22)),
            signed16(le16(oam, 32 * g + 30)),
        ),
{
}

/// An affine sprite of size `w` x `h` drawn in a `dw` x `dh` area shows,
/// at draw position `(x, y)`, its texel
/// `((PA*cx + PB*cy) >> 8 + w/2, (PC*cx + PD*cy) >> 8 + h/2)`, with
/// `(cx, cy)` the position relative to the centre of the draw area; nothing
/// where that texel lies outside the sprite.
pub proof fn lemma_obj_affine_texel(x: int, y: int, w: int, h: int, dw: int, dh: int, pa: int, pb: int, pc: int, pd: int)
    ensures
        ({
            let cx = x - dw / 2;
            let cy = y - dh / 2;
            let tx = (pa * cx + pb * cy) / 256 + w / 2;
            let ty = (pc * cx + pd * cy) / 256 + h / 2;
            spec_obj_source(x, y, w, h, dw, dh, true, (pa, pb, pc, pd))
                == if 0 <= tx < w && 0 <= ty < h { Some((tx, ty)) } else { None::<(int, int)> }
        }),
{
}

/// With mosaic on for BG2 (BG2CNT bit 6), the screen point is first moved
/// to the top-left corner of its mosaic block, MOSAIC bits 0-3 plus one
/// wide and bits 4-7 plus one high, and then sampled as without mosaic.
pub proof fn lemma_bg2_mosaic_source(p: Ppu, x: int, y: int, width: int, height: int)
    requires
        p.bgcnt@[2] & BG_MOSAIC != 0,
        0 <= x,
        0 <= y,
    ensures
        ({
            let mw = (p.mosaic % 16) as int + 1;
            let mh = ((p.mosaic / 16) % 16) as int + 1;
            let bx = x - x % mw;
            let by = y - y % mh;
            let ax = (signed28(p.bgx@[0]) + signed16(p.bgpa@[0]) * bx + signed16(p.bgpb@[0]) * by) / 256;
            let ay = (signed28(p.bgy@[0]) + signed16(p.bgpc@[0]) * bx + signed16(p.bgpd@[0]) * by) / 256;
            spec_bg2_source(p, x, y, width, height)
                == if 0 <= ax < width && 0 <= ay < height { Some((ax, ay)) } else { None::<(int, int)> }
        }),
{
    lemma_u28_low(p.bgx@[0]);
    lemma_u28_low(p.bgy@[0]);
    lemma_mosaic_fields(p.mosaic);
    let mw = (p.mosaic % 16) as int + 1;
    let mh = ((p.mosaic / 16) % 16) as int + 1;
    assert(x / mw * mw == x - x % mw) by (nonlinear_arith)
        requires mw > 0, x >= 0;
    assert(y / mh * mh == y - y % mh) by (nonlinear_arith)
        requires mh > 0, y >= 0;
}

proof fn lemma_mosaic_fields(v: u16)
    by (bit_vector)
    ensures
        v & 0x000f == v % 16,
        (v >> 4u16) & 0x000f == (v / 16) % 16,
{
}

/// A shown sprite `i` at screen `(sx, sy)` inside its draw area takes its
/// affine parameters from the group that attribute 1 bits 9-13 select:
/// PA, PB, PC, PD at OAM bytes `32g + 6`, `+ 14`, `+ 22`, `+ 30`.
pub proof fn lemma_obj_group_params(p: Ppu, vram: Seq<u8>, oam: Seq<u8>, i: int, sx: int, sy: int)
    requires
        0 <= i < 128,
        oam.len() >= 1024,
        0 <= sx < 240,
        0 <= sy < 160,
        ({
            let attr0 = le16(oam, 8 * i);
            let attr1 = le16(oam, 8 * i + 2);
            let (dw, dh) = spec_obj_draw_size(attr0, attr1);
            let (ox, oy) = spec_obj_origin(attr0, attr1);
            spec_obj_eligible(attr0) && 0 <= sx - ox < dw && 0 <= sy - oy < dh
        }),
    ensures
        ({
            let attr0 = le16(oam, 8 * i);
            let attr1 = le16(oam, 8 * i + 2);
            let attr2 = le16(oam, 8 * i + 4);
            let (ox, oy) = spec_obj_origin(attr0, attr1);
            let g = (attr1 / 512) as int % 32;
            let params = (
                signed16(le16(oam, 32 * g + 6)),
                signed16(le16(oam, 32 * g + 14)),
                signed16(le16(oam, 32 * g + 22)),
                signed16(le16(oam, 32 * g + 30)),
            );
            spec_obj_palette_index(p, vram, oam, i, sx, sy)
                == spec_obj_draw_index(p, vram, attr0, attr1, attr2, params, sx - ox, sy - oy)
        }),
{
    let attr1 = le16(oam, 8 * i + 2);
    lemma_group_field(attr1);
    lemma_obj_params_layout(oam, (attr1 / 512) as int % 32);
}

proof fn lemma_group_field(v: u16)
    by (bit_vector)
    ensures
        (v >> 9u16) & 0x1f == (v / 512) % 32,
{
}

} // verus!
