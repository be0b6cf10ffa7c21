//! The picture co-processor. Writing 1 to Sprite Control draws one sprite from
//! the sprite registers; the draw itself is handed back as a `SpriteDraw` for
//! the renderer, together with the CPU cycles the PPU consumed.
use vstd::prelude::*;
use crate::word::Word;
use crate::memory::{BankedMemory, MemView, BANK_SIZE};
use crate::mmio::{
    BG_CONTROL, INT_ENABLE, INT_PPU_DONE, INT_STATUS, SPR_ATTR, SPR_CONTROL, SPR_TILE, SPR_X,
    SPR_Y,
};

verus! {

/// CPU cycles consumed by drawing the background.
pub const PPU_BACKGROUND_COST: usize = 64;

/// CPU cycles consumed by drawing a single sprite.
pub const PPU_SPRITE_COST: usize = 16;

/// Width and height of a tile in pixels.
pub const TILE_PIXELS: u32 = 8;

/// One sprite to draw from the sprite sheet.
#[derive(Clone, Copy, PartialEq, Eq, Structural, Debug)]
pub struct SpriteDraw {
    /// Screen position of the sprite (signed).
    pub x: i16,
    pub y: i16,
    /// Top-left pixel of the tile in the sprite sheet.
    pub src_x: u32,
    pub src_y: u32,
    /// Width and height in pixels: 8, 16, 32 or 64.
    pub size: u32,
    pub flip_x: bool,
    pub flip_y: bool,
    /// Rotation in quarter turns (0 - 3).
    pub quarter_turns: u16,
}

/// The sprite that the sprite registers describe, for a sheet `tile_cols` tiles wide.
pub open spec fn sprite_from_registers(mem: MemView, tile_cols: u32) -> SpriteDraw {
    let tile_id = mem.load_mmio(SPR_TILE).0 & 0x1FF;
    let attr = mem.load_mmio(SPR_ATTR).0;
    let size_idx = attr & 0x3;
    SpriteDraw {
        x: mem.load_mmio(SPR_X).0 as i16,
        y: mem.load_mmio(SPR_Y).0 as i16,
        src_x: ((tile_id as u32 % tile_cols) * TILE_PIXELS) as u32,
        src_y: ((tile_id as u32 / tile_cols) * TILE_PIXELS) as u32,
        size: 8u32 << (size_idx as u32),
        flip_x: (attr >> 2u16) & 1 != 0,
        flip_y: (attr >> 3u16) & 1 != 0,
        quarter_turns: (attr >> 8u16) & 0x3,
    }
}

/// A PPU step costs nothing and draws nothing unless activated; then it draws
/// exactly one sprite for 16 cycles, 64 more with the background enabled, and
/// Sprite Control reads as zero afterwards.
pub proof fn lemma_ppu_cost(ppu: PPU, mem: MemView)
    requires
        mem.inv(),
    ensures
        ({
            let (after, cost, draw) = ppu.step_spec(mem);
            &&& cost == 0 || cost == PPU_SPRITE_COST || cost == PPU_SPRITE_COST
                + PPU_BACKGROUND_COST
            &&& (cost == 0 <==> draw is None)
            &&& (cost == 0 <==> mem.load_mmio(SPR_CONTROL).0 & 1 == 0)
            &&& cost != 0 ==> after.load_mmio(SPR_CONTROL) == Word(0)
            &&& after.inv()
        }),
{
}

/// A PPU step only ever sets bits of Interrupt Status: every bit set before
/// stays set, and a draw with PPU Done enabled adds exactly that bit. It changes
/// no other register than Sprite Control and Interrupt Status.
pub proof fn lemma_ppu_keeps_status_bits(ppu: PPU, mem: MemView)
    requires
        mem.inv(),
    ensures
        ({
            let (after, cost, draw) = ppu.step_spec(mem);
            let old_status = mem.load_mmio(INT_STATUS).0;
            let new_status = after.load_mmio(INT_STATUS).0;
            &&& old_status & new_status == old_status
            &&& draw is Some && mem.load_mmio(INT_ENABLE).0 & INT_PPU_DONE != 0 ==> new_status
                == old_status | INT_PPU_DONE
            &&& mem.load_mmio(INT_ENABLE).0 & INT_PPU_DONE == 0 ==> new_status == old_status
            &&& forall|a: int|
                0 <= a < BANK_SIZE && a != SPR_CONTROL && a != INT_STATUS ==> #[trigger] after.default[a]
                    == mem.default[a]
            &&& after.ppu == mem.ppu && after.apu == mem.apu
        }),
{
    let s = mem.load_mmio(INT_STATUS).0;
    assert(s & (s | 4u16) == s && s & s == s) by (bit_vector);
}

/// The sprite a draw produces comes from the sprite registers as MMIO.md lays
/// them out: the signed X and Y positions; the tile number in bits 0-8 of Sprite
/// Tile, found row by row in a sheet of `tile_cols` columns of 8-pixel tiles;
/// from Sprite Attributes the size 8 << (bits 0-1), the horizontal flip in bit
/// 2, the vertical flip in bit 3 and the rotation in bits 8-9.
pub proof fn lemma_sprite_fields(mem: MemView, tile_cols: u32)
    requires
        tile_cols > 0,
    ensures
        ({
            let d = sprite_from_registers(mem, tile_cols);
            let attr = mem.load_mmio(SPR_ATTR).0;
            let tile = mem.load_mmio(SPR_TILE).0 % 512;
            &&& d.x as int == (if mem.load_mmio(SPR_X).0 >= 0x8000 {
                mem.load_mmio(SPR_X).0 - 0x10000
            } else {
                mem.load_mmio(SPR_X).0 as int
            })
            &&& d.y as int == (if mem.load_mmio(SPR_Y).0 >= 0x8000 {
                mem.load_mmio(SPR_Y).0 - 0x10000
            } else {
                mem.load_mmio(SPR_Y).0 as int
            })
            &&& d.flip_x == (attr & 0x0004 != 0)
            &&& d.flip_y == (attr & 0x0008 != 0)
            &&& d.quarter_turns == (attr / 256) % 4
            &&& (attr % 4 == 0 ==> d.size == 8) && (attr % 4 == 1 ==> d.size == 16) && (attr % 4
                == 2 ==> d.size == 32) && (attr % 4 == 3 ==> d.size == 64)
            &&& d.src_x == (tile as u32 % tile_cols) * 8
            &&& d.src_y == (tile as u32 / tile_cols) * 8
        }),
{
    let attr = mem.load_mmio(SPR_ATTR).0;
    let t = mem.load_mmio(SPR_TILE).0;
    let x = mem.load_mmio(SPR_X).0;
    let y = mem.load_mmio(SPR_Y).0;
    assert(((attr >> 2u16) & 1u16 != 0u16) == (attr & 4u16 != 0u16) && ((attr >> 3u16) & 1u16
        != 0u16) == (attr & 8u16 != 0u16) && (attr >> 8u16) & 3u16 == (attr / 256u16) % 4u16
        && (attr & 3u16) == attr % 4u16 && t & 0x1FFu16 == t % 512u16 && ((attr & 3u16) == 0u16
        ==> 8u32 << ((attr & 3u16) as u32) == 8u32) && ((attr & 3u16) == 1u16 ==> 8u32 << ((attr
        & 3u16) as u32) == 16u32) && ((attr & 3u16) == 2u16 ==> 8u32 << ((attr & 3u16) as u32)
        == 32u32) && ((attr & 3u16) == 3u16 ==> 8u32 << ((attr & 3u16) as u32) == 64u32))
        by (bit_vector);
    assert((x >= 0x8000u16 ==> (x as i16) as int == x - 0x10000) && (x < 0x8000u16 ==> (
    x as i16) as int == x as int) && (y >= 0x8000u16 ==> (y as i16) as int == y - 0x10000) && (y
        < 0x8000u16 ==> (y as i16) as int == y as int)) by (bit_vector);
    let tile = t % 512;
    assert((tile as u32 % tile_cols) * 8 < 0x1_0000_0000) by (nonlinear_arith)
        requires tile < 512, tile_cols > 0;
    assert((tile as u32 / tile_cols) * 8 < 0x1_0000_0000) by (nonlinear_arith)
        requires tile < 512, tile_cols > 0;
}

pub struct PPU {
    sheet_width: u32,
}

impl PPU {
    /// Width in pixels of the sprite sheet.
    pub closed spec fn sheet_width(&self) -> u32 {
        self.sheet_width
    }

    /// Number of 8-pixel tile columns in the sprite sheet.
    pub open spec fn tile_cols(&self) -> u32 {
        self.sheet_width() / TILE_PIXELS
    }

    /// A step is possible unless a sprite draw is requested from a sheet
    /// narrower than one tile.
    pub open spec fn step_possible(&self, mem: MemView) -> bool {
        mem.load_mmio(SPR_CONTROL).0 & 1 == 0 || self.tile_cols() > 0
    }

    /// Memory after a PPU step, the cycles consumed, and the sprite drawn:
    /// nothing happens unless bit 0 of Sprite Control is set; then the control
    /// register is cleared, the background costs extra when enabled, one sprite
    /// is drawn, and the PPU Done status bit is set when enabled.
    pub open spec fn step_spec(&self, mem: MemView) -> (MemView, usize, Option<SpriteDraw>) {
        if mem.load_mmio(SPR_CONTROL).0 & 1 == 0 {
            (mem, 0, None)
        } else {
            let cleared = mem.store_mmio(SPR_CONTROL, Word(0));
            let bg_cost = if cleared.load_mmio(BG_CONTROL).0 & 1 != 0 {
                PPU_BACKGROUND_COST
            } else {
                0
            };
            let draw = sprite_from_registers(cleared, self.tile_cols());
            let done = if cleared.load_mmio(INT_ENABLE).0 & INT_PPU_DONE != 0 {
                cleared.store_mmio(
                    INT_STATUS,
                    Word(cleared.load_mmio(INT_STATUS).0 | INT_PPU_DONE),
                )
            } else {
                cleared
            };
            (done, (bg_cost + PPU_SPRITE_COST) as usize, Some(draw))
        }
    }

    /// A PPU drawing from a sprite sheet `sheet_width` pixels wide.
    pub fn new(sheet_width: u32) -> (p: PPU)
        ensures
            p.sheet_width() == sheet_width,
    {
        PPU { sheet_width }
    }

    pub fn can_step(&self, mem: &BankedMemory) -> (b: bool)
        requires
            mem.inv(),
        ensures
            b == self.step_possible(mem@),
    {
        mem.load_mmio(SPR_CONTROL).0 & 1 == 0 || self.sheet_width / TILE_PIXELS > 0
    }

    /// Steps the PPU. Returns the number of CPU cycles consumed this step and
    /// the sprite to draw, if any.
    pub fn step(&self, mem: &mut BankedMemory) -> (out: (usize, Option<SpriteDraw>))
        requires
            old(mem).inv(),
            self.step_possible(old(mem)@),
        ensures
            final(mem).inv(),
            (final(mem)@, out.0, out.1) == self.step_spec(old(mem)@),
    {
        let spr_ctrl: u16 = mem.load_mmio(SPR_CONTROL).0;
        if spr_ctrl & 0x01 == 0 {
            return (0, None);
        }

        mem.store_mmio(SPR_CONTROL, Word(0));

        let mut cost = 0usize;

        // Background draw (no rendering of its own yet)
        let bg_ctrl: u16 = mem.load_mmio(BG_CONTROL).0;
        if bg_ctrl & 0x01 != 0 {
            cost += PPU_BACKGROUND_COST;
        }

        // Sprite draw
        let x_pos = mem.load_mmio(SPR_X).0 as i16;
        let y_pos = mem.load_mmio(SPR_Y).0 as i16;
        let tile_raw: u16 = mem.load_mmio(SPR_TILE).0;
        let tile_id = tile_raw & 0x1FF;  // bits 0-8

        let attr: u16 = mem.load_mmio(SPR_ATTR).0;
        let size_idx = attr & 0x3;  // bits 0-1
        let h_flip = (attr >> 2) & 0x1 != 0;  // bit 2
        let v_flip = (attr >> 3) & 0x1 != 0;  // bit 3
        // bits 4-7: tile data bank — ignored while using texture approach
        let rotation_idx = (attr >> 8) & 0x3;  // bits 8-9

        assert(size_idx < 4) by (bit_vector)
            requires size_idx == attr & 0x3;
        let pixel_size = 8u32 << (size_idx as u32);  // 8, 16, 32, or 64

        let tile_cols = self.sheet_width / TILE_PIXELS;
        let tile_x = tile_id as u32 % tile_cols;
        let tile_y = tile_id as u32 / tile_cols;
        proof {
            assert(tile_id <= 0x1FF) by (bit_vector)
                requires tile_id == tile_raw & 0x1FF;
            assert(tile_y <= tile_id) by (nonlinear_arith)
                requires tile_y == tile_id as u32 / tile_cols, tile_cols > 0;
            assert(tile_x * 8 < self.sheet_width) by (nonlinear_arith)
                requires
                    tile_x < tile_cols,
                    tile_cols == self.sheet_width / 8,
            ;
        }

        let draw = SpriteDraw {
            x: x_pos,
            y: y_pos,
            src_x: tile_x * TILE_PIXELS,
            src_y: tile_y * TILE_PIXELS,
            size: pixel_size,
            flip_x: h_flip,
            flip_y: v_flip,
            quarter_turns: rotation_idx,
        };

        cost += PPU_SPRITE_COST;

        // Set PPU Done interrupt status if enabled
        let int_enable: u16 = mem.load_mmio(INT_ENABLE).0;
        if int_enable & INT_PPU_DONE != 0 {
            let status: u16 = mem.load_mmio(INT_STATUS).0;
            mem.store_mmio(INT_STATUS, Word(status | INT_PPU_DONE));
        }

        (cost, Some(draw))
    }
}

} // verus!
