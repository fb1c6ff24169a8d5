use vstd::prelude::*;

verus! {

use crate::bytes::copy_range;
use crate::errors::EmuError;
use crate::frame::Frame;
use crate::mapper::Mapper;
use crate::palette::system_palette_color;
use crate::ppu::NesPPU;
use crate::rom::Mirroring;

/// A viewport rectangle in frame coordinates: the half-open box from
/// (x1, y1) to (x2, y2).
pub struct Rect {
    pub x1: usize,
    pub y1: usize,
    pub x2: usize,
    pub y2: usize,
}

impl Rect {
    pub fn new(x1: usize, y1: usize, x2: usize, y2: usize) -> (r: Self)
        ensures
            r == (Rect { x1, y1, x2, y2 }),
    {
        Rect { x1, x2, y1, y2 }
    }
}

/// Which two attribute bits a tile position selects inside its 4x4 meta-tile:
/// one byte covers four 2x2 quadrants.
pub open spec fn spec_quadrant_bits(attr_byte: u8, tile_column: int, tile_row: int) -> u8 {
    if tile_column % 4 / 2 == 0 && tile_row % 4 / 2 == 0 {
        attr_byte & 0x03
    } else if tile_column % 4 / 2 == 1 && tile_row % 4 / 2 == 0 {
        (attr_byte >> 2) & 0x03
    } else if tile_column % 4 / 2 == 0 && tile_row % 4 / 2 == 1 {
        (attr_byte >> 4) & 0x03
    } else {
        (attr_byte >> 6) & 0x03
    }
}

/// Two attribute bits always fit below four.
proof fn lemma_quadrant_bound(b: u8)
    by (bit_vector)
    ensures
        b & 0x03 <= 3,
        (b >> 2) & 0x03 <= 3,
        (b >> 4) & 0x03 <= 3,
        (b >> 6) & 0x03 <= 3,
{
}

/// The four palette bytes a background tile draws with: the universal
/// background colour and the three colours of the palette its attribute
/// quadrant selects.
pub fn bg_pallette(ppu: &NesPPU, attribute_table: &Vec<u8>, tile_column: usize, tile_row: usize) -> (r: [u8; 4])
    requires
        ppu.wf(),
        attribute_table.len() == 64,
        tile_column < 32,
        tile_row < 30,
    ensures
        ({
            let attr_byte = attribute_table@[tile_row as int / 4 * 8 + tile_column as int / 4];
            let start = 1 + (spec_quadrant_bits(attr_byte, tile_column as int, tile_row as int)
                as int) * 4;
            &&& r@[0] == ppu.palette_table@[0]
            &&& r@[1] == ppu.palette_table@[start]
            &&& r@[2] == ppu.palette_table@[start + 1]
            &&& r@[3] == ppu.palette_table@[start + 2]
        }),
{
    let attr_table_index = tile_row / 4 * 8 + tile_column / 4;
    let attr_byte = attribute_table[attr_table_index];

    let palette_index = if (tile_column % 4) / 2 == 0 && (tile_row % 4) / 2 == 0 {
        attr_byte & 0x03
    } else if (tile_column % 4) / 2 == 1 && (tile_row % 4) / 2 == 0 {
        (attr_byte >> 2) & 0x03
    } else if (tile_column % 4) / 2 == 0 && (tile_row % 4) / 2 == 1 {
        (attr_byte >> 4) & 0x03
    } else {
        (attr_byte >> 6) & 0x03
    };
    proof {
        lemma_quadrant_bound(attr_byte);
    }

    // Each palette is four bytes wide and the first byte of the table is the
    // single universal background colour.
    let palette_start_index = 1 + (palette_index as usize) * 4;
    [
        ppu.palette_table[0],
        ppu.palette_table[palette_start_index],
        ppu.palette_table[palette_start_index + 1],
        ppu.palette_table[palette_start_index + 2],
    ]
}

/// The four palette bytes a sprite draws with; entry 0 is transparent and
/// never used.
pub fn sprite_palette(ppu: &NesPPU, palette_index: u8) -> (r: [u8; 4])
    requires
        ppu.wf(),
        palette_index < 4,
    ensures
        ({
            let start = 0x11 + (palette_index as int) * 4;
            &&& r@[0] == 0
            &&& r@[1] == ppu.palette_table@[start]
            &&& r@[2] == ppu.palette_table@[start + 1]
            &&& r@[3] == ppu.palette_table@[start + 2]
        }),
{
    let start = 0x11 + (palette_index as usize) * 4;
    [0, ppu.palette_table[start], ppu.palette_table[start + 1], ppu.palette_table[start + 2]]
}

/// Composites one 8x8 sprite tile into the frame: each row is two bitplanes,
/// transparent pixels are skipped, and the priority flag with the frame's
/// transparency mask arbitrates against the background.
pub fn render_sprite_tile(
    tile: &Vec<u8>,
    tile_x: usize,
    tile_y: usize,
    frame: &mut Frame,
    sprite_palette: &[u8; 4],
    tile_prio: bool,
    flip_vert: bool,
    flip_hori: bool,
)
    requires
        old(frame).wf(),
        tile.len() == 16,
        tile_x <= 0xFF00,
        tile_y <= 0xFF00,
    ensures
        final(frame).wf(),
{
    let mut y: usize = 0;
    while y < 8
        invariant
            frame.wf(),
            tile.len() == 16,
            tile_x <= 0xFF00,
            tile_y <= 0xFF00,
        decreases 8 - y,
    {
        let mut lower = tile[y];
        let mut upper = tile[y + 8];

        let mut xi: usize = 0;
        // The top bit of the planes is the leftmost pixel, so columns are
        // walked from the right.
        while xi < 8
            invariant
                frame.wf(),
                tile_x <= 0xFF00,
                tile_y <= 0xFF00,
                y < 8,
            decreases 8 - xi,
        {
            let x = 7 - xi;
            let pal_id = ((1 & upper) << 1) | (1 & lower);
            proof {
                lemma_pal_id_bound(upper, lower);
            }
            lower = lower >> 1;
            upper = upper >> 1;
            if pal_id != 0 {
                let color = system_palette_color(sprite_palette[pal_id as usize]);
                match (flip_hori, flip_vert) {
                    (false, false) => frame.check_and_set(false, tile_prio, tile_x + x, tile_y + y, color),
                    (true, false) => frame.check_and_set(false, tile_prio, tile_x + 7 - x, tile_y + y, color),
                    (false, true) => frame.check_and_set(false, tile_prio, tile_x + x, tile_y + 7 - y, color),
                    (true, true) => frame.check_and_set(false, tile_prio, tile_x + 7 - x, tile_y + 7 - y, color),
                }
            }
            xi = xi + 1;
        }
        y = y + 1;
    }
}

/// A two-bit pixel value never reaches four.
proof fn lemma_pal_id_bound(u: u8, l: u8)
    by (bit_vector)
    ensures
        ((1 & u) << 1) | (1 & l) < 4,
{
}

/// Draws one nametable through the viewport, shifted by the scroll offsets:
/// for every tile, the pattern comes from the mapper, the palette from the
/// attribute table, and pixels land where the viewport admits them.
pub fn render_name_table(
    ppu: &NesPPU,
    mapper: &Mapper,
    frame: &mut Frame,
    name_table: &Vec<u8>,
    view_port: Rect,
    shift_x: i32,
    shift_y: i32,
)
    requires
        old(frame).wf(),
        ppu.wf(),
        mapper.wf(),
        name_table.len() == 0x400,
        -0x10000 <= shift_x <= 0x10000,
        -0x10000 <= shift_y <= 0x10000,
    ensures
        final(frame).wf(),
{
    let bank = ppu.ctrl.get_background_bank_val();
    let attribute_table = copy_range(name_table, 0x3C0, 0x40);

    let mut i: usize = 0;
    while i < 0x3C0
        invariant
            frame.wf(),
            ppu.wf(),
            mapper.wf(),
            name_table.len() == 0x400,
            attribute_table.len() == 64,
            bank <= 0x1000,
            -0x10000 <= shift_x <= 0x10000,
            -0x10000 <= shift_y <= 0x10000,
        decreases 0x3C0 - i,
    {
        let tile_id = name_table[i] as u16;
        let x_offset = i % 32;
        let y_offset = i / 32;

        let palette = bg_pallette(ppu, &attribute_table, x_offset, y_offset);

        // The tile's sixteen pattern bytes, fetched through the mapper; a
        // byte the cartridge cannot serve reads as zero.
        let mut tile: Vec<u8> = Vec::new();
        let mut k: usize = 0;
        while k < 16
            invariant
                mapper.wf(),
                tile.len() == k,
                k <= 16,
                bank <= 0x1000,
                tile_id <= 255,
            decreases 16 - k,
        {
            let b = match mapper.ppu_read(bank + tile_id * 16 + (k as u16)) {
                Ok(v) => v,
                Err(_) => 0,
            };
            tile.push(b);
            k = k + 1;
        }

        let mut y: usize = 0;
        while y < 8
            invariant
                frame.wf(),
                ppu.wf(),
                tile.len() == 16,
                x_offset <= 31,
                y_offset <= 29,
                -0x10000 <= shift_x <= 0x10000,
                -0x10000 <= shift_y <= 0x10000,
            decreases 8 - y,
        {
            let mut lower = tile[y];
            let mut upper = tile[y + 8];

            let mut xi: usize = 0;
            while xi < 8
                invariant
                    frame.wf(),
                    ppu.wf(),
                    x_offset <= 31,
                    y_offset <= 29,
                    y < 8,
                    -0x10000 <= shift_x <= 0x10000,
                    -0x10000 <= shift_y <= 0x10000,
                decreases 8 - xi,
            {
                let x = 7 - xi;
                let pal_id = ((1 & upper) << 1) | (1 & lower);
                proof {
                    lemma_pal_id_bound(upper, lower);
                }
                lower = lower >> 1;
                upper = upper >> 1;
                let color = system_palette_color(palette[pal_id as usize]);
                let trans = pal_id == 0;

                let pixel_x = (x_offset * 8) + x;
                let pixel_y = (y_offset * 8) + y;

                if pixel_x >= view_port.x1 && pixel_x < view_port.x2 && pixel_y >= view_port.y1
                    && pixel_y < view_port.y2 {
                    let sx = (pixel_x as i32) + shift_x;
                    let sy = (pixel_y as i32) + shift_y;
                    if 0 <= sx && sx < 0x10000 && 0 <= sy && sy < 0x10000 {
                        frame.set_pixel(trans, sx as usize, sy as usize, color);
                    }
                }
                xi = xi + 1;
            }
            y = y + 1;
        }
        i = i + 1;
    }
}

/// Composites one 8x8 sprite from its attribute bytes.
pub fn render_8x8_sprite(
    ppu: &NesPPU,
    mapper: &Mapper,
    frame: &mut Frame,
    tile_y: usize,
    tile_index: u16,
    tile_attr: u8,
    tile_x: usize,
)
    requires
        old(frame).wf(),
        ppu.wf(),
        mapper.wf(),
        tile_index <= 255,
        tile_x <= 255,
        tile_y <= 255,
    ensures
        final(frame).wf(),
{
    let flip_vertical = (tile_attr >> 7) & 1 == 1;
    let flip_horizontal = (tile_attr >> 6) & 1 == 1;
    // A raised bit 5 puts the sprite behind the background.
    let tile_prio = (tile_attr >> 5) & 1 != 1;

    let palette_index = tile_attr & 0x03;
    proof {
        lemma_quadrant_bound(tile_attr);
    }
    let pal = sprite_palette(ppu, palette_index);

    let bank: u16 = if ppu.ctrl.is_sprite_pattern_addr() {
        0x1000
    } else {
        0x0000
    };

    let mut tile: Vec<u8> = Vec::new();
    let mut k: usize = 0;
    while k < 16
        invariant
            mapper.wf(),
            tile.len() == k,
            k <= 16,
            bank <= 0x1000,
            tile_index <= 255,
        decreases 16 - k,
    {
        let b = match mapper.ppu_read(bank + tile_index * 16 + (k as u16)) {
            Ok(v) => v,
            Err(_) => 0,
        };
        tile.push(b);
        k = k + 1;
    }
    render_sprite_tile(&tile, tile_x, tile_y, frame, &pal, tile_prio, flip_vertical, flip_horizontal);
}

/// Composites one 8x16 sprite: the tile's low bit picks the pattern bank,
/// the top and bottom halves swap under a vertical flip.
pub fn render_8x16_sprite(
    ppu: &NesPPU,
    mapper: &Mapper,
    frame: &mut Frame,
    tile_y: usize,
    tile_index: u16,
    tile_attr: u8,
    tile_x: usize,
)
    requires
        old(frame).wf(),
        ppu.wf(),
        mapper.wf(),
        tile_index <= 255,
        tile_x <= 255,
        tile_y <= 255,
    ensures
        final(frame).wf(),
{
    let flip_vertical = (tile_attr >> 7) & 1 == 1;
    let flip_horizontal = (tile_attr >> 6) & 1 == 1;
    let tile_prio = (tile_attr >> 5) & 1 != 1;

    let palette_index = tile_attr & 0x03;
    proof {
        lemma_quadrant_bound(tile_attr);
    }
    let pal = sprite_palette(ppu, palette_index);

    let bank: u16 = if (tile_index & 0x01) == 1 {
        0x1000
    } else {
        0x0000
    };

    let mut tile1: Vec<u8> = Vec::new();
    let mut tile2: Vec<u8> = Vec::new();
    let mut k: usize = 0;
    while k < 16
        invariant
            mapper.wf(),
            tile1.len() == k,
            tile2.len() == k,
            k <= 16,
            bank <= 0x1000,
            tile_index <= 255,
        decreases 16 - k,
    {
        let b1 = match mapper.ppu_read(bank + tile_index * 16 + (k as u16)) {
            Ok(v) => v,
            Err(_) => 0,
        };
        let b2 = match mapper.ppu_read(bank + tile_index * 16 + (k as u16) + 16) {
            Ok(v) => v,
            Err(_) => 0,
        };
        tile1.push(b1);
        tile2.push(b2);
        k = k + 1;
    }

    if !flip_vertical {
        render_sprite_tile(&tile1, tile_x, tile_y, frame, &pal, tile_prio, flip_vertical, flip_horizontal);
        render_sprite_tile(&tile2, tile_x, tile_y + 8, frame, &pal, tile_prio, flip_vertical, flip_horizontal);
    } else {
        render_sprite_tile(&tile2, tile_x, tile_y, frame, &pal, tile_prio, flip_vertical, flip_horizontal);
        render_sprite_tile(&tile1, tile_x, tile_y + 8, frame, &pal, tile_prio, flip_vertical, flip_horizontal);
    }
}

/// Translates the picture processor's memory into one full frame: the main
/// nametable shifted by the scroll, the complementary nametable filling the
/// exposed strip, and the sprites composited back to front so the first
/// object ends up on top.
pub fn render(ppu: &NesPPU, mapper: &Mapper, frame: &mut Frame) -> (r: Result<(), EmuError>)
    requires
        old(frame).wf(),
        ppu.wf(),
        mapper.wf(),
    ensures
        final(frame).wf(),
{
    let scroll = ppu.scroll.read();
    let nt_base = ppu.ctrl.read_nametable();
    let mirroring = mapper.get_mirroring();

    let lower_first = matches!(mirroring, Mirroring::VERTICAL) && (nt_base == 0x2000 || nt_base
        == 0x2800) || matches!(mirroring, Mirroring::HORIZONTAL) && (nt_base == 0x2000 || nt_base
        == 0x2400);
    let upper_first = matches!(mirroring, Mirroring::VERTICAL) && (nt_base == 0x2400 || nt_base
        == 0x2C00) || matches!(mirroring, Mirroring::HORIZONTAL) && (nt_base == 0x2800 || nt_base
        == 0x2C00);

    let (main_nametable, other_nametable) = if lower_first {
        (copy_range(&ppu.vram, 0, 0x400), copy_range(&ppu.vram, 0x400, 0x400))
    } else if upper_first {
        (copy_range(&ppu.vram, 0x400, 0x400), copy_range(&ppu.vram, 0, 0x400))
    } else if matches!(mirroring, Mirroring::SINGLE_LOWER) {
        (copy_range(&ppu.vram, 0, 0x400), copy_range(&ppu.vram, 0, 0x400))
    } else if matches!(mirroring, Mirroring::SINGLE_UPPER) {
        (copy_range(&ppu.vram, 0x400, 0x400), copy_range(&ppu.vram, 0x400, 0x400))
    } else {
        return Err(EmuError::UnsupportedMirroring);
    };

    let scroll_x = scroll.0 as usize;
    let scroll_y = scroll.1 as usize;

    render_name_table(
        ppu,
        mapper,
        frame,
        &main_nametable,
        Rect::new(scroll_x, scroll_y, 256, 240),
        -(scroll_x as i32),
        -(scroll_y as i32),
    );

    // The strip the scroll exposes comes from the complementary nametable.
    if scroll_x > 0 {
        render_name_table(
            ppu,
            mapper,
            frame,
            &other_nametable,
            Rect::new(0, 0, scroll_x, 240),
            256 - (scroll_x as i32),
            0,
        );
    } else if scroll_y > 0 {
        render_name_table(
            ppu,
            mapper,
            frame,
            &other_nametable,
            Rect::new(0, 0, 256, scroll_y),
            0,
            240 - (scroll_y as i32),
        );
    }

    // Sprites, last object first, so earlier objects overwrite later ones.
    let mut i: usize = 252;
    loop
        invariant
            frame.wf(),
            ppu.wf(),
            mapper.wf(),
            i <= 252,
            i % 4 == 0,
        decreases i,
    {
        let tile_y = ppu.oam_data[i] as usize;
        let tile_index = ppu.oam_data[i + 1] as u16;
        let tile_attr = ppu.oam_data[i + 2];
        let tile_x = ppu.oam_data[i + 3] as usize;

        if ppu.ctrl.is_sprite_size() {
            render_8x16_sprite(ppu, mapper, frame, tile_y, tile_index, tile_attr, tile_x);
        } else {
            render_8x8_sprite(ppu, mapper, frame, tile_y, tile_index, tile_attr, tile_x);
        }

        if i == 0 {
            break ;
        }
        i = i - 4;
    }
    Ok(())
}

} // verus!
