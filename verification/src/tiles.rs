use vstd::prelude::*;

verus! {

use crate::cpu::CPU;
use crate::frame::Frame;
use crate::palette::system_palette_color;

/// The colour a screen-state byte of the memory-mapped toy display selects.
pub open spec fn spec_screen_color(byte: u8) -> (u8, u8, u8) {
    match byte {
        0u8 => (0x00, 0x00, 0x00),
        1u8 => (0xFF, 0xFF, 0xFF),
        2u8 => (0x80, 0x80, 0x80),
        9u8 => (0x80, 0x80, 0x80),
        3u8 => (0xFF, 0x00, 0x00),
        10u8 => (0xFF, 0x00, 0x00),
        4u8 => (0x00, 0xFF, 0x00),
        11u8 => (0x00, 0xFF, 0x00),
        5u8 => (0x00, 0x00, 0xFF),
        12u8 => (0x00, 0x00, 0xFF),
        6u8 => (0xFF, 0x00, 0xFF),
        13u8 => (0xFF, 0x00, 0xFF),
        7u8 => (0xFF, 0xFF, 0x00),
        14u8 => (0xFF, 0xFF, 0x00),
        _ => (0x00, 0xFF, 0xFF),
    }
}

/// The screen-state colour lookup, executable form.
pub fn screen_color(byte: u8) -> (r: (u8, u8, u8))
    ensures
        r == spec_screen_color(byte),
{
    match byte {
        0u8 => (0x00, 0x00, 0x00),
        1u8 => (0xFF, 0xFF, 0xFF),
        2u8 => (0x80, 0x80, 0x80),
        9u8 => (0x80, 0x80, 0x80),
        3u8 => (0xFF, 0x00, 0x00),
        10u8 => (0xFF, 0x00, 0x00),
        4u8 => (0x00, 0xFF, 0x00),
        11u8 => (0x00, 0xFF, 0x00),
        5u8 => (0x00, 0x00, 0xFF),
        12u8 => (0x00, 0x00, 0xFF),
        6u8 => (0xFF, 0x00, 0xFF),
        13u8 => (0xFF, 0x00, 0xFF),
        7u8 => (0xFF, 0xFF, 0x00),
        14u8 => (0xFF, 0xFF, 0x00),
        _ => (0x00, 0xFF, 0xFF),
    }
}

/// Reads the 32x32 screen-state window at 0x0200..0x0600 into a packed RGB
/// buffer and reports whether any pixel changed.  The window sits in internal
/// memory, so the processor state is untouched.
pub fn read_screen_state(cpu: &mut CPU, screen: &mut Vec<u8>) -> (update: bool)
    requires
        old(cpu).wf(),
        old(screen).len() == 32 * 3 * 32,
    ensures
        final(cpu).wf(),
        *final(cpu) == *old(cpu),
        final(screen).len() == 32 * 3 * 32,
{
    let mut frame_idx: usize = 0;
    let mut update = false;
    let mut i: usize = 0x0200;
    while i < 0x0600
        invariant
            cpu.wf(),
            *cpu == *old(cpu),
            screen.len() == 32 * 3 * 32,
            0x0200 <= i <= 0x0600,
            frame_idx == (i - 0x0200) * 3,
        decreases 0x0600 - i,
    {
        reveal(crate::bus::Bus::spec_read_model);
        let color_idx = match cpu.mem_read(i as u16) {
            Ok(v) => v,
            Err(_) => {
                proof {
                    assert(false);
                }
                0
            },
        };
        let (b1, b2, b3) = screen_color(color_idx);
        if screen[frame_idx] != b1 || screen[frame_idx + 1] != b2 || screen[frame_idx + 2] != b3 {
            screen[frame_idx] = b1;
            screen[frame_idx + 1] = b2;
            screen[frame_idx + 2] = b3;
            update = true;
        }
        frame_idx = frame_idx + 3;
        i = i + 1;
    }
    update
}

/// Draws most of one pattern tile into a fresh frame with a fixed showcase
/// palette.
pub fn show_tile(chr_rom: &Vec<u8>, bank: usize, tile_n: usize) -> (r: Frame)
    requires
        bank <= 1,
        bank * 0x1000 + tile_n * 16 + 15 < chr_rom.len(),
    ensures
        r.wf(),
{
    let mut frame = Frame::new();
    let base = bank * 0x1000 + tile_n * 16;

    let mut y: usize = 0;
    while y < 7
        invariant
            frame.wf(),
            base + 15 < chr_rom.len(),
        decreases 7 - y,
    {
        let mut lower = chr_rom[base + y];
        let mut upper = chr_rom[base + y + 8];

        let mut xi: usize = 0;
        while xi < 7
            invariant
                frame.wf(),
                y < 7,
            decreases 7 - xi,
        {
            let x = 6 - xi;
            let pal_id = ((1 & upper) << 1) | (1 & lower);
            lower = lower >> 1;
            upper = upper >> 1;
            let color = match pal_id {
                0 => system_palette_color(0x01),
                1 => system_palette_color(0x23),
                2 => system_palette_color(0x27),
                _ => system_palette_color(0x30),
            };
            frame.set_pixel(false, x, y, color);
            xi = xi + 1;
        }
        y = y + 1;
    }

    frame
}

/// Draws the 255 leading tiles of one pattern bank on a 16-wide grid.
pub fn show_tile_bank(chr_rom: &Vec<u8>, bank: usize) -> (r: Frame)
    requires
        bank <= 1,
        (bank + 1) * 0x1000 <= chr_rom.len(),
    ensures
        r.wf(),
{
    let mut frame = Frame::new();
    let base = bank * 0x1000;

    let mut tile: usize = 0;
    while tile < 255
        invariant
            frame.wf(),
            base + 0x1000 <= chr_rom.len(),
            tile <= 255,
        decreases 255 - tile,
    {
        let x_offset = (tile % 16) * 9;
        let y_offset = (tile / 16) * 9;

        let mut y: usize = 0;
        while y < 8
            invariant
                frame.wf(),
                base + 0x1000 <= chr_rom.len(),
                tile < 255,
                x_offset <= 135,
                y_offset <= 143,
            decreases 8 - y,
        {
            let mut lower = chr_rom[base + tile * 16 + y];
            let mut upper = chr_rom[base + tile * 16 + y + 8];

            let mut xi: usize = 0;
            while xi < 8
                invariant
                    frame.wf(),
                    x_offset <= 135,
                    y_offset <= 143,
                    y < 8,
                decreases 8 - xi,
            {
                let x = 7 - xi;
                let pal_id = ((1 & upper) << 1) | (1 & lower);
                lower = lower >> 1;
                upper = upper >> 1;
                let color = match pal_id {
                    0 => system_palette_color(0x01),
                    1 => system_palette_color(0x27),
                    2 => system_palette_color(0x23),
                    _ => system_palette_color(0x30),
                };
                frame.set_pixel(false, x + x_offset, y + y_offset, color);
                xi = xi + 1;
            }
            y = y + 1;
        }
        tile = tile + 1;
    }

    frame
}

/// Draws the 255 leading tiles of one pattern bank twenty to a row, reading
/// the two bitplanes of each row in the opposite order.
pub fn his_show_tile_bank(chr_rom: &Vec<u8>, bank: usize) -> (r: Frame)
    requires
        bank <= 1,
        (bank + 1) * 0x1000 <= chr_rom.len(),
    ensures
        r.wf(),
{
    let mut frame = Frame::new();
    let mut tile_y: usize = 0;
    let mut tile_x: usize = 0;
    let base = bank * 0x1000;

    let mut tile_n: usize = 0;
    while tile_n < 255
        invariant
            frame.wf(),
            base + 0x1000 <= chr_rom.len(),
            tile_n <= 255,
            tile_x <= 10 * tile_n,
            tile_y <= 10 * tile_n,
        decreases 255 - tile_n,
    {
        if tile_n != 0 && tile_n % 20 == 0 {
            tile_y = tile_y + 10;
            tile_x = 0;
        }

        let mut y: usize = 0;
        while y < 8
            invariant
                frame.wf(),
                base + 0x1000 <= chr_rom.len(),
                tile_n < 255,
                tile_x <= 2550,
                tile_y <= 2560,
                y <= 8,
            decreases 8 - y,
        {
            let mut upper = chr_rom[base + tile_n * 16 + y];
            let mut lower = chr_rom[base + tile_n * 16 + y + 8];

            let mut xi: usize = 0;
            while xi < 8
                invariant
                    frame.wf(),
                    tile_x <= 2550,
                    tile_y <= 2560,
                    y < 8,
                decreases 8 - xi,
            {
                let x = 7 - xi;
                let value = ((1 & upper) << 1) | (1 & lower);
                upper = upper >> 1;
                lower = lower >> 1;
                let rgb = match value {
                    0 => system_palette_color(0x01),
                    1 => system_palette_color(0x23),
                    2 => system_palette_color(0x27),
                    _ => system_palette_color(0x30),
                };
                frame.set_pixel(false, tile_x + x, tile_y + y, rgb);
                xi = xi + 1;
            }
            y = y + 1;
        }

        tile_x = tile_x + 10;
        tile_n = tile_n + 1;
    }
    frame
}

} // verus!
