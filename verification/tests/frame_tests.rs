use nes_core::frame::Frame;
use nes_core::joypad::{Joypad, JoypadButton};
use nes_core::palette::system_palette_color;
use nes_core::render::render;
use nes_core::rom::test_rom;
use nes_core::tiles::{read_screen_state, show_tile_bank};

#[test]
fn test_set_pixel_writes_rgb_and_mask() {
    let mut frame = Frame::new();
    frame.set_pixel(false, 3, 2, (0x11, 0x22, 0x33));
    let base = 2 * 768 + 3 * 3;
    assert_eq!(frame.data[base], 0x11);
    assert_eq!(frame.data[base + 1], 0x22);
    assert_eq!(frame.data[base + 2], 0x33);
    assert_eq!(frame.transparency[base / 3], false);
}

#[test]
fn test_check_and_set_respects_priority() {
    let mut frame = Frame::new();
    // An opaque background pixel.
    frame.set_pixel(false, 5, 5, (9, 9, 9));
    // A behind-background sprite pixel may not land on it.
    frame.check_and_set(false, false, 5, 5, (1, 2, 3));
    let base = 5 * 768 + 5 * 3;
    assert_eq!(frame.data[base], 9);
    // A front sprite pixel may.
    frame.check_and_set(false, true, 5, 5, (1, 2, 3));
    assert_eq!(frame.data[base], 1);
}

#[test]
fn test_out_of_range_pixel_is_dropped() {
    let mut frame = Frame::new();
    let before = frame.data.clone();
    frame.set_pixel(false, 0, 400, (1, 2, 3));
    assert_eq!(frame.data, before);
}

#[test]
fn test_joypad_strobe_and_shift_order() {
    let mut joypad = Joypad::new();
    joypad.set_button_pressed_status(JoypadButton::BUTTON_B, true);
    joypad.set_button_pressed_status(JoypadButton::LEFT, true);

    joypad.write(1);
    assert_eq!(joypad.read(), 0); // button A, repeatedly
    assert_eq!(joypad.read(), 0);

    joypad.write(0);
    let expected = [0u8, 1, 0, 0, 0, 0, 1, 0];
    for e in expected {
        assert_eq!(joypad.read(), e);
    }
    assert_eq!(joypad.read(), 1); // exhausted
    assert_eq!(joypad.peek(), 1);
}

#[test]
fn test_system_palette_samples() {
    assert_eq!(system_palette_color(0), (0x80, 0x80, 0x80));
    assert_eq!(system_palette_color(0x01), (0x00, 0x3D, 0xA6));
    assert_eq!(system_palette_color(0x23), (0xD4, 0x80, 0xFF));
    assert_eq!(system_palette_color(0x30), (0xFF, 0xFF, 0xFF));
    assert_eq!(system_palette_color(0x3F), (0x11, 0x11, 0x11));
}

#[test]
fn test_render_smoke() {
    let rom = test_rom();
    let mapper = rom.generate_mapper();
    let ppu = nes_core::ppu::NesPPU::new(rom.chr_rom.clone(), rom.screen_mirroring);
    let mut frame = Frame::new();
    render(&ppu, &mapper, &mut frame).unwrap();
    assert_eq!(frame.data.len(), 256 * 240 * 3);
}

#[test]
fn test_show_tile_bank_draws_something() {
    let mut chr = vec![0u8; 0x2000];
    chr[16] = 0xFF; // tile 1, first plane: a solid row
    let frame = show_tile_bank(&chr, 0);
    assert_eq!(frame.data.len(), 256 * 240 * 3);
    // Tile 1 sits nine pixels in; its first row drew the colour for
    // plane value 1.
    let (r, _g, _b) = system_palette_color(0x27);
    assert_eq!(frame.data[9 * 3], r);
}

#[test]
fn test_read_screen_state_reports_changes() {
    let mut cpu = nes_core::cpu::CPU::new(nes_core::bus::Bus::new(test_rom()));
    let mut screen = vec![0u8; 32 * 3 * 32];
    // A fresh screen of colour index 0 differs from the zero buffer only
    // where black maps to (0,0,0): no update at all.
    assert!(!read_screen_state(&mut cpu, &mut screen));
    cpu.mem_write(0x0200, 1).unwrap(); // white
    assert!(read_screen_state(&mut cpu, &mut screen));
    assert_eq!(&screen[0..3], &[255, 255, 255]);
    assert!(!read_screen_state(&mut cpu, &mut screen));
}
