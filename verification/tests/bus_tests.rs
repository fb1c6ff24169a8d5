use nes_core::bus::Bus;
use nes_core::joypad::JoypadButton;
use nes_core::rom::test_rom;

#[test]
fn test_mem_read_write_to_ram() {
    let mut bus = Bus::new(test_rom());
    bus.mem_write(0x01, 0x55).unwrap();
    assert_eq!(bus.mem_read(0x01).unwrap(), 0x55);
}

#[test]
fn test_ram_is_mirrored_every_two_kib() {
    let mut bus = Bus::new(test_rom());
    bus.mem_write(0x0042, 0x99).unwrap();
    assert_eq!(bus.mem_read(0x0842).unwrap(), 0x99);
    assert_eq!(bus.mem_read(0x1042).unwrap(), 0x99);
    assert_eq!(bus.mem_read(0x1842).unwrap(), 0x99);
}

#[test]
fn test_status_port_write_is_rejected_and_harmless() {
    let mut bus = Bus::new(test_rom());
    bus.ppu.status.set_vblank_started(true);
    let before = bus.ppu.status.current_val();

    // Strict mode: the write is an error and nothing changes.
    assert!(bus.mem_write(0x2002, 0xFF).is_err());
    assert_eq!(bus.ppu.status.current_val(), before);

    // Lenient mode: the write is dropped and nothing changes.
    bus.strict = false;
    bus.mem_write(0x2002, 0xFF).unwrap();
    assert_eq!(bus.ppu.status.current_val(), before);
}

#[test]
fn test_vblank_raises_nmi_and_frame_ready_once() {
    let mut bus = Bus::new(test_rom());
    // Enable interrupt generation, then run the clock into the blank
    // period: 28000 processor cycles are 84000 dots, past scanline 241 and
    // short of the frame wrap.
    bus.mem_write(0x2000, 0x80).unwrap();
    bus.tick(28000);

    assert!(bus.poll_nmi_status());
    assert!(bus.poll_frame_ready());
    assert!(!bus.poll_frame_ready()); // the edge is latched exactly once

    // The status read observes the blank bit and clears it.
    let st = bus.mem_read(0x2002).unwrap();
    assert_eq!(st >> 7, 1);
    let st2 = bus.mem_read(0x2002).unwrap();
    assert_eq!(st2 >> 7, 0);
}

#[test]
fn test_no_nmi_when_generation_is_off() {
    let mut bus = Bus::new(test_rom());
    bus.tick(28000);
    assert!(!bus.poll_nmi_status());
    assert!(!bus.poll_frame_ready());
}

#[test]
fn test_oam_dma_copies_a_page_in_order() {
    let mut bus = Bus::new(test_rom());
    for i in 0..256u16 {
        bus.mem_write(0x0200 + i, i as u8).unwrap();
    }
    bus.mem_write(0x2003, 0x00).unwrap(); // object-attribute address 0
    bus.mem_write(0x4014, 0x02).unwrap(); // burst from page 2
    for i in 0..256usize {
        assert_eq!(bus.ppu.oam_data[i], i as u8);
    }
}

#[test]
fn test_oam_dma_wraps_around_the_start_address() {
    let mut bus = Bus::new(test_rom());
    for i in 0..256u16 {
        bus.mem_write(0x0300 + i, i as u8).unwrap();
    }
    bus.mem_write(0x2003, 0x10).unwrap();
    bus.mem_write(0x4014, 0x03).unwrap();
    assert_eq!(bus.ppu.oam_data[0x10], 0x00);
    assert_eq!(bus.ppu.oam_data[0x0F], 0xFF);
    // The address ends where it started.
    bus.mem_write(0x2004, 0xAB).unwrap();
    assert_eq!(bus.ppu.oam_data[0x10], 0xAB);
}

#[test]
fn test_controller_port_shifts_buttons_out() {
    let mut bus = Bus::new(test_rom());
    bus.joypad1.set_button_pressed_status(JoypadButton::BUTTON_A, true);
    bus.joypad1.set_button_pressed_status(JoypadButton::START, true);

    // Strobe high latches the index on button A.
    bus.mem_write(0x4016, 1).unwrap();
    assert_eq!(bus.mem_read(0x4016).unwrap(), 1);
    assert_eq!(bus.mem_read(0x4016).unwrap(), 1);

    // Strobe low shifts out A, B, Select, Start, Up, Down, Left, Right.
    bus.mem_write(0x4016, 0).unwrap();
    let expected = [1u8, 0, 0, 1, 0, 0, 0, 0];
    for e in expected {
        assert_eq!(bus.mem_read(0x4016).unwrap(), e);
    }
    // Past the last button every read returns one.
    assert_eq!(bus.mem_read(0x4016).unwrap(), 1);
}

#[test]
fn test_audio_and_open_bus_read_zero() {
    let mut bus = Bus::new(test_rom());
    assert_eq!(bus.mem_read(0x4000).unwrap(), 0);
    assert_eq!(bus.mem_read(0x4015).unwrap(), 0);
    assert_eq!(bus.mem_read(0x4017).unwrap(), 0);
    assert_eq!(bus.mem_read(0x5000).unwrap(), 0);
    bus.mem_write(0x4000, 0xAA).unwrap();
    bus.mem_write(0x5000, 0xAA).unwrap();
}

#[test]
fn test_prg_reads_reach_the_cartridge() {
    let mut bus = Bus::new_fake_rom();
    // The dummy cartridge is one bank of no-operation opcodes, mirrored.
    assert_eq!(bus.mem_read(0x8000).unwrap(), 0xEA);
    assert_eq!(bus.mem_read(0xC000).unwrap(), 0xEA);
    assert_eq!(bus.mem_peek_u16(0x8000), 0xEAEA);
}

#[test]
fn test_data_port_through_the_bus() {
    let mut bus = Bus::new(test_rom());
    // Two address-port writes, then a data write; the buffered read needs
    // a priming read first.
    bus.mem_write(0x2006, 0x23).unwrap();
    bus.mem_write(0x2006, 0x05).unwrap();
    bus.mem_write(0x2007, 0x66).unwrap();

    bus.mem_write(0x2006, 0x23).unwrap();
    bus.mem_write(0x2006, 0x05).unwrap();
    bus.mem_read(0x2007).unwrap();
    assert_eq!(bus.mem_read(0x2007).unwrap(), 0x66);

    // The register window repeats every eight bytes.
    bus.mem_write(0x2006 + 0x0FF8, 0x23).unwrap();
    bus.mem_write(0x2006 + 0x0FF8, 0x05).unwrap();
    bus.mem_read(0x2007 + 0x1230).unwrap();
    assert_eq!(bus.mem_read(0x2007 + 0x1230).unwrap(), 0x66);
}

#[test]
fn test_strict_read_of_write_only_register() {
    let mut bus = Bus::new(test_rom());
    assert!(bus.mem_read(0x2000).is_err());
    assert!(bus.mem_read(0x2005).is_err());
    assert!(bus.mem_read(0x4014).is_err());
    bus.strict = false;
    assert_eq!(bus.mem_read(0x2000).unwrap(), 0);
    assert_eq!(bus.mem_read(0x4014).unwrap(), 0);
}

#[test]
fn test_mapper0_work_ram_through_the_bus() {
    let mut bus = Bus::new(test_rom());
    bus.mem_write(0x6123, 0x5A).unwrap();
    assert_eq!(bus.mem_read(0x6123).unwrap(), 0x5A);
    // The fixed program window still refuses writes in strict mode.
    assert!(bus.mem_write(0x9000, 0x01).is_err());
}

#[test]
fn test_oam_dma_advances_bus_time() {
    let mut bus = Bus::new(test_rom());
    let before = bus.cycles;
    bus.mem_write(0x4014, 0x02).unwrap();
    // The burst occupies the bus for 513 cycles.
    assert_eq!(bus.cycles - before, 513);
}
