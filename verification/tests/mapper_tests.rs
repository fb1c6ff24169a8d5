use nes_core::mapping::mapper0::Mapper0;
use nes_core::mapping::mapper1::Mapper1;
use nes_core::rom::Mirroring;

#[test]
fn test_mapper0_sixteen_kib_bank_is_mirrored() {
    let mut prg = vec![0u8; 0x4000];
    for i in 0..0x4000 {
        prg[i] = (i % 251) as u8;
    }
    let m = Mapper0::new(prg, vec![0; 0x2000], Mirroring::HORIZONTAL, false);
    // Every upper-window address reads the same byte as its image in the
    // lower window.
    for a in [0x8000u16, 0x9ABC, 0xBFFF, 0xC000, 0xD123, 0xFFFF] {
        let folded = 0x8000 + ((a - 0x8000) % 0x4000);
        assert_eq!(m.cpu_read(a).unwrap(), m.cpu_read(folded).unwrap());
    }
    assert_eq!(m.cpu_read(0xC005).unwrap(), m.cpu_read(0x8005).unwrap());
}

#[test]
fn test_mapper0_rejects_writes_to_fixed_rom() {
    let mut m = Mapper0::new(vec![0; 0x8000], vec![0; 0x2000], Mirroring::VERTICAL, false);
    assert!(m.cpu_write(0x8123, 0x55).is_err());
    assert_eq!(m.cpu_read(0x8123).unwrap(), 0);
}

#[test]
fn test_mapper0_chr_ram_is_writable() {
    let mut m = Mapper0::new(vec![0; 0x4000], vec![0; 0x2000], Mirroring::VERTICAL, true);
    m.ppu_write(0x0123, 0x77).unwrap();
    assert_eq!(m.ppu_read(0x0123).unwrap(), 0x77);

    let mut fixed = Mapper0::new(vec![0; 0x4000], vec![0; 0x2000], Mirroring::VERTICAL, false);
    assert!(fixed.ppu_write(0x0123, 0x77).is_err());
}

#[test]
fn test_mapper1_five_writes_load_the_program_bank() {
    let mut m = Mapper1::new(vec![0u8; 0x40000], vec![0; 0x2000], Mirroring::VERTICAL, false);
    // Feed the bits 1, 1, 0, 1, 0 bottom-up into the program-bank selector:
    // the first written bit lands at bit 0, so the register reads 0b01011.
    for bit in [1u8, 1, 0, 1, 0] {
        m.cpu_write(0xE000, bit).unwrap();
    }
    assert_eq!(m.prg_bank, 0b01011);
    assert_eq!(m.shift_count, 0);
    assert_eq!(m.shift_register, 0);
    // Power-on control selects fix-last-bank mode: the first window follows
    // the selected bank.
    assert_eq!(m.prg_rom_bank_mode, 3);
    assert_eq!(m.prg_bank_offset_first, 0b1011 * 0x4000);
    // The second window is pinned to the last bank.
    assert_eq!(m.prg_bank_offset_second, 0x40000 - 0x4000);
}

#[test]
fn test_mapper1_bit7_resets_shift_and_mode() {
    let mut m = Mapper1::new(vec![0u8; 0x40000], vec![0; 0x2000], Mirroring::VERTICAL, false);
    // Move the control register out of its power-on mode first: five zero
    // bits select 32 KiB switching and single-screen mirroring.
    for _ in 0..5 {
        m.cpu_write(0x8000, 0).unwrap();
    }
    assert_eq!(m.prg_rom_bank_mode, 0);
    assert_eq!(m.mirroring, Mirroring::SINGLE_LOWER);

    // Two pending bits, then a write with bit 7: everything resets and the
    // fix-last-bank mode returns.
    m.cpu_write(0xE000, 1).unwrap();
    m.cpu_write(0xE000, 1).unwrap();
    m.cpu_write(0x8000, 0x80).unwrap();
    assert_eq!(m.shift_register, 0);
    assert_eq!(m.shift_count, 0);
    assert_eq!(m.control, 0x0C);
    assert_eq!(m.prg_rom_bank_mode, 3);
}

#[test]
fn test_mapper1_control_rewrites_mirroring() {
    let mut m = Mapper1::new(vec![0u8; 0x40000], vec![0; 0x2000], Mirroring::VERTICAL, false);
    // Control value 0b00011: horizontal arrangement.
    for bit in [1u8, 1, 0, 0, 0] {
        m.cpu_write(0x8000, bit).unwrap();
    }
    assert_eq!(m.mirroring, Mirroring::HORIZONTAL);
    // Control value 0b00010: vertical arrangement.
    for bit in [0u8, 1, 0, 0, 0] {
        m.cpu_write(0x8000, bit).unwrap();
    }
    assert_eq!(m.mirroring, Mirroring::VERTICAL);
}

#[test]
fn test_mapper1_chr_banks_window_the_pattern_space() {
    let mut chr = vec![0u8; 0x20000];
    for i in 0..0x20000 {
        chr[i] = (i / 0x1000) as u8;
    }
    let mut m = Mapper1::new(vec![0u8; 0x40000], chr, Mirroring::VERTICAL, false);
    // Split character banking: control 0b10000.
    for bit in [0u8, 0, 0, 0, 1] {
        m.cpu_write(0x8000, bit).unwrap();
    }
    // First window on bank 5: writes go to the selector at 0xA000.
    for bit in [1u8, 0, 1, 0, 0] {
        m.cpu_write(0xA000, bit).unwrap();
    }
    assert_eq!(m.chr_bank_0_offset, 5 * 0x1000);
    assert_eq!(m.ppu_read(0x0000).unwrap(), 5);
}

#[test]
fn test_mapper1_work_memory_round_trip() {
    let mut m = Mapper1::new(vec![0u8; 0x40000], vec![0; 0x2000], Mirroring::VERTICAL, false);
    m.cpu_write(0x6123, 0x5A).unwrap();
    assert_eq!(m.cpu_read(0x6123).unwrap(), 0x5A);
}
