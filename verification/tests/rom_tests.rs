use nes_core::rom::{create_rom, Mirroring, Rom, TestRom, CHR_ROM_PAGE_SIZE, PRG_ROM_PAGE_SIZE};

#[test]
fn test() {
    let test_rom = create_rom(TestRom {
        header: vec![
            0x4E, 0x45, 0x53, 0x1A, 0x02, 0x01, 0x31, 00, 00, 00, 00, 00, 00, 00, 00, 00,
        ],
        trainer: None,
        pgp_rom: vec![1; 2 * PRG_ROM_PAGE_SIZE],
        chr_rom: vec![2; 1 * CHR_ROM_PAGE_SIZE],
    });

    let rom: Rom = Rom::new(&test_rom).unwrap();

    assert_eq!(rom.chr_rom, vec!(2; 1 * CHR_ROM_PAGE_SIZE));
    assert_eq!(rom.prg_rom, vec!(1; 2 * PRG_ROM_PAGE_SIZE));
    assert_eq!(rom.mapper_id, 3);
    assert_eq!(rom.screen_mirroring, Mirroring::VERTICAL);
}

#[test]
fn test_with_trainer() {
    let test_rom = create_rom(TestRom {
        header: vec![
            0x4E,
            0x45,
            0x53,
            0x1A,
            0x02,
            0x01,
            0x31 | 0b100,
            00,
            00,
            00,
            00,
            00,
            00,
            00,
            00,
            00,
        ],
        trainer: Some(vec![0; 512]),
        pgp_rom: vec![1; 2 * PRG_ROM_PAGE_SIZE],
        chr_rom: vec![2; 1 * CHR_ROM_PAGE_SIZE],
    });

    let rom: Rom = Rom::new(&test_rom).unwrap();

    assert_eq!(rom.chr_rom, vec!(2; 1 * CHR_ROM_PAGE_SIZE));
    assert_eq!(rom.prg_rom, vec!(1; 2 * PRG_ROM_PAGE_SIZE));
    assert_eq!(rom.mapper_id, 3);
    assert_eq!(rom.screen_mirroring, Mirroring::VERTICAL);
}

#[test]
fn test_nes2_is_not_supported() {
    let test_rom = create_rom(TestRom {
        header: vec![
            0x4E, 0x45, 0x53, 0x1A, 0x01, 0x01, 0x31, 0x8, 00, 00, 00, 00, 00, 00, 00, 00,
        ],
        trainer: None,
        pgp_rom: vec![1; 1 * PRG_ROM_PAGE_SIZE],
        chr_rom: vec![2; 1 * CHR_ROM_PAGE_SIZE],
    });
    let rom = Rom::new(&test_rom);
    match rom {
        Result::Ok(_) => assert!(false, "should not load rom"),
        Result::Err(str) => assert_eq!(str, "NES2.0 format is not supported"),
    }
}

#[test]
fn test_bad_magic_is_rejected() {
    let raw = vec![0x4Eu8, 0x45, 0x53, 0x00, 0x01, 0x01, 0x00, 0x00, 0, 0, 0, 0, 0, 0, 0, 0];
    match Rom::new(&raw) {
        Result::Ok(_) => assert!(false, "should not load rom"),
        Result::Err(msg) => assert_eq!(msg, "File is not in iNES file format"),
    }
}

#[test]
fn test_truncated_image_is_rejected() {
    // The header declares one program bank but the file ends after it.
    let raw = vec![0x4Eu8, 0x45, 0x53, 0x1A, 0x01, 0x00, 0x00, 0x00, 0, 0, 0, 0, 0, 0, 0, 0];
    match Rom::new(&raw) {
        Result::Ok(_) => assert!(false, "should not load rom"),
        Result::Err(msg) => assert_eq!(msg, "iNES image is truncated"),
    }
}

#[test]
fn test_chr_ram_cartridge_gets_blank_chr() {
    let rom = Rom::new_test(vec![0xA9, 0x05, 0x00]).unwrap();
    assert!(rom.is_chr_ram);
    assert_eq!(rom.chr_rom.len(), CHR_ROM_PAGE_SIZE);
    assert_eq!(rom.prg_rom.len(), PRG_ROM_PAGE_SIZE);
    assert_eq!(rom.prg_rom[0], 0xA9);
    assert_eq!(rom.prg_rom[1], 0x05);
    assert_eq!(rom.prg_rom[2], 0x00);
    assert_eq!(rom.prg_rom[3], 0x00);
}

#[test]
fn test_generate_mapper_picks_the_circuit() {
    let rom = nes_core::rom::test_rom();
    // Mapper number 3 is not supported: the fixed-bank circuit stands in.
    let mapper = rom.generate_mapper();
    assert_eq!(mapper.get_mapping(), 0);
    assert_eq!(mapper.get_mirroring(), Mirroring::VERTICAL);
}
