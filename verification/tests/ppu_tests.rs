use nes_core::ppu::NesPPU;
use nes_core::rom::Mirroring;

#[test]
fn test_ppu_vram_writes() {
    let mut ppu = NesPPU::new_empty_rom();
    ppu.write_to_ppu_addr(0x23);
    ppu.write_to_ppu_addr(0x05);
    ppu.write_to_data(0x66).unwrap();

    assert_eq!(ppu.vram[0x0305], 0x66);
}

#[test]
fn test_ppu_vram_reads() {
    let mut ppu = NesPPU::new_empty_rom();
    ppu.write_to_ctrl(0);
    ppu.vram[0x0305] = 0x66;

    ppu.write_to_ppu_addr(0x23);
    ppu.write_to_ppu_addr(0x05);

    ppu.read_data().unwrap(); //load_into_buffer
    assert_eq!(ppu.addr.get(), 0x2306);
    assert_eq!(ppu.read_data().unwrap(), 0x66);
}

#[test]
fn test_ppu_vram_reads_cross_page() {
    let mut ppu = NesPPU::new_empty_rom();
    ppu.write_to_ctrl(0);
    ppu.vram[0x01ff] = 0x66;
    ppu.vram[0x0200] = 0x77;

    ppu.write_to_ppu_addr(0x21);
    ppu.write_to_ppu_addr(0xff);

    ppu.read_data().unwrap(); //load_into_buffer
    assert_eq!(ppu.read_data().unwrap(), 0x66);
    assert_eq!(ppu.read_data().unwrap(), 0x77);
}

#[test]
fn test_ppu_vram_reads_step_32() {
    let mut ppu = NesPPU::new_empty_rom();
    ppu.write_to_ctrl(0b100);
    ppu.vram[0x01ff] = 0x66;
    ppu.vram[0x01ff + 32] = 0x77;
    ppu.vram[0x01ff + 64] = 0x88;

    ppu.write_to_ppu_addr(0x21);
    ppu.write_to_ppu_addr(0xff);

    ppu.read_data().unwrap(); //load_into_buffer
    assert_eq!(ppu.read_data().unwrap(), 0x66);
    assert_eq!(ppu.read_data().unwrap(), 0x77);
    assert_eq!(ppu.read_data().unwrap(), 0x88);
}

// Horizontal mirroring folds the tables as:
//   [0x2000 A ] [0x2400 a ]
//   [0x2800 B ] [0x2C00 b ]
#[test]
fn test_vram_horizontal_mirror() {
    let mut ppu = NesPPU::new_empty_rom();
    ppu.write_to_ppu_addr(0x24);
    ppu.write_to_ppu_addr(0x05);

    ppu.write_to_data(0x66).unwrap(); //write to a

    ppu.write_to_ppu_addr(0x28);
    ppu.write_to_ppu_addr(0x05);

    ppu.write_to_data(0x77).unwrap(); //write to B

    ppu.write_to_ppu_addr(0x20);
    ppu.write_to_ppu_addr(0x05);

    ppu.read_data().unwrap(); //load into buffer
    assert_eq!(ppu.read_data().unwrap(), 0x66); //read from A

    ppu.write_to_ppu_addr(0x2C);
    ppu.write_to_ppu_addr(0x05);

    ppu.read_data().unwrap(); //load into buffer
    assert_eq!(ppu.read_data().unwrap(), 0x77); //read from b
}

// Vertical mirroring folds the tables as:
//   [0x2000 A ] [0x2400 B ]
//   [0x2800 a ] [0x2C00 b ]
#[test]
fn test_vram_vertical_mirror() {
    let mut ppu = NesPPU::new(vec![0; 2048], Mirroring::VERTICAL);

    ppu.write_to_ppu_addr(0x20);
    ppu.write_to_ppu_addr(0x05);

    ppu.write_to_data(0x66).unwrap(); //write to A

    ppu.write_to_ppu_addr(0x2C);
    ppu.write_to_ppu_addr(0x05);

    ppu.write_to_data(0x77).unwrap(); //write to b

    ppu.write_to_ppu_addr(0x28);
    ppu.write_to_ppu_addr(0x05);

    ppu.read_data().unwrap(); //load into buffer
    assert_eq!(ppu.read_data().unwrap(), 0x66); //read from a

    ppu.write_to_ppu_addr(0x24);
    ppu.write_to_ppu_addr(0x05);

    ppu.read_data().unwrap(); //load into buffer
    assert_eq!(ppu.read_data().unwrap(), 0x77); //read from B
}

#[test]
fn test_read_status_resets_latch() {
    let mut ppu = NesPPU::new_empty_rom();
    ppu.vram[0x0305] = 0x66;

    ppu.write_to_ppu_addr(0x21);
    ppu.write_to_ppu_addr(0x23);
    ppu.write_to_ppu_addr(0x05);

    ppu.read_data().unwrap(); //load_into_buffer
    assert_ne!(ppu.read_data().unwrap(), 0x66);

    ppu.read_status();

    ppu.write_to_ppu_addr(0x23);
    ppu.write_to_ppu_addr(0x05);

    ppu.read_data().unwrap(); //load_into_buffer
    assert_eq!(ppu.read_data().unwrap(), 0x66);
}

#[test]
fn test_ppu_vram_mirroring() {
    let mut ppu = NesPPU::new_empty_rom();
    ppu.write_to_ctrl(0);
    ppu.vram[0x0305] = 0x66;

    ppu.write_to_ppu_addr(0x63); //0x6305 -> 0x2305
    ppu.write_to_ppu_addr(0x05);

    ppu.read_data().unwrap(); //load into_buffer
    assert_eq!(ppu.read_data().unwrap(), 0x66);
}

#[test]
fn test_read_status_resets_vblank() {
    let mut ppu = NesPPU::new_empty_rom();
    ppu.status.set_vblank_started(true);

    let status = ppu.read_status();

    assert_eq!(status >> 7, 1);
    assert_eq!(ppu.status.current_val() >> 7, 0);
}

#[test]
fn test_oam_read_write() {
    let mut ppu = NesPPU::new_empty_rom();
    ppu.oam_addr_write(0x10);
    ppu.oam_data_write(0x66);
    ppu.oam_data_write(0x77);

    ppu.oam_addr_write(0x10);
    assert_eq!(ppu.oam_data_read(), 0x66);

    ppu.oam_addr_write(0x11);
    assert_eq!(ppu.oam_data_read(), 0x77);
}

#[test]
fn test_oam_dma() {
    let mut ppu = NesPPU::new_empty_rom();

    let mut data = [0x66; 256];
    data[0] = 0x77;
    data[255] = 0x88;

    ppu.oam_addr_write(0x10);
    ppu.oam_dma_write(&data);

    ppu.oam_addr_write(0xf); //wrap around
    assert_eq!(ppu.oam_data_read(), 0x88);

    ppu.oam_addr_write(0x10);
    assert_eq!(ppu.oam_data_read(), 0x77);

    ppu.oam_addr_write(0x11);
    assert_eq!(ppu.oam_data_read(), 0x66);
}

#[test]
fn test_two_addr_writes_set_fourteen_bit_pointer() {
    // Any two consecutive address-port writes from the reset latch leave
    // the pointer at ((first & 0x3F) << 8) | second.
    let mut ppu = NesPPU::new_empty_rom();
    ppu.write_to_ppu_addr(0xE7);
    ppu.write_to_ppu_addr(0x21);
    assert_eq!(ppu.addr.get(), ((0xE7 & 0x3F) << 8) | 0x21);
}

#[test]
fn test_scroll_pair_restarts_after_status_read() {
    let mut ppu = NesPPU::new_empty_rom();
    // Leave the latch mid-pair.
    ppu.write_scroll(0x11);
    // The status read resets the shared latch, so the next write is again
    // the first of a pair and lands on the horizontal axis.
    ppu.read_status();
    ppu.write_scroll(0x33);
    assert_eq!(ppu.scroll.read(), (0x33, 0x00));
    ppu.write_scroll(0x44);
    assert_eq!(ppu.scroll.read(), (0x33, 0x44));
}

#[test]
fn test_vblank_window_read_is_an_error() {
    let mut ppu = NesPPU::new_empty_rom();
    ppu.write_to_ppu_addr(0x30);
    ppu.write_to_ppu_addr(0x00);
    assert!(ppu.read_data().is_err());
}

#[test]
fn test_palette_write_and_mirror_entry() {
    let mut ppu = NesPPU::new_empty_rom();
    ppu.write_to_ppu_addr(0x3F);
    ppu.write_to_ppu_addr(0x10);
    // Entry 0x10 is an image of entry 0x00.
    ppu.write_to_data(0x2A).unwrap();
    assert_eq!(ppu.palette_table[0x00], 0x2A);

    ppu.write_to_ppu_addr(0x3F);
    ppu.write_to_ppu_addr(0x00);
    assert_eq!(ppu.read_data().unwrap(), 0x2A);
}
