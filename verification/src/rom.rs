use vstd::prelude::*;

verus! {

use crate::bytes::{copy_bytes, copy_range, push_all, push_repeat};
use crate::mapper::Mapper;
use crate::mapping::mapper0::Mapper0;
use crate::mapping::mapper1::Mapper1;

/// How the four logical nametables are folded onto the two physical 1 KiB
/// pages of nametable memory.
#[allow(non_camel_case_types)]
#[derive(Debug, PartialEq, Eq, Structural, Clone, Copy)]
pub enum Mirroring {
    VERTICAL,
    HORIZONTAL,
    SINGLE_LOWER,
    SINGLE_UPPER,
    FOUR_SCREEN,
}

pub const PRG_ROM_PAGE_SIZE: usize = 16384;

pub const CHR_ROM_PAGE_SIZE: usize = 8192;

/// An immutable cartridge descriptor: program memory, character memory (or an
/// 8 KiB writable buffer when the image declares none), the mapper number and
/// the nametable mirroring the cartridge requests.
pub struct Rom {
    pub prg_rom: Vec<u8>,
    pub chr_rom: Vec<u8>,
    pub mapper_id: u8,
    pub screen_mirroring: Mirroring,
    pub is_chr_ram: bool,
}

/// The four magic bytes open the image and the declared sizes are present.
pub open spec fn spec_magic_ok(raw: Seq<u8>) -> bool {
    &&& raw.len() >= 4
    &&& raw[0] == 0x4Eu8
    &&& raw[1] == 0x45u8
    &&& raw[2] == 0x53u8
    &&& raw[3] == 0x1Au8
}

/// The mapper number: high nibble of byte 7 above the high nibble of byte 6.
pub open spec fn spec_mapper_id(raw: Seq<u8>) -> u8 {
    (raw[7] & 0xF0) | (raw[6] >> 4)
}

/// The container format version held in bits 2 and 3 of byte 7.
pub open spec fn spec_version(raw: Seq<u8>) -> u8 {
    (raw[7] >> 2) & 0x03
}

/// Bit 3 of byte 6 selects four-screen mirroring; otherwise bit 0 selects
/// vertical over horizontal.
pub open spec fn spec_mirroring(raw: Seq<u8>) -> Mirroring {
    if raw[6] & 0x08 != 0 {
        Mirroring::FOUR_SCREEN
    } else if raw[6] & 0x01 != 0 {
        Mirroring::VERTICAL
    } else {
        Mirroring::HORIZONTAL
    }
}

pub open spec fn spec_prg_size(raw: Seq<u8>) -> int {
    (raw[4] as int) * (PRG_ROM_PAGE_SIZE as int)
}

pub open spec fn spec_chr_size(raw: Seq<u8>) -> int {
    (raw[5] as int) * (CHR_ROM_PAGE_SIZE as int)
}

/// Program memory starts after the 16-byte header and, when bit 2 of byte 6
/// announces one, a 512-byte trainer that is skipped.
pub open spec fn spec_prg_start(raw: Seq<u8>) -> int {
    if raw[6] & 0x04 != 0 {
        16int + 512
    } else {
        16int
    }
}

pub open spec fn spec_chr_start(raw: Seq<u8>) -> int {
    spec_prg_start(raw) + spec_prg_size(raw)
}

/// The image decodes: magic present, version-one container, and the declared
/// program and character sizes lie within the file.
pub open spec fn spec_image_ok(raw: Seq<u8>) -> bool {
    &&& raw.len() >= 16
    &&& spec_magic_ok(raw)
    &&& spec_version(raw) == 0
    &&& raw.len() >= spec_chr_start(raw) + spec_chr_size(raw)
}

/// What decoding a well-formed image yields.
pub open spec fn spec_rom_of_image(rom: Rom, raw: Seq<u8>) -> bool {
    &&& rom.mapper_id == spec_mapper_id(raw)
    &&& rom.screen_mirroring == spec_mirroring(raw)
    &&& rom.prg_rom@ == raw.subrange(spec_prg_start(raw), spec_chr_start(raw))
    &&& rom.is_chr_ram == (raw[5] == 0)
    &&& rom.chr_rom@ == if raw[5] == 0 {
        Seq::new(CHR_ROM_PAGE_SIZE as nat, |i: int| 0u8)
    } else {
        raw.subrange(spec_chr_start(raw), spec_chr_start(raw) + spec_chr_size(raw))
    }
}

/// The message reported for an image that does not decode, by the first check
/// that fails.
pub open spec fn spec_decode_err(raw: Seq<u8>) -> Seq<char> {
    if raw.len() < 4 {
        "iNES image is truncated"@
    } else if !spec_magic_ok(raw) {
        "File is not in iNES file format"@
    } else if raw.len() < 16 {
        "iNES image is truncated"@
    } else if spec_version(raw) != 0 {
        "NES2.0 format is not supported"@
    } else {
        "iNES image is truncated"@
    }
}

/// Bit-level values of the fixed header bytes used by the built images.
proof fn lemma_header_bits()
    by (bit_vector)
    ensures
        (0xF0u8 >> 2) & 0x03 == 0,
        (0xF0u8 & 0xF0) | (0xF0u8 >> 4) == 0xFF,
        0xF0u8 & 0x08 == 0,
        0xF0u8 & 0x01 == 0,
        0xF0u8 & 0x04 == 0,
        (0x00u8 >> 2) & 0x03 == 0,
        (0x00u8 & 0xF0) | (0x31u8 >> 4) == 3,
        0x31u8 & 0x08 == 0,
        0x31u8 & 0x01 != 0,
        0x31u8 & 0x04 == 0,
{
}

impl Rom {
    /// Decodes a cartridge image: validates the magic bytes and the format
    /// version, then cuts program and character memory out of the file.  A
    /// zero character-bank count yields an 8 KiB zeroed buffer flagged as
    /// writable character memory.
    pub fn new(raw: &Vec<u8>) -> (r: Result<Rom, String>)
        ensures
            spec_image_ok(raw@) ==> (r matches Ok(rom) && spec_rom_of_image(rom, raw@)),
            !spec_image_ok(raw@) ==> (r matches Err(e) && e@ == spec_decode_err(raw@)),
    {
        if raw.len() < 4 {
            return Err("iNES image is truncated".to_owned());
        }
        if !(raw[0] == 0x4E && raw[1] == 0x45 && raw[2] == 0x53 && raw[3] == 0x1A) {
            return Err("File is not in iNES file format".to_owned());
        }
        if raw.len() < 16 {
            return Err("iNES image is truncated".to_owned());
        }

        let mapper_id = (raw[7] & 0xF0) | (raw[6] >> 4);

        let ines_ver = (raw[7] >> 2) & 0x03;
        if ines_ver != 0 {
            return Err("NES2.0 format is not supported".to_owned());
        }

        let four_screen = raw[6] & 0x08 != 0;
        let vertical_mirroring = raw[6] & 0x01 != 0;
        let screen_mirroring = if four_screen {
            Mirroring::FOUR_SCREEN
        } else if vertical_mirroring {
            Mirroring::VERTICAL
        } else {
            Mirroring::HORIZONTAL
        };

        let prg_rom_size = (raw[4] as usize) * PRG_ROM_PAGE_SIZE;
        let chr_rom_size = (raw[5] as usize) * CHR_ROM_PAGE_SIZE;

        let skip_trainer = raw[6] & 0x04 != 0;
        let prg_rom_start: usize = if skip_trainer {
            16 + 512
        } else {
            16
        };
        let chr_rom_start = prg_rom_start + prg_rom_size;

        if raw.len() < chr_rom_start + chr_rom_size {
            return Err("iNES image is truncated".to_owned());
        }

        let prg_rom = copy_range(raw, prg_rom_start, prg_rom_size);
        let is_chr_ram = chr_rom_size == 0;
        let chr_rom = if is_chr_ram {
            let mut buf: Vec<u8> = Vec::new();
            push_repeat(&mut buf, CHR_ROM_PAGE_SIZE, 0);
            buf
        } else {
            copy_range(raw, chr_rom_start, chr_rom_size)
        };

        Ok(
            Rom {
                prg_rom,
                chr_rom,
                mapper_id,
                screen_mirroring,
                is_chr_ram,
            },
        )
    }

    /// Wraps a fragment of machine code in a one-bank image with writable
    /// character memory: the fragment sits at the start of program memory and
    /// the rest of the bank is zero-filled.
    pub fn new_test(test: Vec<u8>) -> (r: Result<Rom, String>)
        requires
            test.len() <= PRG_ROM_PAGE_SIZE,
        ensures
            r matches Ok(rom) && {
                &&& rom.prg_rom@ == test@ + Seq::new(
                    (PRG_ROM_PAGE_SIZE - test.len()) as nat,
                    |i: int| 0u8,
                )
                &&& rom.chr_rom@ == Seq::new(CHR_ROM_PAGE_SIZE as nat, |i: int| 0u8)
                &&& rom.is_chr_ram
                &&& rom.mapper_id == 0xFF
                &&& rom.screen_mirroring == Mirroring::HORIZONTAL
            },
    {
        let mut output_raw: Vec<u8> = Vec::new();
        output_raw.push(0x4E);
        output_raw.push(0x45);
        output_raw.push(0x53);
        output_raw.push(0x1A);
        output_raw.push(0x01);  // one 16 KiB program bank
        output_raw.push(0x00);  // no character banks: character memory is writable
        output_raw.push(0xF0);  // byte 6: no trainer, horizontal mirroring
        output_raw.push(0xF0);  // byte 7: version-one container
        push_repeat(&mut output_raw, 8, 0);

        let ghost header = output_raw@;
        proof {
            assert(header.len() == 16);
            assert(header[0] == 0x4E && header[1] == 0x45 && header[2] == 0x53 && header[3]
                == 0x1A);
            assert(header[4] == 0x01 && header[5] == 0x00 && header[6] == 0xF0 && header[7]
                == 0xF0);
        }

        let num_brks = PRG_ROM_PAGE_SIZE - test.len();
        push_all(&mut output_raw, &test);
        push_repeat(&mut output_raw, num_brks, 0);

        let ghost raw = output_raw@;
        proof {
            lemma_header_bits();
            assert(raw.len() == 16 + PRG_ROM_PAGE_SIZE);
            assert(forall|i: int| 0 <= i < 16 ==> raw[i] == header[i]);
        }
        assert(spec_image_ok(raw));
        match Rom::new(&output_raw) {
            Ok(rom) => {
                assert(rom.prg_rom@ =~= test@ + Seq::new(
                    (PRG_ROM_PAGE_SIZE - test.len()) as nat,
                    |i: int| 0u8,
                ));
                Ok(rom)
            },
            Err(e) => Err(e),
        }
    }
}

impl Rom {
    /// Builds the mapper circuit the cartridge asks for.  Numbers 0 and 1 are
    /// the supported circuits; any other number falls back to the fixed-bank
    /// one.
    pub fn generate_mapper(&self) -> (r: Mapper)
        ensures
            r.wf(),
            r.spec_prg() == self.prg_rom@,
            r.spec_chr() == self.chr_rom@,
            r.spec_mirroring() == self.screen_mirroring,
            self.mapper_id == 1 <==> r is Sxrom,
            r matches Mapper::Sxrom(m) ==> {
                &&& m.chr_is_ram == self.is_chr_ram
                &&& m.prg_ram@ == Seq::new(0x2000nat, |i: int| 0u8)
                &&& m.shift_register == 0
                &&& m.shift_count == 0
                &&& m.control == 0x0C
                &&& m.prg_bank == 0x10
                &&& m.prg_rom_bank_mode == 3
                &&& m.chr_rom_bank_mode == 0
                &&& m.prg_bank_offset_first == 0
                &&& m.prg_bank_offset_second == 0
                &&& m.chr_bank_0_offset == 0
                &&& m.chr_bank_1_offset == 0
            },
            r matches Mapper::Nrom(m) ==> m.chr_is_ram == self.is_chr_ram && m.prg_ram@ == Seq::new(
                0x2000nat,
                |i: int| 0u8,
            ),
    {
        if self.mapper_id == 1 {
            Mapper::Sxrom(
                Mapper1::new(
                    copy_bytes(&self.prg_rom),
                    copy_bytes(&self.chr_rom),
                    self.screen_mirroring,
                    self.is_chr_ram,
                ),
            )
        } else {
            Mapper::Nrom(
                Mapper0::new(
                    copy_bytes(&self.prg_rom),
                    copy_bytes(&self.chr_rom),
                    self.screen_mirroring,
                    self.is_chr_ram,
                ),
            )
        }
    }
}

/// Decoding is the inverse of laying an image out: for every valid header,
/// an image assembled as header, optional trainer, program memory and
/// character memory decodes back to exactly those program and character
/// bytes.
pub proof fn lemma_image_round_trip(
    header: Seq<u8>,
    trainer: Seq<u8>,
    prg: Seq<u8>,
    chr: Seq<u8>,
    rom: Rom,
)
    requires
        header.len() == 16,
        spec_magic_ok(header),
        spec_version(header) == 0,
        (header[4] as int) * (PRG_ROM_PAGE_SIZE as int) == prg.len(),
        (header[5] as int) * (CHR_ROM_PAGE_SIZE as int) == chr.len(),
        header[5] != 0,
        trainer.len() == if header[6] & 0x04 != 0 {
            512int
        } else {
            0int
        },
        spec_rom_of_image(rom, header + trainer + prg + chr),
    ensures
        spec_image_ok(header + trainer + prg + chr),
        rom.prg_rom@ == prg,
        rom.chr_rom@ == chr,
{
    let raw = header + trainer + prg + chr;
    assert(forall|i: int| 0 <= i < 16 ==> raw[i] == header[i]);
    assert(raw.subrange(spec_prg_start(raw), spec_chr_start(raw)) =~= prg);
    assert(raw.subrange(spec_chr_start(raw), spec_chr_start(raw) + spec_chr_size(raw)) =~= chr);
}

/// The pieces of a hand-built cartridge image, used by tests.
pub struct TestRom {
    pub header: Vec<u8>,
    pub trainer: Option<Vec<u8>>,
    pub pgp_rom: Vec<u8>,
    pub chr_rom: Vec<u8>,
}

pub open spec fn spec_trainer_bytes(t: Option<Vec<u8>>) -> Seq<u8> {
    match t {
        Some(v) => v@,
        None => Seq::empty(),
    }
}

/// Concatenates the pieces of a hand-built image in file order.
pub fn create_rom(rom: TestRom) -> (r: Vec<u8>)
    ensures
        r@ == rom.header@ + spec_trainer_bytes(rom.trainer) + rom.pgp_rom@ + rom.chr_rom@,
{
    let mut result: Vec<u8> = Vec::new();
    push_all(&mut result, &rom.header);
    match &rom.trainer {
        Some(t) => {
            push_all(&mut result, t);
        },
        None => {
            assert(result@ =~= result@ + Seq::<u8>::empty());
        },
    }
    push_all(&mut result, &rom.pgp_rom);
    push_all(&mut result, &rom.chr_rom);
    result
}

/// A two-bank vertically mirrored cartridge whose program memory starts with
/// `program` and is zero-filled to the end; character memory is one bank
/// filled with the value 2.
pub fn test_rom_containing(program: Vec<u8>) -> (r: Rom)
    requires
        program.len() <= 2 * PRG_ROM_PAGE_SIZE,
    ensures
        r.prg_rom@ == program@ + Seq::new(
            (2 * PRG_ROM_PAGE_SIZE - program.len()) as nat,
            |i: int| 0u8,
        ),
        r.chr_rom@ == Seq::new(CHR_ROM_PAGE_SIZE as nat, |i: int| 2u8),
        !r.is_chr_ram,
        r.mapper_id == 3,
        r.screen_mirroring == Mirroring::VERTICAL,
    {
    let mut pgp_rom_contents = program;
    let fill = 2 * PRG_ROM_PAGE_SIZE - pgp_rom_contents.len();
    push_repeat(&mut pgp_rom_contents, fill, 0);

    let mut header: Vec<u8> = Vec::new();
    header.push(0x4E);
    header.push(0x45);
    header.push(0x53);
    header.push(0x1A);
    header.push(0x02);
    header.push(0x01);
    header.push(0x31);
    push_repeat(&mut header, 9, 0);

    let ghost hd = header@;
    proof {
        assert(hd.len() == 16);
        assert(hd[0] == 0x4E && hd[1] == 0x45 && hd[2] == 0x53 && hd[3] == 0x1A);
        assert(hd[4] == 0x02 && hd[5] == 0x01 && hd[6] == 0x31 && hd[7] == 0x00);
    }

    let mut chr: Vec<u8> = Vec::new();
    push_repeat(&mut chr, CHR_ROM_PAGE_SIZE, 2);

    let image = create_rom(
        TestRom {
            header,
            trainer: None,
            pgp_rom: pgp_rom_contents,
            chr_rom: chr,
        },
    );

    let ghost raw = image@;
    proof {
        lemma_header_bits();
        assert(raw.len() == 16 + 2 * PRG_ROM_PAGE_SIZE + CHR_ROM_PAGE_SIZE);
        assert(forall|i: int| 0 <= i < 16 ==> raw[i] == hd[i]);
    }
    assert(spec_image_ok(raw));
    match Rom::new(&image) {
        Ok(rom) => {
            assert(rom.prg_rom@ =~= raw.subrange(16, 16 + 2 * PRG_ROM_PAGE_SIZE as int));
            rom
        },
        Err(_) => {
            proof {
                assert(false);
            }
            Rom {
                prg_rom: Vec::new(),
                chr_rom: Vec::new(),
                mapper_id: 0,
                screen_mirroring: Mirroring::HORIZONTAL,
                is_chr_ram: false,
            }
        },
    }
}

/// The empty-program form of [`test_rom_containing`].
pub fn test_rom() -> (r: Rom)
    ensures
        r.prg_rom@ == Seq::new((2 * PRG_ROM_PAGE_SIZE) as nat, |i: int| 0u8),
        r.chr_rom@ == Seq::new(CHR_ROM_PAGE_SIZE as nat, |i: int| 2u8),
        !r.is_chr_ram,
        r.mapper_id == 3,
        r.screen_mirroring == Mirroring::VERTICAL,
{
    let r = test_rom_containing(Vec::new());
    assert(r.prg_rom@ =~= Seq::new((2 * PRG_ROM_PAGE_SIZE) as nat, |i: int| 0u8));
    r
}

} // verus!
