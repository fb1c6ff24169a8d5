use vstd::prelude::*;

verus! {

/// The reasons for which emulation must stop.
///
/// Every place where the machine model has no defined behaviour --- a read of
/// a write-only register, a write into fixed program memory, an access past
/// the end of cartridge memory, an opcode outside the official set --- yields
/// one of these values instead of being carried out.  In lenient mode the bus
/// coerces the register-access errors away (reads return zero, writes are
/// dropped); in strict mode they abort the emulation loop.
#[derive(Clone, Copy, Debug, PartialEq, Eq, Structural)]
pub enum EmuError {
    /// A processor read of a write-only picture register, or of the sprite
    /// transfer trigger.
    ReadWriteOnly { addr: u16 },
    /// A processor write to the read-only picture status register.
    WriteReadOnly { addr: u16 },
    /// A data-port access landed in the unused 0x3000..=0x3EFF window.
    VramWindow { addr: u16 },
    /// A data-port access to nametable memory fell outside the 2 KiB that are
    /// physically present.
    NametableBounds { addr: u16 },
    /// A data-port access past the end of palette memory.
    PaletteBounds { addr: u16 },
    /// A data-port write into character memory, which only the mapper may
    /// serve.
    ChrWrite { addr: u16 },
    /// A cartridge access past the end of program or character memory.
    CartridgeBounds { addr: u16 },
    /// A write into fixed program memory under the fixed-bank mapper.
    RomWrite { addr: u16 },
    /// An opcode outside the official instruction set.
    UnknownOpcode { opcode: u8, pc: u16 },
    /// A mirroring arrangement the renderer does not lay out.
    UnsupportedMirroring,
}

} // verus!
