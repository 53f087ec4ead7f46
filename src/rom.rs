use vstd::prelude::*;

verus! {

/// How the cartridge wires the PPU's nametables.
#[derive(Debug, Clone, Copy, PartialEq, Eq, Structural)]
pub enum Mirroring {
    Horizontal,
    Vertical,
    FourScreen,
}

/// A decoded iNES cartridge image.
pub struct Rom {
    pub prg_rom: Vec<u8>,
    pub chr_rom: Vec<u8>,
    pub mapper: u8,
    pub screen_mirroring: Mirroring,
}

/// Why an iNES image was refused.
#[derive(Debug, Clone, Copy, PartialEq, Eq, Structural)]
pub enum RomError {
    /// The image is shorter than its header, or than the banks the header announces.
    Truncated,
    /// The first four bytes are not `4E 45 53 1A`.
    InvalidTag,
    /// The header announces iNES 2.0.
    UnsupportedVersion,
    /// Only mapper 0 is supported.
    UnsupportedMapper(u8),
}

pub const PRG_ROM_PAGE_SIZE: usize = 16384;

pub const CHR_ROM_PAGE_SIZE: usize = 8192;

const HEADER_SIZE: usize = 16;

const TRAINER_SIZE: usize = 512;

pub open spec fn has_nes_tag(raw: Seq<u8>) -> bool {
    raw[0] == 0x4E && raw[1] == 0x45 && raw[2] == 0x53 && raw[3] == 0x1A
}

pub open spec fn ines_version(raw: Seq<u8>) -> u8 {
    (raw[7] >> 2u8) & 0x03
}

pub open spec fn mapper_of(raw: Seq<u8>) -> u8 {
    (raw[7] & 0xF0) | (raw[6] >> 4u8)
}

pub open spec fn mirroring_of(raw: Seq<u8>) -> Mirroring {
    if raw[6] & 0x08 != 0 {
        Mirroring::FourScreen
    } else if raw[6] & 0x01 != 0 {
        Mirroring::Vertical
    } else {
        Mirroring::Horizontal
    }
}

/// Where program ROM starts: after the header, and after the trainer if there is one.
pub open spec fn prg_start(raw: Seq<u8>) -> int {
    if raw[6] & 0x04 != 0 {
        528int
    } else {
        16int
    }
}

pub open spec fn prg_size(raw: Seq<u8>) -> int {
    raw[4] as int * 16384
}

pub open spec fn chr_size(raw: Seq<u8>) -> int {
    raw[5] as int * 8192
}

pub open spec fn chr_start(raw: Seq<u8>) -> int {
    prg_start(raw) + prg_size(raw)
}

/// The first reason, in the order the header is checked, why `raw` is not a usable image.
pub open spec fn rom_error(raw: Seq<u8>) -> Option<RomError> {
    if raw.len() < 16 {
        Some(RomError::Truncated)
    } else if !has_nes_tag(raw) {
        Some(RomError::InvalidTag)
    } else if ines_version(raw) != 0 {
        Some(RomError::UnsupportedVersion)
    } else if mapper_of(raw) != 0 {
        Some(RomError::UnsupportedMapper(mapper_of(raw)))
    } else if raw.len() < chr_start(raw) + chr_size(raw) {
        Some(RomError::Truncated)
    } else {
        None
    }
}

/// Copies `raw[start..start + len]`.
fn copy_range(raw: &Vec<u8>, start: usize, len: usize) -> (r: Vec<u8>)
    requires
        start + len <= raw@.len(),
    ensures
        r@ == raw@.subrange(start as int, start + len),
{
    let mut out: Vec<u8> = Vec::with_capacity(len);
    let total = raw.len();
    let mut i: usize = 0;
    while i < len
        invariant
            total == raw@.len(),
            start + len <= total,
            i <= len,
            out@ == raw@.subrange(start as int, start + i),
        decreases len - i,
    {
        out.push(raw[start + i]);
        i = i + 1;
        assert(out@ =~= raw@.subrange(start as int, start + i));
    }
    out
}

impl Rom {
    /// Decodes an iNES image: the header, then program ROM, then character ROM.
    pub fn new(raw: &Vec<u8>) -> (r: Result<Rom, RomError>)
        ensures
            match rom_error(raw@) {
                Some(e) => r == Err::<Rom, RomError>(e),
                None => r matches Ok(rom) && rom.mapper == mapper_of(raw@)
                    && rom.screen_mirroring == mirroring_of(raw@)
                    && rom.prg_rom@ == raw@.subrange(prg_start(raw@), chr_start(raw@))
                    && rom.chr_rom@ == raw@.subrange(chr_start(raw@), chr_start(raw@) + chr_size(raw@)),
            },
    {
        if raw.len() < HEADER_SIZE {
            return Err(RomError::Truncated);
        }
        if !(raw[0] == 0x4E && raw[1] == 0x45 && raw[2] == 0x53 && raw[3] == 0x1A) {
            return Err(RomError::InvalidTag);
        }
        let ines_ver = (raw[7] >> 2u8) & 0x03;
        if ines_ver != 0 {
            return Err(RomError::UnsupportedVersion);
        }
        let mapper = (raw[7] & 0xF0) | (raw[6] >> 4u8);
        if mapper != 0 {
            return Err(RomError::UnsupportedMapper(mapper));
        }
        let four_screen = raw[6] & 0x08 != 0;
        let vertical = raw[6] & 0x01 != 0;
        let screen_mirroring = if four_screen {
            Mirroring::FourScreen
        } else if vertical {
            Mirroring::Vertical
        } else {
            Mirroring::Horizontal
        };
        let prg_rom_size = raw[4] as usize * PRG_ROM_PAGE_SIZE;
        let chr_rom_size = raw[5] as usize * CHR_ROM_PAGE_SIZE;
        let skip_trainer = raw[6] & 0x04 != 0;
        let prg_rom_start = if skip_trainer {
            HEADER_SIZE + TRAINER_SIZE
        } else {
            HEADER_SIZE
        };
        let chr_rom_start = prg_rom_start + prg_rom_size;
        if raw.len() < chr_rom_start + chr_rom_size {
            return Err(RomError::Truncated);
        }
        let prg_rom = copy_range(raw, prg_rom_start, prg_rom_size);
        let chr_rom = copy_range(raw, chr_rom_start, chr_rom_size);
        Ok(Rom { prg_rom, chr_rom, mapper, screen_mirroring })
    }
}

} // verus!
