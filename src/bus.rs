use vstd::prelude::*;

use crate::cpu::Mem;
use crate::rom::Rom;

verus! {

//  $0000-$07FF  RAM, mirrored up to $1FFF
//  $2000-$2007  PPU registers, mirrored up to $3FFF
//  $4000-$401F  APU and I/O registers
//  $4020-$7FFF  expansion ROM and SRAM
//  $8000-$FFFF  program ROM; a single 16 KiB bank is mirrored at $C000
const RAM_MIRRORS_END: u16 = 0x1FFF;

const PPU_REGISTERS_MIRRORS_END: u16 = 0x3FFF;

const PRG_ROM: u16 = 0x8000;

/// A fatal access on the bus.
#[derive(Debug, Clone, Copy, PartialEq, Eq, Structural)]
pub enum BusError {
    /// The PPU registers at `$2000-$3FFF` are not emulated.
    PpuNotImplemented(u16),
    /// Program ROM is read-only.
    PrgRomWrite(u16),
    /// The cartridge holds no byte behind this program-ROM address.
    PrgRomUnmapped(u16),
}

/// What the CPU reaches through the bus: 2 KiB of RAM and the cartridge.
pub struct BusView {
    pub ram: Seq<u8>,
    pub rom: Rom,
}

/// The RAM cell behind an address of `$0000-$1FFF`.
pub open spec fn ram_index(addr: u16) -> int {
    (addr & 0x07FF) as int
}

/// The program-ROM offset behind an address of `$8000-$FFFF`.
pub open spec fn prg_offset(prg_len: nat, addr: u16) -> int {
    let off = addr - 0x8000;
    if prg_len == 0x4000 && off >= 0x4000 {
        off % 0x4000
    } else {
        off
    }
}

impl BusView {
    /// RAM holds its 2 KiB.
    pub open spec fn wf(self) -> bool {
        self.ram.len() == 0x0800
    }

    pub open spec fn read(self, addr: u16) -> Result<u8, BusError> {
        if addr <= 0x1FFF {
            Ok(self.ram[ram_index(addr)])
        } else if addr <= 0x3FFF {
            Err(BusError::PpuNotImplemented(addr))
        } else if addr < 0x8000 {
            Ok(0)
        } else if prg_offset(self.rom.prg_rom@.len(), addr) < self.rom.prg_rom@.len() {
            Ok(self.rom.prg_rom@[prg_offset(self.rom.prg_rom@.len(), addr)])
        } else {
            Err(BusError::PrgRomUnmapped(addr))
        }
    }

    /// The memory after writing `data` at `addr`, or why the write is refused.
    pub open spec fn write(self, addr: u16, data: u8) -> Result<BusView, BusError> {
        if addr <= 0x1FFF {
            Ok(BusView { ram: self.ram.update(ram_index(addr), data), rom: self.rom })
        } else if addr <= 0x3FFF {
            Err(BusError::PpuNotImplemented(addr))
        } else if addr < 0x8000 {
            Ok(self)
        } else {
            Err(BusError::PrgRomWrite(addr))
        }
    }

    /// The little-endian word at `pos` and `pos + 1`.
    pub open spec fn read_u16(self, pos: u16) -> Result<u16, BusError> {
        match self.read(pos) {
            Err(e) => Err(e),
            Ok(lo) => match self.read(pos.wrapping_add(1)) {
                Err(e) => Err(e),
                Ok(hi) => Ok(word(lo, hi)),
            },
        }
    }

    /// Writing the low byte of `data` at `pos`, then the high byte at `pos + 1`: the memory
    /// after the writes that went through, and the first refusal if any.
    pub open spec fn write_u16(self, pos: u16, data: u16) -> (BusView, Result<(), BusError>) {
        match self.write(pos, (data & 0xFF) as u8) {
            Err(e) => (self, Err(e)),
            Ok(m) => match m.write(pos.wrapping_add(1), (data >> 8u16) as u8) {
                Err(e) => (m, Err(e)),
                Ok(m2) => (m2, Ok(())),
            },
        }
    }
}

/// The word whose low byte is `lo` and high byte is `hi`.
pub open spec fn word(lo: u8, hi: u8) -> u16 {
    ((hi as u16) << 8u16) | (lo as u16)
}

/// The CPU's view of the NES: RAM, PPU stub, I/O stubs and the cartridge.
pub struct Bus {
    pub cpu_vram: [u8; 2048],
    pub rom: Rom,
}

impl View for Bus {
    type V = BusView;

    open spec fn view(&self) -> BusView {
        BusView { ram: self.cpu_vram@, rom: self.rom }
    }
}

impl Bus {
    pub fn new(rom: Rom) -> (r: Bus)
        ensures
            r.rom == rom,
            r.cpu_vram@ == Seq::new(2048, |i: int| 0u8),
    {
        let r = Bus { cpu_vram: [0; 2048], rom };
        assert(r.cpu_vram@ =~= Seq::new(2048, |i: int| 0u8));
        r
    }

    /// The program-ROM byte behind `addr`, with a 16 KiB image mirrored at `$C000`.
    pub fn read_prg_rom(&self, addr: u16) -> (r: u8)
        requires
            addr >= 0x8000,
            prg_offset(self.rom.prg_rom@.len(), addr) < self.rom.prg_rom@.len(),
        ensures
            r == self.rom.prg_rom@[prg_offset(self.rom.prg_rom@.len(), addr)],
    {
        let mut off = addr - PRG_ROM;
        if self.rom.prg_rom.len() == 0x4000 && off >= 0x4000 {
            off = off % 0x4000;
        }
        self.rom.prg_rom[off as usize]
    }
}

impl Mem for Bus {
    open spec fn mem(&self) -> BusView {
        self@
    }

    open spec fn same_besides_memory(&self, other: &Self) -> bool {
        true
    }

    fn mem_read(&self, addr: u16) -> (r: Result<u8, BusError>) {
        if addr <= RAM_MIRRORS_END {
            let mirror_down_addr = addr & 0x07FF;
            assert(mirror_down_addr < 2048) by (bit_vector)
                requires
                    mirror_down_addr == addr & 0x07FF,
            ;
            Ok(self.cpu_vram[mirror_down_addr as usize])
        } else if addr <= PPU_REGISTERS_MIRRORS_END {
            Err(BusError::PpuNotImplemented(addr))
        } else if addr < PRG_ROM {
            Ok(0)
        } else {
            let len = self.rom.prg_rom.len();
            let off = addr - PRG_ROM;
            let index = if len == 0x4000 && off >= 0x4000 {
                off % 0x4000
            } else {
                off
            };
            if (index as usize) < len {
                Ok(self.read_prg_rom(addr))
            } else {
                Err(BusError::PrgRomUnmapped(addr))
            }
        }
    }

    fn mem_write(&mut self, addr: u16, data: u8) -> (r: Result<(), BusError>) {
        if addr <= RAM_MIRRORS_END {
            let mirror_down_addr = addr & 0x07FF;
            assert(mirror_down_addr < 2048) by (bit_vector)
                requires
                    mirror_down_addr == addr & 0x07FF,
            ;
            self.cpu_vram[mirror_down_addr as usize] = data;
            Ok(())
        } else if addr <= PPU_REGISTERS_MIRRORS_END {
            Err(BusError::PpuNotImplemented(addr))
        } else if addr < PRG_ROM {
            Ok(())
        } else {
            Err(BusError::PrgRomWrite(addr))
        }
    }

    fn mem_read_u16(&self, pos: u16) -> (r: Result<u16, BusError>) {
        let lo = match self.mem_read(pos) {
            Ok(b) => b,
            Err(e) => return Err(e),
        };
        let hi = match self.mem_read(pos.wrapping_add(1)) {
            Ok(b) => b,
            Err(e) => return Err(e),
        };
        Ok(((hi as u16) << 8u16) | (lo as u16))
    }

    fn mem_write_u16(&mut self, pos: u16, data: u16) -> (r: Result<(), BusError>) {
        let hi = (data >> 8u16) as u8;
        let lo = (data & 0xFF) as u8;
        match self.mem_write(pos, lo) {
            Ok(()) => {},
            Err(e) => return Err(e),
        }
        self.mem_write(pos.wrapping_add(1), hi)
    }
}

} // verus!
