use nes_cpu::bus::{Bus, BusError};
use nes_cpu::cpu::{Mem, CPU};
use nes_cpu::opcodes::{lookup, AddressingMode, Mnemonic, OpCode};
use nes_cpu::rom::{Mirroring, Rom, RomError};
use nes_cpu::screen::read_screen_state;

fn image(flags6: u8, flags7: u8, prg_pages: u8, chr_pages: u8, trainer: bool) -> Vec<u8> {
    let mut raw = vec![0x4E, 0x45, 0x53, 0x1A, prg_pages, chr_pages, flags6, flags7];
    raw.extend(vec![0u8; 8]);
    if trainer {
        raw.extend(vec![0xEEu8; 512]);
    }
    for i in 0..(prg_pages as usize * 16384) {
        raw.push((i % 251) as u8);
    }
    raw.extend(vec![0xCCu8; chr_pages as usize * 8192]);
    raw
}

fn rom_with_prg(prg: Vec<u8>) -> Rom {
    Rom { prg_rom: prg, chr_rom: vec![], mapper: 0, screen_mirroring: Mirroring::Horizontal }
}

#[test]
fn rom_decodes_banks_and_mirroring() {
    let rom = Rom::new(&image(0x01, 0x00, 1, 1, false)).unwrap();
    assert_eq!(rom.mapper, 0);
    assert_eq!(rom.screen_mirroring, Mirroring::Vertical);
    assert_eq!(rom.prg_rom.len(), 16384);
    assert_eq!(rom.prg_rom[300], (300 % 251) as u8);
    assert_eq!(rom.chr_rom, vec![0xCC; 8192]);

    let rom = Rom::new(&image(0x08, 0x00, 1, 0, false)).unwrap();
    assert_eq!(rom.screen_mirroring, Mirroring::FourScreen);
    let rom = Rom::new(&image(0x00, 0x00, 1, 0, false)).unwrap();
    assert_eq!(rom.screen_mirroring, Mirroring::Horizontal);
}

#[test]
fn rom_skips_the_trainer() {
    let rom = Rom::new(&image(0x04, 0x00, 1, 1, true)).unwrap();
    assert_eq!(rom.prg_rom[0], 0);
    assert_eq!(rom.prg_rom[1], 1);
}

#[test]
fn rom_errors() {
    assert_eq!(Rom::new(&vec![0x4E, 0x45]).err(), Some(RomError::Truncated));
    let mut bad_tag = image(0, 0, 1, 0, false);
    bad_tag[3] = 0x1B;
    assert_eq!(Rom::new(&bad_tag).err(), Some(RomError::InvalidTag));
    assert_eq!(Rom::new(&image(0, 0x08, 1, 0, false)).err(), Some(RomError::UnsupportedVersion));
    assert_eq!(Rom::new(&image(0x10, 0x00, 1, 0, false)).err(), Some(RomError::UnsupportedMapper(1)));
    assert_eq!(Rom::new(&image(0x00, 0x20, 1, 0, false)).err(), Some(RomError::UnsupportedMapper(0x20)));
    let mut short = image(0, 0, 1, 1, false);
    short.pop();
    assert_eq!(Rom::new(&short).err(), Some(RomError::Truncated));
}

#[test]
fn ram_is_mirrored_every_2k() {
    let mut bus = Bus::new(rom_with_prg(vec![0u8; 0x4000]));
    bus.mem_write(0x1805, 0x5C).unwrap();
    for alias in [0x0005u16, 0x0805, 0x1005, 0x1805] {
        assert_eq!(bus.mem_read(alias), Ok(0x5C));
    }
    assert_eq!(bus.cpu_vram[5], 0x5C);
}

#[test]
fn prg_16k_is_mirrored_at_c000() {
    let prg: Vec<u8> = (0..0x4000u32).map(|i| (i % 253) as u8).collect();
    let bus = Bus::new(rom_with_prg(prg));
    for k in [0u16, 1, 0x1234, 0x3FFF] {
        assert_eq!(bus.mem_read(0xC000 + k), bus.mem_read(0x8000 + k));
        assert_eq!(bus.read_prg_rom(0xC000 + k), bus.read_prg_rom(0x8000 + k));
    }
    assert_eq!(bus.mem_read(0x8000 + 0x1234), Ok((0x1234 % 253) as u8));
}

#[test]
fn prg_32k_is_not_mirrored() {
    let mut prg = vec![0u8; 0x8000];
    prg[0x4000] = 0x99;
    let bus = Bus::new(rom_with_prg(prg));
    assert_eq!(bus.mem_read(0xC000), Ok(0x99));
    assert_eq!(bus.mem_read(0x8000), Ok(0x00));
}

#[test]
fn bus_fatal_and_ignored_ranges() {
    let mut bus = Bus::new(rom_with_prg(vec![]));
    assert_eq!(bus.mem_read(0x2002), Err(BusError::PpuNotImplemented(0x2002)));
    assert_eq!(bus.mem_write(0x3FFF, 1), Err(BusError::PpuNotImplemented(0x3FFF)));
    assert_eq!(bus.mem_read(0x4016), Ok(0));
    assert_eq!(bus.mem_write(0x6000, 1), Ok(()));
    assert_eq!(bus.mem_read(0x6000), Ok(0));
    assert_eq!(bus.mem_write(0x8000, 1), Err(BusError::PrgRomWrite(0x8000)));
    assert_eq!(bus.mem_read(0x8000), Err(BusError::PrgRomUnmapped(0x8000)));
}

#[test]
fn word_access_is_little_endian() {
    let mut bus = Bus::new(rom_with_prg(vec![0u8; 0x4000]));
    bus.mem_write_u16(0x0010, 0xBEEF).unwrap();
    assert_eq!(bus.mem_read(0x0010), Ok(0xEF));
    assert_eq!(bus.mem_read(0x0011), Ok(0xBE));
    assert_eq!(bus.mem_read_u16(0x0010), Ok(0xBEEF));
    assert_eq!(bus.mem_write_u16(0x1FFF, 0x1234), Err(BusError::PpuNotImplemented(0x2000)));
    assert_eq!(bus.mem_read(0x07FF), Ok(0x34));
}

#[test]
fn opcode_table_rows() {
    assert_eq!(lookup(0xA9), Some(OpCode::new(0xA9, Mnemonic::Lda, 2, 2, AddressingMode::Immediate)));
    assert_eq!(lookup(0x6C), Some(OpCode::new(0x6C, Mnemonic::Jmp, 3, 5, AddressingMode::Indirect)));
    assert_eq!(lookup(0x00).map(|op| op.name()), Some("BRK"));
    assert_eq!(lookup(0x02), None);
    assert_eq!((0..=255u8).filter(|b| lookup(*b).is_some()).count(), 151);
}

#[test]
fn screen_state_tracks_changes() {
    let mut palette = [[0u8; 3]; 256];
    palette[1] = [255, 255, 255];
    palette[3] = [255, 0, 0];
    let mut cpu = CPU::new(Bus::new(rom_with_prg(vec![0u8; 0x4000])));
    let mut frame = [0u8; 3072];
    assert!(!read_screen_state(&cpu, &palette, &mut frame));
    cpu.mem_write(0x0200, 1).unwrap();
    cpu.mem_write(0x05FF, 3).unwrap();
    assert!(read_screen_state(&cpu, &palette, &mut frame));
    assert_eq!(&frame[0..3], &[255, 255, 255]);
    assert_eq!(&frame[3069..3072], &[255, 0, 0]);
    assert!(!read_screen_state(&cpu, &palette, &mut frame));
}
