use nesemu::mem::{decode_address, Addressable, Memory, Region, RAM};
use nesemu::rom::ROM;

fn rom_with(prg_banks: u8) -> ROM {
    let mut v = vec![0x4E, 0x45, 0x53, 0x1A, prg_banks, 0, 0, 0, 0, 0, 0, 0, 0, 0, 0, 0];
    for i in 0..(prg_banks as usize * 16384) {
        v.push((i * 7 % 256) as u8 ^ (i / 16384) as u8);
    }
    ROM::from_bytes(&v).ok().unwrap()
}

#[test]
fn ram_mirroring_round_trip() {
    let mut m = Memory::from_rom(rom_with(1));
    for addr in [0u16, 1, 0x123, 0x7FF] {
        let v = (addr as u8) ^ 0x5A;
        m.storeb(addr, v);
        for k in 0..4u16 {
            assert_eq!(m.loadb(addr + k * 0x800), v);
        }
    }
}

#[test]
fn store_through_a_mirror_reaches_ram() {
    let mut m = Memory::from_rom(rom_with(1));
    m.storeb(0x1805, 0x77);
    assert_eq!(m.ram.data[5], 0x77);
    assert_eq!(m.loadb(0x0005), 0x77);
}

#[test]
fn stub_regions_read_zero_and_drop_writes() {
    let mut m = Memory::from_rom(rom_with(1));
    for addr in [0x2000u16, 0x3FFF, 0x4000, 0x401F, 0x4020, 0x5FFF, 0x6000, 0x7FFF] {
        m.storeb(addr, 0xAB);
        assert_eq!(m.loadb(addr), 0);
    }
    assert!(m.ram.data.iter().all(|&b| b == 0));
}

#[test]
fn prg_is_read_only() {
    let mut m = Memory::from_rom(rom_with(1));
    let before = m.loadb(0x8000);
    m.storeb(0x8000, before.wrapping_add(1));
    assert_eq!(m.loadb(0x8000), before);
    assert!(m.ram.data.iter().all(|&b| b == 0));
}

#[test]
fn single_bank_prg_mirroring() {
    let m = Memory::from_rom(rom_with(1));
    for i in 0..0x4000u16 {
        assert_eq!(m.loadb(0x8000 + i), m.loadb(0xC000 + i));
    }
    assert_eq!(m.loadb(0x8001), 7);
}

#[test]
fn two_banks_are_not_mirrored() {
    let m = Memory::from_rom(rom_with(2));
    assert_eq!(m.loadb(0x8001), 7);
    assert_eq!(m.loadb(0xC001), 7 ^ 1);
}

#[test]
fn no_prg_reads_zero() {
    let m = Memory::from_rom(rom_with(0));
    assert_eq!(m.loadb(0x8000), 0);
    assert_eq!(m.loadb(0xFFFF), 0);
}

#[test]
fn words_are_little_endian() {
    let mut m = Memory::from_rom(rom_with(1));
    m.storew(0x0010, 0x1234);
    assert_eq!(m.loadb(0x0010), 0x34);
    assert_eq!(m.loadb(0x0011), 0x12);
    assert_eq!(m.loadw(0x0010), 0x1234);
    assert_eq!(m.loadw(0x8000), 0x0700);
}

#[test]
fn ram_words() {
    let mut r = RAM::new();
    r.storew(0x7FD, 0xBEEF);
    assert_eq!(r.data[0x7FD], 0xEF);
    assert_eq!(r.data[0x7FE], 0xBE);
    assert_eq!(r.loadw(0x7FD), 0xBEEF);
    assert_eq!(r.loadb(0x7FE), 0xBE);
    assert_eq!(r.loadw(0), 0);
}

#[test]
fn address_regions() {
    assert_eq!(decode_address(0x0000), Region::Ram);
    assert_eq!(decode_address(0x1FFF), Region::Ram);
    assert_eq!(decode_address(0x2000), Region::PpuRegisters);
    assert_eq!(decode_address(0x3FFF), Region::PpuRegisters);
    assert_eq!(decode_address(0x4000), Region::ApuRegisters);
    assert_eq!(decode_address(0x401F), Region::ApuRegisters);
    assert_eq!(decode_address(0x4020), Region::ExpansionRom);
    assert_eq!(decode_address(0x5FFF), Region::ExpansionRom);
    assert_eq!(decode_address(0x6000), Region::CartridgeSram);
    assert_eq!(decode_address(0x7FFF), Region::CartridgeSram);
    assert_eq!(decode_address(0x8000), Region::Prg);
    assert_eq!(decode_address(0xFFFF), Region::Prg);
}
