use vstd::prelude::*;

use crate::rom::ROM;

verus! {

/// The little-endian word made of `lo` then `hi`.
pub open spec fn word(lo: u8, hi: u8) -> u16 {
    (lo + 256 * hi) as u16
}

proof fn lemma_word_bits(lo: u8, hi: u8)
    ensures
        (lo as u16) | ((hi as u16) << 8u16) == word(lo, hi),
{
    assert((lo as u16) | ((hi as u16) << 8u16) == (lo as u16) + 256 * (hi as u16)) by (bit_vector);
}

proof fn lemma_split_word(v: u16)
    ensures
        (v & 0xFF) as u8 == v % 256,
        ((v >> 8u16) & 0xFF) as u8 == v / 256,
        word((v % 256) as u8, (v / 256) as u8) == v,
{
    assert((v & 0xFF) == v % 256) by (bit_vector);
    assert(((v >> 8u16) & 0xFF) == v / 256) by (bit_vector);
}

/// Something that answers byte loads and stores on a 16-bit address space.
pub trait Addressable: Sized {
    /// The addresses that this device answers.
    spec fn accepts(addr: u16) -> bool;

    /// The byte that a load from `addr` returns.
    spec fn peek(&self, addr: u16) -> u8;

    /// Whether `after` is this device once `val` has been stored at `addr`.
    spec fn stored(&self, addr: u16, val: u8, after: &Self) -> bool;

    fn loadb(&self, addr: u16) -> (r: u8)
        requires
            Self::accepts(addr),
        ensures
            r == self.peek(addr),
    ;

    fn storeb(&mut self, addr: u16, val: u8)
        requires
            Self::accepts(addr),
        ensures
            old(self).stored(addr, val, final(self)),
    ;

    /// The word at `addr`: its low byte there, its high byte at the next
    /// address (which wraps from `0xFFFF` to `0`).
    fn loadw(&self, addr: u16) -> (r: u16)
        requires
            Self::accepts(addr),
            Self::accepts(addr.wrapping_add(1)),
        ensures
            r == word(self.peek(addr), self.peek(addr.wrapping_add(1))),
    {
        let lo = self.loadb(addr);
        let hi = self.loadb(addr.wrapping_add(1));
        proof {
            lemma_word_bits(lo, hi);
        }
        lo as u16 | (hi as u16) << 8
    }

    /// Stores the low byte of `val` at `addr`, then its high byte at the next
    /// address (which wraps from `0xFFFF` to `0`).
    fn storew(&mut self, addr: u16, val: u16)
        requires
            Self::accepts(addr),
            Self::accepts(addr.wrapping_add(1)),
        ensures
            exists|mid: Self|
                #[trigger] old(self).stored(addr, (val % 256) as u8, &mid) && mid.stored(
                    addr.wrapping_add(1),
                    (val / 256) as u8,
                    final(self),
                ),
    {
        proof {
            lemma_split_word(val);
        }
        let ghost start = *self;
        self.storeb(addr, (val & 0xFF) as u8);
        let ghost mid = *self;
        self.storeb(addr.wrapping_add(1), ((val >> 8) & 0xFF) as u8);
        assert(start.stored(addr, (val % 256) as u8, &mid));
    }
}

/// The console's 2 KiB of work RAM.
pub struct RAM {
    pub data: [u8; 0x800],
}

impl RAM {
    /// RAM with every byte zero.
    pub fn new() -> (r: RAM)
        ensures
            forall|i: int| 0 <= i < 0x800 ==> r.data[i] == 0,
    {
        RAM { data: [0u8; 0x800] }
    }

    /// The word at `addr`, low byte first.
    pub fn loadw(&self, addr: u16) -> (r: u16)
        requires
            addr < 0x7FF,
        ensures
            r == word(self.data[addr as int], self.data[addr + 1]),
    {
        let lo = self.loadb(addr);
        let hi = self.loadb(addr + 1);
        proof {
            lemma_word_bits(lo, hi);
        }
        lo as u16 | (hi as u16) << 8
    }

    /// Stores `val` at `addr`, low byte first.
    pub fn storew(&mut self, addr: u16, val: u16)
        requires
            addr < 0x7FF,
        ensures
            final(self).data@ == old(self).data@.update(addr as int, (val % 256) as u8).update(
                addr + 1,
                (val / 256) as u8,
            ),
    {
        proof {
            lemma_split_word(val);
        }
        self.storeb(addr, (val & 0xFF) as u8);
        self.storeb(addr + 1, ((val >> 8) & 0xFF) as u8);
    }
}

impl Addressable for RAM {
    open spec fn accepts(addr: u16) -> bool {
        addr < 0x800
    }

    open spec fn peek(&self, addr: u16) -> u8 {
        self.data[addr as int]
    }

    open spec fn stored(&self, addr: u16, val: u8, after: &Self) -> bool {
        after.data@ == self.data@.update(addr as int, val)
    }

    fn loadb(&self, addr: u16) -> (r: u8) {
        self.data[addr as usize]
    }

    fn storeb(&mut self, addr: u16, val: u8) {
        self.data[addr as usize] = val;
    }
}

/// The regions of the address space, in the order in which they are tried.
#[derive(Clone, Copy, Debug, PartialEq, Eq, Structural)]
pub enum Region {
    /// `0x0000..0x2000`: work RAM, mirrored every `0x800` bytes.
    Ram,
    /// `0x2000..0x4000`: picture unit registers, not attached yet.
    PpuRegisters,
    /// `0x4000..0x4020`: sound and input registers, not attached yet.
    ApuRegisters,
    /// `0x4020..0x6000`: expansion ROM, not attached yet.
    ExpansionRom,
    /// `0x6000..0x8000`: cartridge SRAM, not attached yet.
    CartridgeSram,
    /// `0x8000..=0xFFFF`: cartridge PRG, read-only.
    Prg,
}

/// The region that answers `addr`.
pub open spec fn region_of(addr: u16) -> Region {
    if addr < 0x2000 {
        Region::Ram
    } else if addr < 0x4000 {
        Region::PpuRegisters
    } else if addr < 0x4020 {
        Region::ApuRegisters
    } else if addr < 0x6000 {
        Region::ExpansionRom
    } else if addr < 0x8000 {
        Region::CartridgeSram
    } else {
        Region::Prg
    }
}

/// Finds the region that answers `addr`.
pub fn decode_address(addr: u16) -> (r: Region)
    ensures
        r == region_of(addr),
{
    if addr < 0x2000 {
        Region::Ram
    } else if addr < 0x4000 {
        Region::PpuRegisters
    } else if addr < 0x4020 {
        Region::ApuRegisters
    } else if addr < 0x6000 {
        Region::ExpansionRom
    } else if addr < 0x8000 {
        Region::CartridgeSram
    } else {
        Region::Prg
    }
}

/// The console's address space: RAM and the cartridge behind one bus.
pub struct Memory {
    pub ram: RAM,
    pub rom: ROM,
}

/// The RAM cell that an address in the RAM region reaches.
pub open spec fn ram_index(addr: u16) -> int {
    (addr % 0x800) as int
}

proof fn lemma_ram_mask(addr: u16)
    ensures
        addr & 0x7FF == addr % 0x800,
{
    assert(addr & 0x7FF == addr % 0x800) by (bit_vector);
}

/// The byte that a load from `addr` returns on a bus with RAM contents `ram`
/// and cartridge `rom`: RAM through its mirror, PRG from the cartridge, 0
/// from the regions that have no device yet.
pub open spec fn bus_byte(ram: Seq<u8>, rom: ROM, addr: u16) -> u8 {
    match region_of(addr) {
        Region::Ram => ram[ram_index(addr)],
        Region::Prg => rom.peek(addr),
        _ => 0,
    }
}

/// RAM contents `ram` once `val` has been stored at `addr`: a store reaches
/// RAM through its mirror; elsewhere it is dropped.
pub open spec fn bus_store(ram: Seq<u8>, addr: u16, val: u8) -> Seq<u8> {
    if region_of(addr) == Region::Ram {
        ram.update(ram_index(addr), val)
    } else {
        ram
    }
}

impl Memory {
    /// A bus over `rom` with RAM zeroed.
    pub fn from_rom(rom: ROM) -> (r: Memory)
        ensures
            r.rom == rom,
            forall|i: int| 0 <= i < 0x800 ==> r.ram.data[i] == 0,
    {
        Memory { ram: RAM::new(), rom }
    }
}

impl Addressable for Memory {
    /// Every address belongs to some region.
    open spec fn accepts(addr: u16) -> bool {
        true
    }

    open spec fn peek(&self, addr: u16) -> u8 {
        bus_byte(self.ram.data@, self.rom, addr)
    }

    open spec fn stored(&self, addr: u16, val: u8, after: &Self) -> bool {
        &&& after.rom == self.rom
        &&& after.ram.data@ == bus_store(self.ram.data@, addr, val)
    }

    fn loadb(&self, addr: u16) -> (r: u8) {
        match decode_address(addr) {
            Region::Ram => {
                proof {
                    lemma_ram_mask(addr);
                }
                self.ram.loadb(addr & 0x7FF)
            },
            Region::Prg => self.rom.loadb(addr),
            Region::PpuRegisters | Region::ApuRegisters | Region::ExpansionRom
            | Region::CartridgeSram => 0,
        }
    }

    fn storeb(&mut self, addr: u16, val: u8) {
        match decode_address(addr) {
            Region::Ram => {
                proof {
                    lemma_ram_mask(addr);
                }
                self.ram.storeb(addr & 0x7FF, val);
            },
            Region::PpuRegisters | Region::ApuRegisters | Region::ExpansionRom
            | Region::CartridgeSram | Region::Prg => {},
        }
    }
}

/// A byte stored in RAM reads back at each of its four mirrors.
pub proof fn lemma_ram_mirroring(m: Memory, after: Memory, addr: u16, val: u8, k: u16)
    requires
        addr < 0x800,
        k < 4,
        m.stored(addr, val, &after),
    ensures
        after.peek((addr + k * 0x800) as u16) == val,
{
    let a = (addr + k * 0x800) as u16;
    assert(a % 0x800 == addr % 0x800);
}

/// With a single PRG bank, `0xC000..0x10000` shows the bytes of `0x8000..0xC000`.
pub proof fn lemma_single_bank_mirroring(m: Memory, i: u16)
    requires
        m.rom.header.size_prg == 1,
        i < 0x4000,
    ensures
        m.peek((0x8000 + i) as u16) == m.peek((0xC000 + i) as u16),
{
}

} // verus!
