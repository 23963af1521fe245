use vstd::prelude::*;

use crate::mem::Addressable;

verus! {

/// The cartridge magic `4E 45 53 1A`, read as a little-endian word.
pub const INES_HEADER_MAGIC: u32 = 0x1A53454E;

/// Bytes in the cartridge header.
pub const HEADER_LEN: usize = 16;

/// Bytes in the optional trainer block that may follow the header.
pub const TRAINER_LEN: usize = 512;

/// Bytes in one PRG bank.
pub const PRG_BANK_LEN: usize = 16384;

/// Bytes in one CHR bank.
pub const CHR_BANK_LEN: usize = 8192;

/// Why a cartridge image was refused.
#[derive(Clone, Copy, Debug, PartialEq, Eq, Structural)]
pub enum FormatError {
    /// The image is shorter than the 16-byte header.
    ShortHeader { len: usize },
    /// The first four bytes are not the magic; `magic` is what they hold.
    BadMagic { magic: u32 },
    /// The header asks for `needed` bytes in all, the image holds `len`.
    Truncated { needed: usize, len: usize },
}

/// The 16-byte header of a cartridge image.
#[derive(Clone, Copy, Debug)]
pub struct INESHeader {
    pub magic: u32,
    /// PRG banks of 16 KiB.
    pub size_prg: u8,
    /// CHR banks of 8 KiB.
    pub size_chr: u8,
    pub flags_6: u8,
    pub flags_7: u8,
    pub size_prg_ram: u8,
    pub flags_9: u8,
    pub flags_10: u8,
    pub zero: [u8; 5],
}

/// The four bytes `b0..b3` read as a little-endian word.
pub open spec fn le_u32(b0: u8, b1: u8, b2: u8, b3: u8) -> int {
    b0 + 256 * b1 + 65536 * b2 + 16777216 * b3
}

/// Whether a header's first four bytes are `4E 45 53 1A`.
pub open spec fn magic_ok(b: Seq<u8>) -> bool {
    b.len() >= 4 && b[0] == 0x4E && b[1] == 0x45 && b[2] == 0x53 && b[3] == 0x1A
}

/// Whether bit `i` of `b` is set.
pub open spec fn bit(b: u8, i: nat) -> bool {
    (b as nat / vstd::arithmetic::power2::pow2(i)) % 2 == 1
}

impl INESHeader {
    /// A header with every field zero.
    pub fn new() -> (r: INESHeader)
        ensures
            r.magic == 0 && r.size_prg == 0 && r.size_chr == 0 && r.flags_6 == 0,
            r.flags_7 == 0 && r.size_prg_ram == 0 && r.flags_9 == 0 && r.flags_10 == 0,
            forall|i: int| 0 <= i < 5 ==> r.zero[i] == 0,
    {
        INESHeader {
            magic: 0,
            size_prg: 0,
            size_chr: 0,
            flags_6: 0,
            flags_7: 0,
            size_prg_ram: 0,
            flags_9: 0,
            flags_10: 0,
            zero: [0u8; 5],
        }
    }

    /// Whether a header's fields are the bytes `a` at their offsets.
    pub open spec fn holds(self, a: Seq<u8>) -> bool {
        &&& a.len() == 16
        &&& self.magic == le_u32(a[0], a[1], a[2], a[3])
        &&& self.size_prg == a[4]
        &&& self.size_chr == a[5]
        &&& self.flags_6 == a[6]
        &&& self.flags_7 == a[7]
        &&& self.size_prg_ram == a[8]
        &&& self.flags_9 == a[9]
        &&& self.flags_10 == a[10]
        &&& self.zero@ == a.subrange(11, 16)
    }

    /// Reads a header from its 16 bytes; fails unless they start with the magic.
    pub fn from_array(a: &[u8; 16]) -> (r: Result<INESHeader, FormatError>)
        ensures
            magic_ok(a@) ==> (r matches Ok(h) && h.holds(a@)),
            !magic_ok(a@) ==> r == Err::<INESHeader, FormatError>(
                FormatError::BadMagic { magic: le_u32(a[0], a[1], a[2], a[3]) as u32 },
            ),
    {
        let magic: u32 = a[0] as u32 + 256 * (a[1] as u32) + 65536 * (a[2] as u32) + 16777216 * (
        a[3] as u32);
        if magic != INES_HEADER_MAGIC {
            assert(!magic_ok(a@));
            return Err(FormatError::BadMagic { magic });
        }
        let h = INESHeader {
            magic,
            size_prg: a[4],
            size_chr: a[5],
            flags_6: a[6],
            flags_7: a[7],
            size_prg_ram: a[8],
            flags_9: a[9],
            flags_10: a[10],
            zero: [a[11], a[12], a[13], a[14], a[15]],
        };
        assert(h.zero@ =~= a@.subrange(11, 16));
        Ok(h)
    }

    /// Whether a 512-byte trainer precedes the PRG data: bit 2 of flags 6.
    pub fn has_trainer(&self) -> (r: bool)
        ensures
            r == bit(self.flags_6, 2),
    {
        let f = self.flags_6;
        proof {
            vstd::arithmetic::power2::lemma2_to64();
            assert((f & 4 != 0) == ((f as nat / 4) % 2 == 1)) by (bit_vector);
        }
        f & 4 != 0
    }
}

/// A cartridge: its header and the PRG and CHR data that follow it.
pub struct ROM {
    pub header: INESHeader,
    pub prg: Vec<u8>,
    pub chr: Vec<u8>,
}

/// Where the PRG data starts in an image whose header is the first 16 bytes
/// of `b`: after the header, and after the trainer when there is one.
pub open spec fn prg_start(b: Seq<u8>) -> int {
    HEADER_LEN + if bit(b[6], 2) {
        TRAINER_LEN as int
    } else {
        0
    }
}

/// Where the PRG data ends, and the CHR data starts.
pub open spec fn chr_start(b: Seq<u8>) -> int {
    prg_start(b) + b[4] * PRG_BANK_LEN
}

/// Bytes that an image with the header of `b` must hold.
pub open spec fn image_len(b: Seq<u8>) -> int {
    chr_start(b) + b[5] * CHR_BANK_LEN
}

/// Why the image `b` cannot be loaded, if it cannot.
pub open spec fn format_error(b: Seq<u8>) -> Option<FormatError> {
    if b.len() < HEADER_LEN {
        Some(FormatError::ShortHeader { len: b.len() as usize })
    } else if !magic_ok(b) {
        Some(FormatError::BadMagic { magic: le_u32(b[0], b[1], b[2], b[3]) as u32 })
    } else if image_len(b) > b.len() {
        Some(FormatError::Truncated { needed: image_len(b) as usize, len: b.len() as usize })
    } else {
        None
    }
}

/// Whether `rom` holds the header, PRG data and CHR data of the image `b`.
pub open spec fn loaded(b: Seq<u8>, rom: ROM) -> bool {
    &&& rom.header.holds(b.subrange(0, 16))
    &&& rom.prg@ == b.subrange(prg_start(b), chr_start(b))
    &&& rom.chr@ == b.subrange(chr_start(b), image_len(b))
}

/// The offset into PRG data that a load from `addr` reads: a single bank
/// shows at both `0x8000` and `0xC000`.
pub open spec fn prg_offset(size_prg: u8, addr: u16) -> int {
    if size_prg == 1 && addr >= 0xC000 {
        addr - 0xC000
    } else {
        addr - 0x8000
    }
}

/// The bytes `data[start..start + len]`.
fn copy_range(data: &[u8], start: usize, len: usize) -> (r: Vec<u8>)
    requires
        start + len <= data@.len(),
    ensures
        r@ == data@.subrange(start as int, start + len),
{
    let mut v: Vec<u8> = Vec::new();
    let n: usize = data.len();
    let mut i: usize = 0;
    while i < len
        invariant
            i <= len,
            n == data@.len(),
            start + len <= n,
            v@ == data@.subrange(start as int, start + i),
        decreases len - i,
    {
        v.push(data[start + i]);
        i = i + 1;
        assert(v@ =~= data@.subrange(start as int, start + i));
    }
    v
}

impl ROM {
    /// Reads a cartridge from its image: the header, then a trainer that is
    /// skipped when the header announces one, then the PRG banks, then the CHR
    /// banks. Bytes after those are ignored.
    pub fn from_bytes(data: &[u8]) -> (r: Result<ROM, FormatError>)
        ensures
            match r {
                Ok(rom) => format_error(data@) is None && loaded(data@, rom),
                Err(e) => format_error(data@) == Some(e),
            },
    {
        if data.len() < HEADER_LEN {
            return Err(FormatError::ShortHeader { len: data.len() });
        }
        let a: [u8; 16] = [
            data[0], data[1], data[2], data[3], data[4], data[5], data[6], data[7],
            data[8], data[9], data[10], data[11], data[12], data[13], data[14], data[15],
        ];
        assert(a@ =~= data@.subrange(0, 16));
        let header = match INESHeader::from_array(&a) {
            Ok(h) => h,
            Err(e) => {
                return Err(e);
            },
        };
        let start: usize = if header.has_trainer() {
            HEADER_LEN + TRAINER_LEN
        } else {
            HEADER_LEN
        };
        let prg_bytes: usize = header.size_prg as usize * PRG_BANK_LEN;
        let chr_bytes: usize = header.size_chr as usize * CHR_BANK_LEN;
        let needed: usize = start + prg_bytes + chr_bytes;
        if data.len() < needed {
            return Err(FormatError::Truncated { needed, len: data.len() });
        }
        let prg = copy_range(data, start, prg_bytes);
        let chr = copy_range(data, start + prg_bytes, chr_bytes);
        Ok(ROM { header, prg, chr })
    }
}

impl Addressable for ROM {
    /// PRG answers the upper half of the address space.
    open spec fn accepts(addr: u16) -> bool {
        addr >= 0x8000
    }

    /// The PRG byte that `addr` shows, or 0 where the cartridge has none.
    open spec fn peek(&self, addr: u16) -> u8 {
        let off = prg_offset(self.header.size_prg, addr);
        if 0 <= off < self.prg@.len() {
            self.prg@[off]
        } else {
            0
        }
    }

    /// PRG is read-only: a store changes nothing.
    open spec fn stored(&self, addr: u16, val: u8, after: &Self) -> bool {
        *after == *self
    }

    fn loadb(&self, addr: u16) -> (r: u8) {
        let off: usize = if self.header.size_prg == 1 && addr >= 0xC000 {
            (addr - 0xC000) as usize
        } else {
            (addr - 0x8000) as usize
        };
        if off < self.prg.len() {
            self.prg[off]
        } else {
            0
        }
    }

    fn storeb(&mut self, addr: u16, val: u8) {
    }
}

/// An image whose first four bytes are not the magic is refused with a
/// format error.
pub proof fn lemma_bad_magic_refused(b: Seq<u8>)
    requires
        !magic_ok(b),
    ensures
        format_error(b) is Some,
{
}

} // verus!
