use vstd::prelude::*;

use crate::dump::{dump_entries, hexdump};
use crate::mem::{bus_byte, bus_store, word, Addressable, Memory};
use crate::opcode::{decode, instruction_of, opcode_of, AddressingMode, Operation};
use crate::rom::{format_error, loaded, FormatError, ROM};

verus! {

// Bits of the flag register, lowest first. The operations compute Carry and
// Zero only: nothing sets Overflow or Negative, so the branches that test them
// see whatever the flag register was given.
pub const CARRY_FLAG: u8 = 1;
pub const ZERO_FLAG: u8 = 2;
pub const INT_FLAG: u8 = 4;
pub const DEC_FLAG: u8 = 8;
pub const S1_FLAG: u8 = 16;
pub const S2_FLAG: u8 = 32;
pub const OVERFLOW_FLAG: u8 = 64;
pub const NEG_FLAG: u8 = 128;

// Where the vectors are read.
pub const NMI_VECTOR: u16 = 0xFFFA;
pub const RESET_VECTOR: u16 = 0xFFFC;
pub const IRQ_VECTOR: u16 = 0xFFFE;

/// The register file.
#[derive(Clone, Copy, Debug, PartialEq, Eq, Structural)]
pub struct Registers {
    pub a: u8,
    pub x: u8,
    pub y: u8,
    /// Stack pointer.
    pub s: u8,
    /// Status register: the `*_FLAG` bits.
    pub flags: u8,
    pub pc: u16,
}

impl Registers {
    /// Every register zero.
    pub fn new() -> (r: Registers)
        ensures
            r == (Registers { a: 0, x: 0, y: 0, s: 0, flags: 0, pc: 0 }),
    {
        Registers { a: 0, x: 0, y: 0, s: 0, flags: 0, pc: 0 }
    }
}

/// Why an instruction could not be executed. Either one ends the emulation.
#[derive(Clone, Copy, Debug, PartialEq, Eq, Structural)]
pub enum CpuError {
    /// `opcode`, read at `addr`, is not in the opcode table.
    IllegalOpcode { opcode: u8, addr: u16 },
    /// The instruction `opcode` at `addr` asks `mode` for something it
    /// cannot do, such as a store through an immediate operand.
    InvalidAddressingMode { opcode: u8, addr: u16, mode: AddressingMode },
}

/// Where an addressing mode found an instruction's operand.
#[derive(Clone, Copy, Debug, PartialEq, Eq, Structural)]
pub enum Operand {
    /// Register A.
    Accumulator,
    /// A byte of the instruction stream, already read.
    Immediate(u8),
    /// A byte on the bus.
    Address(u16),
}

/// What the instructions can change: the registers and the RAM contents.
pub struct CpuState {
    pub regs: Registers,
    pub ram: Seq<u8>,
}

/// `n` reduced to a byte.
pub open spec fn wrap8(n: int) -> u8 {
    (n % 0x100) as u8
}

/// `n` reduced to an address.
pub open spec fn wrap16(n: int) -> u16 {
    (n % 0x10000) as u16
}

/// Whether the flag bits `mask` are set in `flags`.
pub open spec fn flag_set(flags: u8, mask: u8) -> bool {
    flags & mask != 0
}

/// `flags` with the bits `mask` set when `on`, cleared otherwise.
pub open spec fn with_flag(flags: u8, mask: u8, on: bool) -> u8 {
    if on {
        flags | mask
    } else {
        flags & !mask
    }
}

/// 1 when Carry is set in `flags`, else 0.
pub open spec fn carry_in(flags: u8) -> int {
    if flag_set(flags, CARRY_FLAG) {
        1
    } else {
        0
    }
}

/// The byte that a load from `addr` returns in state `s`.
pub open spec fn peek(s: CpuState, rom: ROM, addr: u16) -> u8 {
    bus_byte(s.ram, rom, addr)
}

/// `s` with the registers `r`.
pub open spec fn with_regs(s: CpuState, r: Registers) -> CpuState {
    CpuState { regs: r, ram: s.ram }
}

/// `s` with PC moved `n` bytes on.
pub open spec fn advance(s: CpuState, n: int) -> CpuState {
    with_regs(s, Registers { pc: wrap16(s.regs.pc + n), ..s.regs })
}

/// The word at `addr` in state `s`, low byte first; the high byte's address
/// wraps from `0xFFFF` to `0`.
pub open spec fn peek_word(s: CpuState, rom: ROM, addr: u16) -> u16 {
    word(peek(s, rom, addr), peek(s, rom, wrap16(addr + 1)))
}

/// Where `mode` finds the operand of an instruction whose operand bytes start
/// at PC in state `s`, and the state with PC past those bytes; `None` where
/// the mode has no operand.
pub open spec fn resolve_spec(s: CpuState, rom: ROM, mode: AddressingMode) -> Option<(Operand, CpuState)> {
    let b = peek(s, rom, s.regs.pc);
    let w = peek_word(s, rom, s.regs.pc);
    match mode {
        AddressingMode::Implied => None,
        AddressingMode::Accumulator => Some((Operand::Accumulator, s)),
        AddressingMode::Immediate => Some((Operand::Immediate(b), advance(s, 1))),
        AddressingMode::ZeroPage => Some((Operand::Address(b as u16), advance(s, 1))),
        AddressingMode::ZeroPageX => Some(
            (Operand::Address(wrap8(b + s.regs.x) as u16), advance(s, 1)),
        ),
        AddressingMode::ZeroPageY => Some(
            (Operand::Address(wrap8(b + s.regs.y) as u16), advance(s, 1)),
        ),
        AddressingMode::Absolute => Some((Operand::Address(w), advance(s, 2))),
        AddressingMode::AbsoluteX => Some((Operand::Address(wrap16(w + s.regs.x)), advance(s, 2))),
        AddressingMode::AbsoluteY => Some((Operand::Address(wrap16(w + s.regs.y)), advance(s, 2))),
    }
}

/// Bytes of operand that follow an opcode in `mode`.
pub open spec fn operand_width(mode: AddressingMode) -> int {
    match mode {
        AddressingMode::Implied | AddressingMode::Accumulator => 0,
        AddressingMode::Immediate | AddressingMode::ZeroPage | AddressingMode::ZeroPageX
        | AddressingMode::ZeroPageY => 1,
        _ => 2,
    }
}

/// Resolving an operand changes nothing but PC, which moves past exactly the
/// operand bytes of the mode; so a read and a write through one resolution
/// consume the operand once.
pub proof fn lemma_operand_width(s: CpuState, rom: ROM, mode: AddressingMode)
    ensures
        match resolve_spec(s, rom, mode) {
            Some((_, t)) => t == advance(s, operand_width(mode)),
            None => mode == AddressingMode::Implied,
        },
{
    assert(s.regs.pc as int % 0x10000 == s.regs.pc);
}

/// The value of operand `o` in state `s`.
pub open spec fn read_spec(s: CpuState, rom: ROM, o: Operand) -> u8 {
    match o {
        Operand::Accumulator => s.regs.a,
        Operand::Immediate(v) => v,
        Operand::Address(addr) => peek(s, rom, addr),
    }
}

/// State `s` once `v` has been written to operand `o`; `None` for an
/// immediate operand, which cannot be written.
pub open spec fn write_spec(s: CpuState, o: Operand, v: u8) -> Option<CpuState> {
    match o {
        Operand::Accumulator => Some(with_regs(s, Registers { a: v, ..s.regs })),
        Operand::Immediate(_) => None,
        Operand::Address(addr) => Some(CpuState { regs: s.regs, ram: bus_store(s.ram, addr, v) }),
    }
}

/// The flags once register value `reg` has been compared with `v`: Carry
/// when nothing was borrowed, Zero when they are equal.
pub open spec fn compare_spec(r: Registers, reg: u8, v: u8) -> Registers {
    Registers { flags: with_flag(with_flag(r.flags, CARRY_FLAG, reg >= v), ZERO_FLAG, reg == v), ..r }
}

/// The registers once `op`, an operation that only reads its operand, has
/// read `v`.
pub open spec fn apply_read(op: Operation, r: Registers, v: u8) -> Registers {
    match op {
        Operation::Adc => {
            let sum = r.a + v + carry_in(r.flags);
            Registers { a: wrap8(sum), flags: with_flag(r.flags, CARRY_FLAG, sum >= 0x100), ..r }
        },
        Operation::Sbc => {
            let diff = r.a - v - carry_in(r.flags);
            Registers { a: wrap8(diff), flags: with_flag(r.flags, CARRY_FLAG, diff < 0), ..r }
        },
        Operation::And => Registers { a: r.a & v, ..r },
        Operation::Ora => Registers { a: r.a | v, ..r },
        Operation::Eor => Registers { a: r.a ^ v, ..r },
        Operation::Cmp => compare_spec(r, r.a, v),
        Operation::Cpx => compare_spec(r, r.x, v),
        Operation::Cpy => compare_spec(r, r.y, v),
        Operation::Lda => Registers { a: v, ..r },
        Operation::Ldx => Registers { x: v, ..r },
        Operation::Ldy => Registers { y: v, ..r },
        _ => r,
    }
}

/// What a shift or rotate `op` makes of `v`, with `carry` the Carry flag
/// before it.
pub open spec fn shifted(op: Operation, v: u8, carry: bool) -> u8 {
    let c: int = if carry {
        1
    } else {
        0
    };
    match op {
        Operation::Asl => wrap8(2 * v),
        Operation::Rol => wrap8(2 * v + c),
        Operation::Lsr => (v / 2) as u8,
        _ => (v / 2 + 128 * c) as u8,
    }
}

/// The bit that a shift or rotate `op` moves out of `v`.
pub open spec fn shifted_out(op: Operation, v: u8) -> bool {
    match op {
        Operation::Asl | Operation::Rol => v >= 128,
        _ => v % 2 == 1,
    }
}

/// The register that a store `op` writes.
pub open spec fn stored_register(op: Operation, r: Registers) -> u8 {
    match op {
        Operation::Sta => r.a,
        Operation::Stx => r.x,
        _ => r.y,
    }
}

/// Whether a branch `op` is taken under `flags`.
pub open spec fn branch_taken(op: Operation, flags: u8) -> bool {
    match op {
        Operation::Bpl => !flag_set(flags, NEG_FLAG),
        Operation::Bmi => flag_set(flags, NEG_FLAG),
        Operation::Bvc => !flag_set(flags, OVERFLOW_FLAG),
        Operation::Bvs => flag_set(flags, OVERFLOW_FLAG),
        Operation::Bcc => !flag_set(flags, CARRY_FLAG),
        Operation::Bcs => flag_set(flags, CARRY_FLAG),
        Operation::Bne => !flag_set(flags, ZERO_FLAG),
        _ => flag_set(flags, ZERO_FLAG),
    }
}

/// State `s`, with PC just past an opcode, once `op` has run in `mode`;
/// `None` where `mode` cannot serve `op`.
#[verifier::opaque]
pub open spec fn execute_spec(s: CpuState, rom: ROM, op: Operation, mode: AddressingMode) -> Option<CpuState> {
    match op {
        Operation::Adc | Operation::Sbc | Operation::And | Operation::Ora | Operation::Eor
        | Operation::Cmp | Operation::Cpx | Operation::Cpy | Operation::Lda | Operation::Ldx
        | Operation::Ldy => match resolve_spec(s, rom, mode) {
            Some((o, t)) => Some(with_regs(t, apply_read(op, t.regs, read_spec(t, rom, o)))),
            None => None,
        },
        Operation::Asl | Operation::Rol | Operation::Lsr | Operation::Ror => match resolve_spec(
            s,
            rom,
            mode,
        ) {
            Some((o, t)) => {
                let v = read_spec(t, rom, o);
                match write_spec(t, o, shifted(op, v, flag_set(t.regs.flags, CARRY_FLAG))) {
                    Some(u) => Some(
                        with_regs(
                            u,
                            Registers {
                                flags: with_flag(u.regs.flags, CARRY_FLAG, shifted_out(op, v)),
                                ..u.regs
                            },
                        ),
                    ),
                    None => None,
                }
            },
            None => None,
        },
        Operation::Sta | Operation::Stx | Operation::Sty => match resolve_spec(s, rom, mode) {
            Some((o, t)) => write_spec(t, o, stored_register(op, t.regs)),
            None => None,
        },
        Operation::Bpl | Operation::Bmi | Operation::Bvc | Operation::Bvs | Operation::Bcc
        | Operation::Bcs | Operation::Bne | Operation::Beq => match resolve_spec(s, rom, mode) {
            Some((o, t)) => Some(
                if branch_taken(op, t.regs.flags) {
                    advance(t, read_spec(t, rom, o) as int)
                } else {
                    t
                },
            ),
            None => None,
        },
        Operation::Jmp => match resolve_spec(s, rom, mode) {
            Some((Operand::Address(addr), t)) => Some(with_regs(t, Registers { pc: addr, ..t.regs })),
            _ => None,
        },
        Operation::Inx => Some(with_regs(s, Registers { x: wrap8(s.regs.x + 1), ..s.regs })),
        Operation::Iny => Some(with_regs(s, Registers { y: wrap8(s.regs.y + 1), ..s.regs })),
        Operation::Dex => Some(with_regs(s, Registers { x: wrap8(s.regs.x - 1), ..s.regs })),
        Operation::Dey => Some(with_regs(s, Registers { y: wrap8(s.regs.y - 1), ..s.regs })),
        Operation::Nop => Some(s),
    }
}

/// One step from state `s`: fetch the opcode at PC, decode it, execute it.
/// On an error nothing changes.
pub open spec fn step_spec(s: CpuState, rom: ROM) -> Result<CpuState, CpuError> {
    let addr = s.regs.pc;
    let opcode = peek(s, rom, addr);
    match instruction_of(opcode) {
        None => Err(CpuError::IllegalOpcode { opcode, addr }),
        Some((op, mode)) => match execute_spec(advance(s, 1), rom, op, mode) {
            Some(t) => Ok(t),
            None => Err(CpuError::InvalidAddressingMode { opcode, addr, mode }),
        },
    }
}

proof fn lemma_low_byte(n: u16)
    ensures
        n as u8 == n % 256,
{
    assert((n as u8) as u16 == n % 256) by (bit_vector);
}

proof fn lemma_bit8(n: u16)
    ensures
        n < 256 ==> n & 0x100 == 0,
        256 <= n < 512 ==> n & 0x100 != 0,
        0xFF00 <= n ==> n & 0x100 != 0,
{
    assert(n < 256 ==> n & 0x100 == 0) by (bit_vector);
    assert(256 <= n < 512 ==> n & 0x100 != 0) by (bit_vector);
    assert(0xFF00 <= n ==> n & 0x100 != 0) by (bit_vector);
}

proof fn lemma_borrow(a: u8, b: u16, result: u16)
    requires
        b <= 256,
        result == (a as u16).wrapping_sub(b),
    ensures
        result as u8 == wrap8(a - b),
        (result & 0x100 != 0) == (a - b < 0),
{
    lemma_low_byte(result);
    lemma_bit8(result);
    if a < b {
        vstd::arithmetic::div_mod::lemma_mod_multiples_vanish(256, a - b, 256);
        assert(result == 256 * 256 + (a - b));
    }
}

proof fn lemma_shift_bits(v: u8, c: u8)
    requires
        c <= 1,
    ensures
        (v & 0x80 != 0) == (v >= 128),
        (v & 1 != 0) == (v % 2 == 1),
        (v << 1u8) == wrap8(2 * v),
        ((v << 1u8) | c) == wrap8(2 * v + c),
        (v >> 1u8) == v / 2,
        ((v >> 1u8) | (c << 7u8)) == v / 2 + 128 * c,
{
    assert((v & 0x80 != 0) == (v >= 128)) by (bit_vector);
    assert((v & 1 != 0) == (v % 2 == 1)) by (bit_vector);
    assert((v << 1u8) as u16 == (v as u16 * 2) % 256) by (bit_vector);
    assert(c <= 1 ==> ((v << 1u8) | c) as u16 == (v as u16 * 2 + c as u16) % 256) by (bit_vector);
    assert((v >> 1u8) == v / 2) by (bit_vector);
    assert(c <= 1 ==> ((v >> 1u8) | (c << 7u8)) as u16 == (v / 2) as u16 + 128 * (c as u16))
        by (bit_vector);
}

/// The processor: its registers and the bus that it owns.
pub struct CPU {
    regs: Registers,
    memory: Memory,
}

impl CPU {
    /// The registers and RAM contents.
    pub closed spec fn state(self) -> CpuState {
        CpuState { regs: self.regs, ram: self.memory.ram.data@ }
    }

    /// The cartridge on the bus.
    pub closed spec fn rom(self) -> ROM {
        self.memory.rom
    }

    /// The bus.
    pub closed spec fn bus(self) -> Memory {
        self.memory
    }

    /// Whether `after` and `r` are what running `op` in `mode` makes of this
    /// processor, PC being just past the opcode: on an error the RAM is
    /// untouched.
    pub open spec fn performed(
        self,
        op: Operation,
        mode: AddressingMode,
        after: CPU,
        r: Result<(), AddressingMode>,
    ) -> bool {
        &&& after.rom() == self.rom()
        &&& match execute_spec(self.state(), self.rom(), op, mode) {
            Some(t) => r is Ok && after.state() == t,
            None => r == Err::<(), AddressingMode>(mode) && after.state().ram == self.state().ram,
        }
    }

    /// Whether `after` and `r` are what one step makes of this processor.
    pub open spec fn stepped(self, after: CPU, r: Result<(), CpuError>) -> bool {
        &&& after.rom() == self.rom()
        &&& match step_spec(self.state(), self.rom()) {
            Ok(t) => r is Ok && after.state() == t,
            Err(e) => r == Err::<(), CpuError>(e) && after.state() == self.state(),
        }
    }

    /// A processor with every register zero, over a bus with `rom` and RAM
    /// zeroed.
    pub fn from_rom(rom: ROM) -> (r: CPU)
        ensures
            r.state().regs == (Registers { a: 0, x: 0, y: 0, s: 0, flags: 0, pc: 0 }),
            forall|i: int| 0 <= i < 0x800 ==> r.state().ram[i] == 0,
            r.state().ram.len() == 0x800,
            r.rom() == rom,
    {
        CPU { regs: Registers::new(), memory: Memory::from_rom(rom) }
    }

    /// A processor over the cartridge in `image`, as `from_rom` builds it;
    /// fails as `ROM::from_bytes` does.
    pub fn new(image: &[u8]) -> (r: Result<CPU, FormatError>)
        ensures
            match r {
                Ok(cpu) => {
                    &&& format_error(image@) is None
                    &&& loaded(image@, cpu.rom())
                    &&& cpu.state().regs == (Registers { a: 0, x: 0, y: 0, s: 0, flags: 0, pc: 0 })
                    &&& cpu.state().ram.len() == 0x800
                    &&& forall|i: int| 0 <= i < 0x800 ==> cpu.state().ram[i] == 0
                },
                Err(e) => format_error(image@) == Some(e),
            },
    {
        match ROM::from_bytes(image) {
            Ok(rom) => Ok(CPU::from_rom(rom)),
            Err(e) => Err(e),
        }
    }
}

impl CPU {
    /// The registers.
    pub fn registers(&self) -> (r: Registers)
        ensures
            r == self.state().regs,
    {
        self.regs
    }

    /// Replaces the registers; nothing else changes.
    pub fn set_registers(&mut self, regs: Registers)
        ensures
            final(self).state() == with_regs(old(self).state(), regs),
            final(self).rom() == old(self).rom(),
    {
        self.regs = regs;
    }

    /// The bus.
    pub fn memory(&self) -> (r: &Memory)
        ensures
            *r == self.bus(),
    {
        &self.memory
    }

    /// The byte that a load from `addr` returns; nothing changes.
    pub fn loadb(&self, addr: u16) -> (r: u8)
        ensures
            r == peek(self.state(), self.rom(), addr),
    {
        self.memory.loadb(addr)
    }

    /// Stores `val` at `addr` on the bus.
    pub fn storeb(&mut self, addr: u16, val: u8)
        ensures
            final(self).state() == (CpuState {
                regs: old(self).state().regs,
                ram: bus_store(old(self).state().ram, addr, val),
            }),
            final(self).rom() == old(self).rom(),
    {
        self.memory.storeb(addr, val);
    }

    /// The RAM bytes `start..end`, or all of RAM when `end` is 0, laid out by
    /// `hexdump` with addresses counted from 0.
    pub fn dump_ram(&self, start: u16, end: u16) -> (r: String)
        requires
            end == 0 || start <= end <= 0x800,
        ensures
            r@ == dump_entries(
                if end == 0 {
                    self.state().ram
                } else {
                    self.state().ram.subrange(start as int, end as int)
                },
                0,
            ) + seq!['\n'],
    {
        let all: &[u8] = self.memory.ram.data.as_slice();
        if end == 0 {
            hexdump(all, 0)
        } else {
            hexdump(&all[start as usize..end as usize], 0)
        }
    }

    /// Reads the byte at PC and moves PC past it.
    fn loadb_move(&mut self) -> (r: u8)
        ensures
            r == peek(old(self).state(), old(self).rom(), old(self).state().regs.pc),
            final(self).state() == advance(old(self).state(), 1),
            final(self).memory == old(self).memory,
    {
        let val = self.memory.loadb(self.regs.pc);
        self.regs.pc = self.regs.pc.wrapping_add(1);
        val
    }

    /// Reads the word at PC and moves PC past it.
    fn loadw_move(&mut self) -> (r: u16)
        ensures
            r == peek_word(old(self).state(), old(self).rom(), old(self).state().regs.pc),
            final(self).state() == advance(old(self).state(), 2),
            final(self).memory == old(self).memory,
    {
        let val = self.memory.loadw(self.regs.pc);
        self.regs.pc = self.regs.pc.wrapping_add(2);
        val
    }

    /// Whether any of the flag bits `flag` is set (a test against zero, so
    /// that it holds for every flag, not only for Carry).
    fn get_flag(&self, flag: u8) -> (r: bool)
        ensures
            r == flag_set(self.regs.flags, flag),
    {
        self.regs.flags & flag != 0
    }

    /// Sets the flag bits `flag` to `value`; nothing else changes.
    fn set_flag(&mut self, flag: u8, value: bool)
        ensures
            final(self).regs == (Registers {
                flags: with_flag(old(self).regs.flags, flag, value),
                ..old(self).regs
            }),
            final(self).memory == old(self).memory,
    {
        if value {
            self.regs.flags = self.regs.flags | flag;
        } else {
            self.regs.flags = self.regs.flags & !flag;
        }
    }

    /// Loads PC from the reset vector; no other register and no memory
    /// changes.
    pub fn reset(&mut self)
        ensures
            final(self).state() == with_regs(
                old(self).state(),
                Registers {
                    pc: peek_word(old(self).state(), old(self).rom(), RESET_VECTOR),
                    ..old(self).state().regs
                },
            ),
            final(self).rom() == old(self).rom(),
    {
        self.regs.pc = self.memory.loadw(RESET_VECTOR);
    }

    /// Finds the operand of `mode`, reading its bytes at PC and moving PC past
    /// them; `None`, with nothing changed, where the mode has no operand.
    #[verifier::rlimit(40)]
    fn resolve(&mut self, mode: AddressingMode) -> (r: Option<Operand>)
        ensures
            match resolve_spec(old(self).state(), old(self).rom(), mode) {
                Some((o, t)) => r == Some(o) && final(self).state() == t,
                None => r is None && final(self).state() == old(self).state(),
            },
            final(self).memory == old(self).memory,
    {
        match mode {
            AddressingMode::Implied => None,
            AddressingMode::Accumulator => Some(Operand::Accumulator),
            AddressingMode::Immediate => Some(Operand::Immediate(self.loadb_move())),
            AddressingMode::ZeroPage => {
                let b = self.loadb_move();
                Some(Operand::Address(b as u16))
            },
            AddressingMode::ZeroPageX => {
                let b = self.loadb_move();
                Some(Operand::Address(b.wrapping_add(self.regs.x) as u16))
            },
            AddressingMode::ZeroPageY => {
                let b = self.loadb_move();
                Some(Operand::Address(b.wrapping_add(self.regs.y) as u16))
            },
            AddressingMode::Absolute => Some(Operand::Address(self.loadw_move())),
            AddressingMode::AbsoluteX => {
                let w = self.loadw_move();
                Some(Operand::Address(w.wrapping_add(self.regs.x as u16)))
            },
            AddressingMode::AbsoluteY => {
                let w = self.loadw_move();
                Some(Operand::Address(w.wrapping_add(self.regs.y as u16)))
            },
        }
    }

    /// The value of operand `o`.
    fn read_operand(&self, o: Operand) -> (r: u8)
        ensures
            r == read_spec(self.state(), self.rom(), o),
    {
        match o {
            Operand::Accumulator => self.regs.a,
            Operand::Immediate(v) => v,
            Operand::Address(addr) => self.memory.loadb(addr),
        }
    }

    /// Writes `v` to operand `o`; `false`, with nothing changed, for an
    /// immediate operand.
    fn write_operand(&mut self, o: Operand, v: u8) -> (r: bool)
        ensures
            match write_spec(old(self).state(), o, v) {
                Some(t) => r && final(self).state() == t,
                None => !r && final(self).state() == old(self).state(),
            },
            final(self).rom() == old(self).rom(),
    {
        match o {
            Operand::Accumulator => {
                self.regs.a = v;
                true
            },
            Operand::Immediate(_) => false,
            Operand::Address(addr) => {
                self.memory.storeb(addr, v);
                true
            },
        }
    }

    /// The operand of `mode`, as `resolve` finds it and `read_operand` reads it.
    fn load(&mut self, mode: AddressingMode) -> (r: Option<u8>)
        ensures
            match resolve_spec(old(self).state(), old(self).rom(), mode) {
                Some((o, t)) => r == Some(read_spec(t, old(self).rom(), o)) && final(self).state()
                    == t,
                None => r is None && final(self).state() == old(self).state(),
            },
            final(self).memory == old(self).memory,
    {
        match self.resolve(mode) {
            Some(o) => Some(self.read_operand(o)),
            None => None,
        }
    }

    /// Writes `v` to the operand of `mode`, as `resolve` finds it; fails where
    /// the mode has no operand or cannot be written, with the RAM untouched.
    fn store(&mut self, mode: AddressingMode, v: u8) -> (r: Result<(), AddressingMode>)
        ensures
            match resolve_spec(old(self).state(), old(self).rom(), mode) {
                Some((o, t)) => match write_spec(t, o, v) {
                    Some(u) => r is Ok && final(self).state() == u,
                    None => r == Err::<(), AddressingMode>(mode) && final(self).state().ram
                        == old(self).state().ram,
                },
                None => r == Err::<(), AddressingMode>(mode) && final(self).state()
                    == old(self).state(),
            },
            final(self).rom() == old(self).rom(),
    {
        match self.resolve(mode) {
            Some(o) => if self.write_operand(o, v) {
                Ok(())
            } else {
                Err(mode)
            },
            None => Err(mode),
        }
    }

    /// A becomes A or the operand.
    fn ora(&mut self, mode: AddressingMode) -> (r: Result<(), AddressingMode>)
        ensures
            old(self).performed(Operation::Ora, mode, *final(self), r),
    {
        proof {
            reveal(execute_spec);
        }
        let val = match self.load(mode) {
            Some(v) => v,
            None => {
                return Err(mode);
            },
        };
        self.regs.a = self.regs.a | val;
        Ok(())
    }

    /// A becomes A exclusive-or the operand.
    fn eor(&mut self, mode: AddressingMode) -> (r: Result<(), AddressingMode>)
        ensures
            old(self).performed(Operation::Eor, mode, *final(self), r),
    {
        proof {
            reveal(execute_spec);
        }
        let val = match self.load(mode) {
            Some(v) => v,
            None => {
                return Err(mode);
            },
        };
        self.regs.a = self.regs.a ^ val;
        Ok(())
    }

    /// A becomes A and the operand.
    fn and(&mut self, mode: AddressingMode) -> (r: Result<(), AddressingMode>)
        ensures
            old(self).performed(Operation::And, mode, *final(self), r),
    {
        proof {
            reveal(execute_spec);
        }
        let val = match self.load(mode) {
            Some(v) => v,
            None => {
                return Err(mode);
            },
        };
        self.regs.a = self.regs.a & val;
        Ok(())
    }

    /// Adds the operand and Carry to A; Carry takes bit 8 of the sum.
    fn adc(&mut self, mode: AddressingMode) -> (r: Result<(), AddressingMode>)
        ensures
            old(self).performed(Operation::Adc, mode, *final(self), r),
    {
        proof {
            reveal(execute_spec);
        }
        let val = match self.load(mode) {
            Some(v) => v,
            None => {
                return Err(mode);
            },
        };
        let carry: u16 = if self.get_flag(CARRY_FLAG) {
            1
        } else {
            0
        };
        let result: u16 = self.regs.a as u16 + val as u16 + carry;
        proof {
            lemma_bit8(result);
            lemma_low_byte(result);
        }
        self.set_flag(CARRY_FLAG, result & 0x100 != 0);
        self.regs.a = result as u8;
        Ok(())
    }

    /// Subtracts the operand, and one more when Carry is set, from A; Carry
    /// takes bit 8 of the 16-bit difference, so it is set on a borrow.
    fn sbc(&mut self, mode: AddressingMode) -> (r: Result<(), AddressingMode>)
        ensures
            old(self).performed(Operation::Sbc, mode, *final(self), r),
    {
        proof {
            reveal(execute_spec);
        }
        let val = match self.load(mode) {
            Some(v) => v,
            None => {
                return Err(mode);
            },
        };
        let carry: u16 = if self.get_flag(CARRY_FLAG) {
            1
        } else {
            0
        };
        let result: u16 = (self.regs.a as u16).wrapping_sub(val as u16 + carry);
        proof {
            lemma_borrow(self.regs.a, (val + carry) as u16, result);
        }
        self.set_flag(CARRY_FLAG, result & 0x100 != 0);
        self.regs.a = result as u8;
        Ok(())
    }

    /// Loads A.
    fn lda(&mut self, mode: AddressingMode) -> (r: Result<(), AddressingMode>)
        ensures
            old(self).performed(Operation::Lda, mode, *final(self), r),
    {
        proof {
            reveal(execute_spec);
        }
        let val = match self.load(mode) {
            Some(v) => v,
            None => {
                return Err(mode);
            },
        };
        self.regs.a = val;
        Ok(())
    }

    /// Loads X.
    fn ldx(&mut self, mode: AddressingMode) -> (r: Result<(), AddressingMode>)
        ensures
            old(self).performed(Operation::Ldx, mode, *final(self), r),
    {
        proof {
            reveal(execute_spec);
        }
        let val = match self.load(mode) {
            Some(v) => v,
            None => {
                return Err(mode);
            },
        };
        self.regs.x = val;
        Ok(())
    }

    /// Loads Y.
    fn ldy(&mut self, mode: AddressingMode) -> (r: Result<(), AddressingMode>)
        ensures
            old(self).performed(Operation::Ldy, mode, *final(self), r),
    {
        proof {
            reveal(execute_spec);
        }
        let val = match self.load(mode) {
            Some(v) => v,
            None => {
                return Err(mode);
            },
        };
        self.regs.y = val;
        Ok(())
    }

    /// Compares A with the operand.
    fn cmp(&mut self, mode: AddressingMode) -> (r: Result<(), AddressingMode>)
        ensures
            old(self).performed(Operation::Cmp, mode, *final(self), r),
    {
        proof {
            reveal(execute_spec);
        }
        let val = match self.load(mode) {
            Some(v) => v,
            None => {
                return Err(mode);
            },
        };
        let a = self.regs.a;
        self.compare(a, val);
        Ok(())
    }

    /// Compares X with the operand.
    fn cpx(&mut self, mode: AddressingMode) -> (r: Result<(), AddressingMode>)
        ensures
            old(self).performed(Operation::Cpx, mode, *final(self), r),
    {
        proof {
            reveal(execute_spec);
        }
        let val = match self.load(mode) {
            Some(v) => v,
            None => {
                return Err(mode);
            },
        };
        let x = self.regs.x;
        self.compare(x, val);
        Ok(())
    }

    /// Compares Y with the operand.
    fn cpy(&mut self, mode: AddressingMode) -> (r: Result<(), AddressingMode>)
        ensures
            old(self).performed(Operation::Cpy, mode, *final(self), r),
    {
        proof {
            reveal(execute_spec);
        }
        let val = match self.load(mode) {
            Some(v) => v,
            None => {
                return Err(mode);
            },
        };
        let y = self.regs.y;
        self.compare(y, val);
        Ok(())
    }

    /// Shifts the operand left in place; Carry takes bit 7.
    fn asl(&mut self, mode: AddressingMode) -> (r: Result<(), AddressingMode>)
        ensures
            old(self).performed(Operation::Asl, mode, *final(self), r),
    {
        proof {
            reveal(execute_spec);
        }
        let o = match self.resolve(mode) {
            Some(o) => o,
            None => {
                return Err(mode);
            },
        };
        let val = self.read_operand(o);
        let c: u8 = 0;
        proof {
            lemma_shift_bits(val, c);
        }
        let out = val & 0x80 != 0;
        if !self.write_operand(o, val << 1) {
            return Err(mode);
        }
        self.set_flag(CARRY_FLAG, out);
        Ok(())
    }

    /// Rotates the operand left in place through Carry.
    fn rol(&mut self, mode: AddressingMode) -> (r: Result<(), AddressingMode>)
        ensures
            old(self).performed(Operation::Rol, mode, *final(self), r),
    {
        proof {
            reveal(execute_spec);
        }
        let o = match self.resolve(mode) {
            Some(o) => o,
            None => {
                return Err(mode);
            },
        };
        let val = self.read_operand(o);
        let c: u8 = if self.get_flag(CARRY_FLAG) {
            1
        } else {
            0
        };
        proof {
            lemma_shift_bits(val, c);
        }
        let out = val & 0x80 != 0;
        if !self.write_operand(o, (val << 1) | c) {
            return Err(mode);
        }
        self.set_flag(CARRY_FLAG, out);
        Ok(())
    }

    /// Shifts the operand right in place; Carry takes bit 0.
    fn lsr(&mut self, mode: AddressingMode) -> (r: Result<(), AddressingMode>)
        ensures
            old(self).performed(Operation::Lsr, mode, *final(self), r),
    {
        proof {
            reveal(execute_spec);
        }
        let o = match self.resolve(mode) {
            Some(o) => o,
            None => {
                return Err(mode);
            },
        };
        let val = self.read_operand(o);
        let c: u8 = 0;
        proof {
            lemma_shift_bits(val, c);
        }
        let out = val & 1 != 0;
        if !self.write_operand(o, val >> 1) {
            return Err(mode);
        }
        self.set_flag(CARRY_FLAG, out);
        Ok(())
    }

    /// Rotates the operand right in place through Carry.
    fn ror(&mut self, mode: AddressingMode) -> (r: Result<(), AddressingMode>)
        ensures
            old(self).performed(Operation::Ror, mode, *final(self), r),
    {
        proof {
            reveal(execute_spec);
        }
        let o = match self.resolve(mode) {
            Some(o) => o,
            None => {
                return Err(mode);
            },
        };
        let val = self.read_operand(o);
        let c: u8 = if self.get_flag(CARRY_FLAG) {
            1
        } else {
            0
        };
        proof {
            lemma_shift_bits(val, c);
        }
        let out = val & 1 != 0;
        if !self.write_operand(o, (val >> 1) | (c << 7)) {
            return Err(mode);
        }
        self.set_flag(CARRY_FLAG, out);
        Ok(())
    }

    /// Stores A through the operand.
    fn sta(&mut self, mode: AddressingMode) -> (r: Result<(), AddressingMode>)
        ensures
            old(self).performed(Operation::Sta, mode, *final(self), r),
    {
        proof {
            reveal(execute_spec);
        }
        let val = self.regs.a;
        self.store(mode, val)
    }

    /// Stores X through the operand.
    fn stx(&mut self, mode: AddressingMode) -> (r: Result<(), AddressingMode>)
        ensures
            old(self).performed(Operation::Stx, mode, *final(self), r),
    {
        proof {
            reveal(execute_spec);
        }
        let val = self.regs.x;
        self.store(mode, val)
    }

    /// Stores Y through the operand.
    fn sty(&mut self, mode: AddressingMode) -> (r: Result<(), AddressingMode>)
        ensures
            old(self).performed(Operation::Sty, mode, *final(self), r),
    {
        proof {
            reveal(execute_spec);
        }
        let val = self.regs.y;
        self.store(mode, val)
    }

    /// Does nothing.
    fn nop(&mut self)
        ensures
            *final(self) == *old(self),
    {
    }

    /// Sets Carry when `first` is at least `second` (nothing is borrowed in
    /// `first - second`) and Zero when they are equal.
    fn compare(&mut self, first: u8, second: u8)
        ensures
            final(self).regs == compare_spec(old(self).regs, first, second),
            final(self).memory == old(self).memory,
    {
        let result = (first as u16).wrapping_sub(second as u16);
        proof {
            lemma_bit8(result);
        }
        self.set_flag(CARRY_FLAG, result & 0x100 == 0);
        self.set_flag(ZERO_FLAG, result == 0);
    }

    /// Reads a one-byte offset through `mode` and, when `taken`, adds it to
    /// PC as an unsigned byte, wrapping at the top of the address space: an
    /// offset never leads backward.
    fn branch(&mut self, mode: AddressingMode, taken: bool) -> (r: Result<(), AddressingMode>)
        ensures
            match resolve_spec(old(self).state(), old(self).rom(), mode) {
                Some((o, t)) => r is Ok && final(self).state() == if taken {
                    advance(t, read_spec(t, old(self).rom(), o) as int)
                } else {
                    t
                },
                None => r == Err::<(), AddressingMode>(mode) && final(self).state() == old(
                    self,
                ).state(),
            },
            final(self).memory == old(self).memory,
    {
        let offset = match self.load(mode) {
            Some(v) => v,
            None => {
                return Err(mode);
            },
        };
        if taken {
            self.regs.pc = self.regs.pc.wrapping_add(offset as u16);
        }
        Ok(())
    }

    /// Branches when Negative is clear.
    fn bpl(&mut self, mode: AddressingMode) -> (r: Result<(), AddressingMode>)
        ensures
            old(self).performed(Operation::Bpl, mode, *final(self), r),
    {
        proof {
            reveal(execute_spec);
        }
        let taken = !self.get_flag(NEG_FLAG);
        self.branch(mode, taken)
    }

    /// Branches when Negative is set.
    fn bmi(&mut self, mode: AddressingMode) -> (r: Result<(), AddressingMode>)
        ensures
            old(self).performed(Operation::Bmi, mode, *final(self), r),
    {
        proof {
            reveal(execute_spec);
        }
        let taken = self.get_flag(NEG_FLAG);
        self.branch(mode, taken)
    }

    /// Branches when Overflow is clear.
    fn bvc(&mut self, mode: AddressingMode) -> (r: Result<(), AddressingMode>)
        ensures
            old(self).performed(Operation::Bvc, mode, *final(self), r),
    {
        proof {
            reveal(execute_spec);
        }
        let taken = !self.get_flag(OVERFLOW_FLAG);
        self.branch(mode, taken)
    }

    /// Branches when Overflow is set.
    fn bvs(&mut self, mode: AddressingMode) -> (r: Result<(), AddressingMode>)
        ensures
            old(self).performed(Operation::Bvs, mode, *final(self), r),
    {
        proof {
            reveal(execute_spec);
        }
        let taken = self.get_flag(OVERFLOW_FLAG);
        self.branch(mode, taken)
    }

    /// Branches when Carry is clear.
    fn bcc(&mut self, mode: AddressingMode) -> (r: Result<(), AddressingMode>)
        ensures
            old(self).performed(Operation::Bcc, mode, *final(self), r),
    {
        proof {
            reveal(execute_spec);
        }
        let taken = !self.get_flag(CARRY_FLAG);
        self.branch(mode, taken)
    }

    /// Branches when Carry is set.
    fn bcs(&mut self, mode: AddressingMode) -> (r: Result<(), AddressingMode>)
        ensures
            old(self).performed(Operation::Bcs, mode, *final(self), r),
    {
        proof {
            reveal(execute_spec);
        }
        let taken = self.get_flag(CARRY_FLAG);
        self.branch(mode, taken)
    }

    /// Branches when Zero is clear.
    fn bne(&mut self, mode: AddressingMode) -> (r: Result<(), AddressingMode>)
        ensures
            old(self).performed(Operation::Bne, mode, *final(self), r),
    {
        proof {
            reveal(execute_spec);
        }
        let taken = !self.get_flag(ZERO_FLAG);
        self.branch(mode, taken)
    }

    /// Branches when Zero is set.
    fn beq(&mut self, mode: AddressingMode) -> (r: Result<(), AddressingMode>)
        ensures
            old(self).performed(Operation::Beq, mode, *final(self), r),
    {
        proof {
            reveal(execute_spec);
        }
        let taken = self.get_flag(ZERO_FLAG);
        self.branch(mode, taken)
    }

    /// Decrements X, wrapping.
    fn dex(&mut self)
        ensures
            final(self).state() == with_regs(
                old(self).state(),
                Registers { x: wrap8(old(self).regs.x - 1), ..old(self).regs },
            ),
            final(self).memory == old(self).memory,
    {
        self.regs.x = self.regs.x.wrapping_sub(1);
    }

    /// Decrements Y, wrapping.
    fn dey(&mut self)
        ensures
            final(self).state() == with_regs(
                old(self).state(),
                Registers { y: wrap8(old(self).regs.y - 1), ..old(self).regs },
            ),
            final(self).memory == old(self).memory,
    {
        self.regs.y = self.regs.y.wrapping_sub(1);
    }

    /// Increments X, wrapping.
    fn inx(&mut self)
        ensures
            final(self).state() == with_regs(
                old(self).state(),
                Registers { x: wrap8(old(self).regs.x + 1), ..old(self).regs },
            ),
            final(self).memory == old(self).memory,
    {
        self.regs.x = self.regs.x.wrapping_add(1);
    }

    /// Increments Y, wrapping.
    fn iny(&mut self)
        ensures
            final(self).state() == with_regs(
                old(self).state(),
                Registers { y: wrap8(old(self).regs.y + 1), ..old(self).regs },
            ),
            final(self).memory == old(self).memory,
    {
        self.regs.y = self.regs.y.wrapping_add(1);
    }

    /// Jumps to the address that `mode` resolves.
    fn jmp(&mut self, mode: AddressingMode) -> (r: Result<(), AddressingMode>)
        ensures
            old(self).performed(Operation::Jmp, mode, *final(self), r),
    {
        proof {
            reveal(execute_spec);
        }
        match self.resolve(mode) {
            Some(Operand::Address(addr)) => {
                self.regs.pc = addr;
                Ok(())
            },
            _ => Err(mode),
        }
    }

    /// Runs `op` in `mode`, PC being just past the opcode.
    fn execute(&mut self, op: Operation, mode: AddressingMode) -> (r: Result<(), AddressingMode>)
        ensures
            old(self).performed(op, mode, *final(self), r),
    {
        match op {
            Operation::Adc => self.adc(mode),
            Operation::Sbc => self.sbc(mode),
            Operation::And => self.and(mode),
            Operation::Ora => self.ora(mode),
            Operation::Eor => self.eor(mode),
            Operation::Asl => self.asl(mode),
            Operation::Lsr => self.lsr(mode),
            Operation::Rol => self.rol(mode),
            Operation::Ror => self.ror(mode),
            Operation::Cmp => self.cmp(mode),
            Operation::Cpx => self.cpx(mode),
            Operation::Cpy => self.cpy(mode),
            Operation::Lda => self.lda(mode),
            Operation::Ldx => self.ldx(mode),
            Operation::Ldy => self.ldy(mode),
            Operation::Sta => self.sta(mode),
            Operation::Stx => self.stx(mode),
            Operation::Sty => self.sty(mode),
            Operation::Bpl => self.bpl(mode),
            Operation::Bmi => self.bmi(mode),
            Operation::Bvc => self.bvc(mode),
            Operation::Bvs => self.bvs(mode),
            Operation::Bcc => self.bcc(mode),
            Operation::Bcs => self.bcs(mode),
            Operation::Bne => self.bne(mode),
            Operation::Beq => self.beq(mode),
            Operation::Jmp => self.jmp(mode),
            Operation::Nop => {
                proof {
                    reveal(execute_spec);
                }
                self.nop();
                Ok(())
            },
            Operation::Inx => {
                proof {
                    reveal(execute_spec);
                }
                self.inx();
                Ok(())
            },
            Operation::Iny => {
                proof {
                    reveal(execute_spec);
                }
                self.iny();
                Ok(())
            },
            Operation::Dex => {
                proof {
                    reveal(execute_spec);
                }
                self.dex();
                Ok(())
            },
            Operation::Dey => {
                proof {
                    reveal(execute_spec);
                }
                self.dey();
                Ok(())
            },
        }
    }

    /// Runs the instruction `opcode`, read at `addr` (which is PC) and decoded
    /// to `op` in `mode`; on an error puts the registers back.
    fn run(&mut self, opcode: u8, addr: u16, op: Operation, mode: AddressingMode) -> (r: Result<
        (),
        CpuError,
    >)
        requires
            addr == old(self).state().regs.pc,
            opcode == peek(old(self).state(), old(self).rom(), addr),
            instruction_of(opcode) == Some((op, mode)),
        ensures
            old(self).stepped(*final(self), r),
    {
        let saved = self.regs;
        self.regs.pc = addr.wrapping_add(1);
        match self.execute(op, mode) {
            Ok(()) => Ok(()),
            Err(m) => {
                self.regs = saved;
                Err(CpuError::InvalidAddressingMode { opcode, addr, mode: m })
            },
        }
    }

    /// Executes one instruction: fetches the opcode at PC, decodes it and runs
    /// it. An opcode outside the table, or a mode that cannot serve its
    /// operation, ends in an error with the registers and RAM as they were.
    pub fn emulate_cycle(&mut self) -> (r: Result<(), CpuError>)
        ensures
            old(self).stepped(*final(self), r),
    {
        let addr = self.regs.pc;
        let opcode = self.memory.loadb(addr);
        match decode(opcode) {
            None => Err(CpuError::IllegalOpcode { opcode, addr }),
            Some((op, mode)) => self.run(opcode, addr, op, mode),
        }
    }
}

/// A step on opcode `0xFF`, which the table leaves out, fails with
/// `IllegalOpcode` and leaves the registers and RAM as they were before the
/// fetch.
pub proof fn lemma_illegal_opcode_halts(cpu: CPU, after: CPU, r: Result<(), CpuError>)
    requires
        peek(cpu.state(), cpu.rom(), cpu.state().regs.pc) == 0xFF,
        cpu.stepped(after, r),
    ensures
        r == Err::<(), CpuError>(CpuError::IllegalOpcode { opcode: 0xFF, addr: cpu.state().regs.pc }),
        after.state().regs == cpu.state().regs,
        after.state().ram == cpu.state().ram,
{
    assert(forall|op: Operation, mode: AddressingMode|
        #[trigger] opcode_of(op, mode) != Some(0xFFu8));
}

} // verus!
