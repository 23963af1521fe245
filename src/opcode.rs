use vstd::prelude::*;

verus! {

/// The operations that the engine executes.
#[derive(Clone, Copy, Debug, PartialEq, Eq, Structural)]
pub enum Operation {
    /// A plus the operand plus Carry.
    Adc,
    /// A minus the operand, minus one more when Carry is set.
    Sbc,
    /// A and the operand, bitwise.
    And,
    /// A or the operand, bitwise.
    Ora,
    /// A exclusive-or the operand, bitwise.
    Eor,
    /// Shift left; Carry takes bit 7.
    Asl,
    /// Shift right; Carry takes bit 0.
    Lsr,
    /// Rotate left through Carry.
    Rol,
    /// Rotate right through Carry.
    Ror,
    /// Compare A with the operand.
    Cmp,
    /// Compare X with the operand.
    Cpx,
    /// Compare Y with the operand.
    Cpy,
    /// Load A.
    Lda,
    /// Load X.
    Ldx,
    /// Load Y.
    Ldy,
    /// Store A.
    Sta,
    /// Store X.
    Stx,
    /// Store Y.
    Sty,
    /// Do nothing.
    Nop,
    /// Branch when Negative is clear.
    Bpl,
    /// Branch when Negative is set.
    Bmi,
    /// Branch when Overflow is clear.
    Bvc,
    /// Branch when Overflow is set.
    Bvs,
    /// Branch when Carry is clear.
    Bcc,
    /// Branch when Carry is set.
    Bcs,
    /// Branch when Zero is clear.
    Bne,
    /// Branch when Zero is set.
    Beq,
    /// Jump to an absolute address.
    Jmp,
    /// Increment X.
    Inx,
    /// Increment Y.
    Iny,
    /// Decrement X.
    Dex,
    /// Decrement Y.
    Dey,
}

/// How an instruction finds its operand, and how many bytes of it follow the
/// opcode.
#[derive(Clone, Copy, Debug, PartialEq, Eq, Structural)]
pub enum AddressingMode {
    /// No operand at all; nothing follows the opcode.
    Implied,
    /// The operand is register A; nothing follows the opcode.
    Accumulator,
    /// The operand is the one byte that follows the opcode.
    Immediate,
    /// One byte follows: the address of the operand in page zero.
    ZeroPage,
    /// One byte follows; plus X, within page zero.
    ZeroPageX,
    /// One byte follows; plus Y, within page zero.
    ZeroPageY,
    /// Two bytes follow: the address of the operand, low byte first.
    Absolute,
    /// Two bytes follow; plus X.
    AbsoluteX,
    /// Two bytes follow; plus Y.
    AbsoluteY,
}

/// The opcode matrix: the byte that encodes `op` in `mode`, where the pair
/// exists.
pub open spec fn opcode_of(op: Operation, mode: AddressingMode) -> Option<u8> {
    match op {
        Operation::Adc => match mode {
            AddressingMode::Immediate => Some(0x69u8),
            AddressingMode::ZeroPage => Some(0x65u8),
            AddressingMode::ZeroPageX => Some(0x75u8),
            AddressingMode::Absolute => Some(0x6Du8),
            AddressingMode::AbsoluteX => Some(0x7Du8),
            AddressingMode::AbsoluteY => Some(0x79u8),
            _ => None,
        },
        Operation::Sbc => match mode {
            AddressingMode::Immediate => Some(0xE9u8),
            AddressingMode::ZeroPage => Some(0xE5u8),
            AddressingMode::ZeroPageX => Some(0xF5u8),
            AddressingMode::Absolute => Some(0xEDu8),
            AddressingMode::AbsoluteX => Some(0xFDu8),
            AddressingMode::AbsoluteY => Some(0xF9u8),
            _ => None,
        },
        Operation::And => match mode {
            AddressingMode::Immediate => Some(0x29u8),
            AddressingMode::ZeroPage => Some(0x25u8),
            AddressingMode::ZeroPageX => Some(0x35u8),
            AddressingMode::Absolute => Some(0x2Du8),
            AddressingMode::AbsoluteX => Some(0x3Du8),
            AddressingMode::AbsoluteY => Some(0x39u8),
            _ => None,
        },
        Operation::Ora => match mode {
            AddressingMode::Immediate => Some(0x09u8),
            AddressingMode::ZeroPage => Some(0x05u8),
            AddressingMode::ZeroPageX => Some(0x15u8),
            AddressingMode::Absolute => Some(0x0Du8),
            AddressingMode::AbsoluteX => Some(0x1Du8),
            AddressingMode::AbsoluteY => Some(0x19u8),
            _ => None,
        },
        Operation::Eor => match mode {
            AddressingMode::Immediate => Some(0x49u8),
            AddressingMode::ZeroPage => Some(0x45u8),
            AddressingMode::ZeroPageX => Some(0x55u8),
            AddressingMode::Absolute => Some(0x4Du8),
            AddressingMode::AbsoluteX => Some(0x5Du8),
            AddressingMode::AbsoluteY => Some(0x59u8),
            _ => None,
        },
        Operation::Asl => match mode {
            AddressingMode::Accumulator => Some(0x0Au8),
            AddressingMode::ZeroPage => Some(0x06u8),
            AddressingMode::ZeroPageX => Some(0x16u8),
            AddressingMode::Absolute => Some(0x0Eu8),
            AddressingMode::AbsoluteX => Some(0x1Eu8),
            _ => None,
        },
        Operation::Lsr => match mode {
            AddressingMode::Accumulator => Some(0x4Au8),
            AddressingMode::ZeroPage => Some(0x46u8),
            AddressingMode::ZeroPageX => Some(0x56u8),
            AddressingMode::Absolute => Some(0x4Eu8),
            AddressingMode::AbsoluteX => Some(0x5Eu8),
            _ => None,
        },
        Operation::Rol => match mode {
            AddressingMode::Accumulator => Some(0x2Au8),
            AddressingMode::ZeroPage => Some(0x26u8),
            AddressingMode::ZeroPageX => Some(0x36u8),
            AddressingMode::Absolute => Some(0x2Eu8),
            AddressingMode::AbsoluteX => Some(0x3Eu8),
            _ => None,
        },
        Operation::Ror => match mode {
            AddressingMode::Accumulator => Some(0x6Au8),
            AddressingMode::ZeroPage => Some(0x66u8),
            AddressingMode::ZeroPageX => Some(0x76u8),
            AddressingMode::Absolute => Some(0x6Eu8),
            AddressingMode::AbsoluteX => Some(0x7Eu8),
            _ => None,
        },
        Operation::Cmp => match mode {
            AddressingMode::Immediate => Some(0xC9u8),
            AddressingMode::ZeroPage => Some(0xC5u8),
            AddressingMode::ZeroPageX => Some(0xD5u8),
            AddressingMode::Absolute => Some(0xCDu8),
            AddressingMode::AbsoluteX => Some(0xDDu8),
            AddressingMode::AbsoluteY => Some(0xD9u8),
            _ => None,
        },
        Operation::Cpx => match mode {
            AddressingMode::Immediate => Some(0xE0u8),
            AddressingMode::ZeroPage => Some(0xE4u8),
            AddressingMode::Absolute => Some(0xECu8),
            _ => None,
        },
        Operation::Cpy => match mode {
            AddressingMode::Immediate => Some(0xC0u8),
            AddressingMode::ZeroPage => Some(0xC4u8),
            AddressingMode::Absolute => Some(0xCCu8),
            _ => None,
        },
        Operation::Lda => match mode {
            AddressingMode::Immediate => Some(0xA9u8),
            AddressingMode::ZeroPage => Some(0xA5u8),
            AddressingMode::ZeroPageX => Some(0xB5u8),
            AddressingMode::Absolute => Some(0xADu8),
            AddressingMode::AbsoluteX => Some(0xBDu8),
            AddressingMode::AbsoluteY => Some(0xB9u8),
            _ => None,
        },
        Operation::Ldx => match mode {
            AddressingMode::Immediate => Some(0xA2u8),
            AddressingMode::ZeroPage => Some(0xA6u8),
            AddressingMode::ZeroPageY => Some(0xB6u8),
            AddressingMode::Absolute => Some(0xAEu8),
            AddressingMode::AbsoluteY => Some(0xBEu8),
            _ => None,
        },
        Operation::Ldy => match mode {
            AddressingMode::Immediate => Some(0xA0u8),
            AddressingMode::ZeroPage => Some(0xA4u8),
            AddressingMode::ZeroPageX => Some(0xB4u8),
            AddressingMode::Absolute => Some(0xACu8),
            AddressingMode::AbsoluteX => Some(0xBCu8),
            _ => None,
        },
        Operation::Sta => match mode {
            AddressingMode::ZeroPage => Some(0x85u8),
            AddressingMode::ZeroPageX => Some(0x95u8),
            AddressingMode::Absolute => Some(0x8Du8),
            AddressingMode::AbsoluteX => Some(0x9Du8),
            AddressingMode::AbsoluteY => Some(0x99u8),
            _ => None,
        },
        Operation::Stx => match mode {
            AddressingMode::ZeroPage => Some(0x86u8),
            AddressingMode::ZeroPageY => Some(0x96u8),
            AddressingMode::Absolute => Some(0x8Eu8),
            _ => None,
        },
        Operation::Sty => match mode {
            AddressingMode::ZeroPage => Some(0x84u8),
            AddressingMode::ZeroPageX => Some(0x94u8),
            AddressingMode::Absolute => Some(0x8Cu8),
            _ => None,
        },
        Operation::Nop => match mode {
            AddressingMode::Implied => Some(0xEAu8),
            _ => None,
        },
        Operation::Bpl => match mode {
            AddressingMode::Immediate => Some(0x10u8),
            _ => None,
        },
        Operation::Bmi => match mode {
            AddressingMode::Immediate => Some(0x30u8),
            _ => None,
        },
        Operation::Bvc => match mode {
            AddressingMode::Immediate => Some(0x50u8),
            _ => None,
        },
        Operation::Bvs => match mode {
            AddressingMode::Immediate => Some(0x70u8),
            _ => None,
        },
        Operation::Bcc => match mode {
            AddressingMode::Immediate => Some(0x90u8),
            _ => None,
        },
        Operation::Bcs => match mode {
            AddressingMode::Immediate => Some(0xB0u8),
            _ => None,
        },
        Operation::Bne => match mode {
            AddressingMode::Immediate => Some(0xD0u8),
            _ => None,
        },
        Operation::Beq => match mode {
            AddressingMode::Immediate => Some(0xF0u8),
            _ => None,
        },
        Operation::Jmp => match mode {
            AddressingMode::Absolute => Some(0x4Cu8),
            _ => None,
        },
        Operation::Inx => match mode {
            AddressingMode::Implied => Some(0xE8u8),
            _ => None,
        },
        Operation::Iny => match mode {
            AddressingMode::Implied => Some(0xC8u8),
            _ => None,
        },
        Operation::Dex => match mode {
            AddressingMode::Implied => Some(0xCAu8),
            _ => None,
        },
        Operation::Dey => match mode {
            AddressingMode::Implied => Some(0x88u8),
            _ => None,
        },
    }
}

/// The instruction that `opcode` encodes in the matrix, if any.
pub open spec fn instruction_of(opcode: u8) -> Option<(Operation, AddressingMode)> {
    if exists|op: Operation, mode: AddressingMode| opcode_of(op, mode) == Some(opcode) {
        Some(
            choose|p: (Operation, AddressingMode)| #[trigger] opcode_of(p.0, p.1) == Some(opcode),
        )
    } else {
        None
    }
}

/// A decoding that agrees with the matrix on every pair is the one that
/// `instruction_of` names.
proof fn lemma_inverse_is_instruction_of(opcode: u8, r: Option<(Operation, AddressingMode)>)
    requires
        forall|op: Operation, mode: AddressingMode|
            #![trigger opcode_of(op, mode)]
            (r == Some((op, mode))) <==> (opcode_of(op, mode) == Some(opcode)),
    ensures
        r == instruction_of(opcode),
{
    if let Some((op, mode)) = r {
        assert(opcode_of(op, mode) == Some(opcode));
        let p = choose|p: (Operation, AddressingMode)| #[trigger] opcode_of(p.0, p.1) == Some(opcode);
        assert(opcode_of(p.0, p.1) == Some(opcode));
    }
}

/// The operation and addressing mode that `opcode` encodes, or `None` for an
/// opcode outside the matrix.
pub fn decode(opcode: u8) -> (r: Option<(Operation, AddressingMode)>)
    ensures
        forall|op: Operation, mode: AddressingMode|
            #![trigger opcode_of(op, mode)]
            (r == Some((op, mode))) <==> (opcode_of(op, mode) == Some(opcode)),
        r == instruction_of(opcode),
{
    let r = match opcode {
        0x69 => Some((Operation::Adc, AddressingMode::Immediate)),
        0x65 => Some((Operation::Adc, AddressingMode::ZeroPage)),
        0x75 => Some((Operation::Adc, AddressingMode::ZeroPageX)),
        0x6D => Some((Operation::Adc, AddressingMode::Absolute)),
        0x7D => Some((Operation::Adc, AddressingMode::AbsoluteX)),
        0x79 => Some((Operation::Adc, AddressingMode::AbsoluteY)),
        0xE9 => Some((Operation::Sbc, AddressingMode::Immediate)),
        0xE5 => Some((Operation::Sbc, AddressingMode::ZeroPage)),
        0xF5 => Some((Operation::Sbc, AddressingMode::ZeroPageX)),
        0xED => Some((Operation::Sbc, AddressingMode::Absolute)),
        0xFD => Some((Operation::Sbc, AddressingMode::AbsoluteX)),
        0xF9 => Some((Operation::Sbc, AddressingMode::AbsoluteY)),
        0x29 => Some((Operation::And, AddressingMode::Immediate)),
        0x25 => Some((Operation::And, AddressingMode::ZeroPage)),
        0x35 => Some((Operation::And, AddressingMode::ZeroPageX)),
        0x2D => Some((Operation::And, AddressingMode::Absolute)),
        0x3D => Some((Operation::And, AddressingMode::AbsoluteX)),
        0x39 => Some((Operation::And, AddressingMode::AbsoluteY)),
        0x09 => Some((Operation::Ora, AddressingMode::Immediate)),
        0x05 => Some((Operation::Ora, AddressingMode::ZeroPage)),
        0x15 => Some((Operation::Ora, AddressingMode::ZeroPageX)),
        0x0D => Some((Operation::Ora, AddressingMode::Absolute)),
        0x1D => Some((Operation::Ora, AddressingMode::AbsoluteX)),
        0x19 => Some((Operation::Ora, AddressingMode::AbsoluteY)),
        0x49 => Some((Operation::Eor, AddressingMode::Immediate)),
        0x45 => Some((Operation::Eor, AddressingMode::ZeroPage)),
        0x55 => Some((Operation::Eor, AddressingMode::ZeroPageX)),
        0x4D => Some((Operation::Eor, AddressingMode::Absolute)),
        0x5D => Some((Operation::Eor, AddressingMode::AbsoluteX)),
        0x59 => Some((Operation::Eor, AddressingMode::AbsoluteY)),
        0x0A => Some((Operation::Asl, AddressingMode::Accumulator)),
        0x06 => Some((Operation::Asl, AddressingMode::ZeroPage)),
        0x16 => Some((Operation::Asl, AddressingMode::ZeroPageX)),
        0x0E => Some((Operation::Asl, AddressingMode::Absolute)),
        0x1E => Some((Operation::Asl, AddressingMode::AbsoluteX)),
        0x4A => Some((Operation::Lsr, AddressingMode::Accumulator)),
        0x46 => Some((Operation::Lsr, AddressingMode::ZeroPage)),
        0x56 => Some((Operation::Lsr, AddressingMode::ZeroPageX)),
        0x4E => Some((Operation::Lsr, AddressingMode::Absolute)),
        0x5E => Some((Operation::Lsr, AddressingMode::AbsoluteX)),
        0x2A => Some((Operation::Rol, AddressingMode::Accumulator)),
        0x26 => Some((Operation::Rol, AddressingMode::ZeroPage)),
        0x36 => Some((Operation::Rol, AddressingMode::ZeroPageX)),
        0x2E => Some((Operation::Rol, AddressingMode::Absolute)),
        0x3E => Some((Operation::Rol, AddressingMode::AbsoluteX)),
        0x6A => Some((Operation::Ror, AddressingMode::Accumulator)),
        0x66 => Some((Operation::Ror, AddressingMode::ZeroPage)),
        0x76 => Some((Operation::Ror, AddressingMode::ZeroPageX)),
        0x6E => Some((Operation::Ror, AddressingMode::Absolute)),
        0x7E => Some((Operation::Ror, AddressingMode::AbsoluteX)),
        0xC9 => Some((Operation::Cmp, AddressingMode::Immediate)),
        0xC5 => Some((Operation::Cmp, AddressingMode::ZeroPage)),
        0xD5 => Some((Operation::Cmp, AddressingMode::ZeroPageX)),
        0xCD => Some((Operation::Cmp, AddressingMode::Absolute)),
        0xDD => Some((Operation::Cmp, AddressingMode::AbsoluteX)),
        0xD9 => Some((Operation::Cmp, AddressingMode::AbsoluteY)),
        0xE0 => Some((Operation::Cpx, AddressingMode::Immediate)),
        0xE4 => Some((Operation::Cpx, AddressingMode::ZeroPage)),
        0xEC => Some((Operation::Cpx, AddressingMode::Absolute)),
        0xC0 => Some((Operation::Cpy, AddressingMode::Immediate)),
        0xC4 => Some((Operation::Cpy, AddressingMode::ZeroPage)),
        0xCC => Some((Operation::Cpy, AddressingMode::Absolute)),
        0xA9 => Some((Operation::Lda, AddressingMode::Immediate)),
        0xA5 => Some((Operation::Lda, AddressingMode::ZeroPage)),
        0xB5 => Some((Operation::Lda, AddressingMode::ZeroPageX)),
        0xAD => Some((Operation::Lda, AddressingMode::Absolute)),
        0xBD => Some((Operation::Lda, AddressingMode::AbsoluteX)),
        0xB9 => Some((Operation::Lda, AddressingMode::AbsoluteY)),
        0xA2 => Some((Operation::Ldx, AddressingMode::Immediate)),
        0xA6 => Some((Operation::Ldx, AddressingMode::ZeroPage)),
        0xB6 => Some((Operation::Ldx, AddressingMode::ZeroPageY)),
        0xAE => Some((Operation::Ldx, AddressingMode::Absolute)),
        0xBE => Some((Operation::Ldx, AddressingMode::AbsoluteY)),
        0xA0 => Some((Operation::Ldy, AddressingMode::Immediate)),
        0xA4 => Some((Operation::Ldy, AddressingMode::ZeroPage)),
        0xB4 => Some((Operation::Ldy, AddressingMode::ZeroPageX)),
        0xAC => Some((Operation::Ldy, AddressingMode::Absolute)),
        0xBC => Some((Operation::Ldy, AddressingMode::AbsoluteX)),
        0x85 => Some((Operation::Sta, AddressingMode::ZeroPage)),
        0x95 => Some((Operation::Sta, AddressingMode::ZeroPageX)),
        0x8D => Some((Operation::Sta, AddressingMode::Absolute)),
        0x9D => Some((Operation::Sta, AddressingMode::AbsoluteX)),
        0x99 => Some((Operation::Sta, AddressingMode::AbsoluteY)),
        0x86 => Some((Operation::Stx, AddressingMode::ZeroPage)),
        0x96 => Some((Operation::Stx, AddressingMode::ZeroPageY)),
        0x8E => Some((Operation::Stx, AddressingMode::Absolute)),
        0x84 => Some((Operation::Sty, AddressingMode::ZeroPage)),
        0x94 => Some((Operation::Sty, AddressingMode::ZeroPageX)),
        0x8C => Some((Operation::Sty, AddressingMode::Absolute)),
        0xEA => Some((Operation::Nop, AddressingMode::Implied)),
        0x10 => Some((Operation::Bpl, AddressingMode::Immediate)),
        0x30 => Some((Operation::Bmi, AddressingMode::Immediate)),
        0x50 => Some((Operation::Bvc, AddressingMode::Immediate)),
        0x70 => Some((Operation::Bvs, AddressingMode::Immediate)),
        0x90 => Some((Operation::Bcc, AddressingMode::Immediate)),
        0xB0 => Some((Operation::Bcs, AddressingMode::Immediate)),
        0xD0 => Some((Operation::Bne, AddressingMode::Immediate)),
        0xF0 => Some((Operation::Beq, AddressingMode::Immediate)),
        0x4C => Some((Operation::Jmp, AddressingMode::Absolute)),
        0xE8 => Some((Operation::Inx, AddressingMode::Implied)),
        0xC8 => Some((Operation::Iny, AddressingMode::Implied)),
        0xCA => Some((Operation::Dex, AddressingMode::Implied)),
        0x88 => Some((Operation::Dey, AddressingMode::Implied)),
        _ => None,
    };
    assert(forall|op: Operation, mode: AddressingMode|
        #![trigger opcode_of(op, mode)]
        (r == Some((op, mode))) <==> (opcode_of(op, mode) == Some(opcode)));
    proof {
        lemma_inverse_is_instruction_of(opcode, r);
    }
    r
}

} // verus!
