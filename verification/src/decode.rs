use vstd::prelude::*;

verus! {

/// A bit pattern for an opcode, bit 7 first. A character up to `'1'` fixes
/// the bit at its position, `'1'` to one and any other to zero; a letter
/// marks a bit that belongs to a field.
pub type OpMask = (char, char, char, char, char, char, char, char);

/// The weight of a bit in a byte: `weight` if the bit is set, and 0 if not.
pub open spec fn bit_weight(set: bool, weight: int) -> int {
    if set {
        weight
    } else {
        0
    }
}

/// The byte with the given bits, bit 7 first.
pub open spec fn byte_of_bits(
    b7: bool,
    b6: bool,
    b5: bool,
    b4: bool,
    b3: bool,
    b2: bool,
    b1: bool,
    b0: bool,
) -> u8 {
    (bit_weight(b7, 128) + bit_weight(b6, 64) + bit_weight(b5, 32) + bit_weight(b4, 16)
        + bit_weight(b3, 8) + bit_weight(b2, 4) + bit_weight(b1, 2) + bit_weight(b0, 1)) as u8
}

/// The bits that a pattern fixes.
pub open spec fn fixed_bits(p: OpMask) -> u8 {
    byte_of_bits(
        p.0 <= '1',
        p.1 <= '1',
        p.2 <= '1',
        p.3 <= '1',
        p.4 <= '1',
        p.5 <= '1',
        p.6 <= '1',
        p.7 <= '1',
    )
}

/// The bits at which a pattern has the character `what`.
pub open spec fn marked_bits(p: OpMask, what: char) -> u8 {
    byte_of_bits(
        p.0 == what,
        p.1 == what,
        p.2 == what,
        p.3 == what,
        p.4 == what,
        p.5 == what,
        p.6 == what,
        p.7 == what,
    )
}

/// The position of the lowest bit set in `m`, and 0 if none is set.
pub open spec fn lowest_position(m: u8) -> u32 {
    if m % 2 == 1 {
        0
    } else if m % 4 == 2 {
        1
    } else if m % 8 == 4 {
        2
    } else if m % 16 == 8 {
        3
    } else if m % 32 == 16 {
        4
    } else if m % 64 == 32 {
        5
    } else if m % 128 == 64 {
        6
    } else if m == 128 {
        7
    } else {
        0
    }
}

/// The bits of `opcode` under `m`, moved down so that the lowest bit of `m`
/// comes to stand at position 0.
pub open spec fn field(opcode: u8, m: u8) -> u8 {
    (opcode & m) >> lowest_position(m)
}

/// Whether `opcode` has every bit that the pattern fixes as the pattern has
/// it.
pub open spec fn fits(opcode: u8, p: OpMask) -> bool {
    opcode & fixed_bits(p) == marked_bits(p, '1')
}

/// One bit of a byte: `weight` if `set`, and 0 if not.
fn bit(set: bool, weight: u8) -> (byte: u8)
    ensures
        byte == bit_weight(set, weight as int),
{
    if set {
        weight
    } else {
        0
    }
}

/// The byte with the given bits, bit 7 first.
pub(crate) fn pack_bits(
    b7: bool,
    b6: bool,
    b5: bool,
    b4: bool,
    b3: bool,
    b2: bool,
    b1: bool,
    b0: bool,
) -> (byte: u8)
    ensures
        byte == byte_of_bits(b7, b6, b5, b4, b3, b2, b1, b0),
{
    let a7 = bit(b7, 0x80);
    let a6 = bit(b6, 0x40);
    let a5 = bit(b5, 0x20);
    let a4 = bit(b4, 0x10);
    let a3 = bit(b3, 0x08);
    let a2 = bit(b2, 0x04);
    let a1 = bit(b1, 0x02);
    let a0 = bit(b0, 0x01);
    assert(a7 | a6 | a5 | a4 | a3 | a2 | a1 | a0 == a7 + a6 + a5 + a4 + a3 + a2 + a1 + a0)
        by (bit_vector)
        requires
            a7 == 0x80 || a7 == 0,
            a6 == 0x40 || a6 == 0,
            a5 == 0x20 || a5 == 0,
            a4 == 0x10 || a4 == 0,
            a3 == 0x08 || a3 == 0,
            a2 == 0x04 || a2 == 0,
            a1 == 0x02 || a1 == 0,
            a0 == 0x01 || a0 == 0,
    ;
    a7 | a6 | a5 | a4 | a3 | a2 | a1 | a0
}

/// The bits that the pattern fixes: those where it has a character up to
/// `'1'`.
pub fn mask(p: OpMask) -> (m: u8)
    ensures
        m == fixed_bits(p),
{
    pack_bits(
        p.0 <= '1',
        p.1 <= '1',
        p.2 <= '1',
        p.3 <= '1',
        p.4 <= '1',
        p.5 <= '1',
        p.6 <= '1',
        p.7 <= '1',
    )
}

/// The bits at which the pattern has the character `what`.
pub fn bits(p: OpMask, what: char) -> (m: u8)
    ensures
        m == marked_bits(p, what),
{
    pack_bits(
        p.0 == what,
        p.1 == what,
        p.2 == what,
        p.3 == what,
        p.4 == what,
        p.5 == what,
        p.6 == what,
        p.7 == what,
    )
}

/// The bits of `opcode` under `m`, moved down to position 0.
fn extract(opcode: u8, m: u8) -> (value: u8)
    ensures
        value == field(opcode, m),
{
    let shift: u32 = if m & 0x01 != 0 {
        0
    } else if m & 0x02 != 0 {
        1
    } else if m & 0x04 != 0 {
        2
    } else if m & 0x08 != 0 {
        3
    } else if m & 0x10 != 0 {
        4
    } else if m & 0x20 != 0 {
        5
    } else if m & 0x40 != 0 {
        6
    } else if m & 0x80 != 0 {
        7
    } else {
        0
    };
    assert(shift == lowest_position(m)) by {
        assert((m & 0x01 != 0) == (m % 2 == 1) && ((m & 0x01 == 0 && m & 0x02 != 0) == (m % 4 == 2)) && ((m
            & 0x03 == 0 && m & 0x04 != 0) == (m % 8 == 4)) && ((m & 0x07 == 0 && m & 0x08 != 0) == (m
            % 16 == 8)) && ((m & 0x0F == 0 && m & 0x10 != 0) == (m % 32 == 16)) && ((m & 0x1F == 0 && m
            & 0x20 != 0) == (m % 64 == 32)) && ((m & 0x3F == 0 && m & 0x40 != 0) == (m % 128 == 64))
            && ((m & 0x7F == 0 && m & 0x80 != 0) == (m == 128)) && (m & 0x03 == 0 <==> m & 0x01 == 0 && m
            & 0x02 == 0) && (m & 0x07 == 0 <==> m & 0x03 == 0 && m & 0x04 == 0) && (m & 0x0F == 0 <==> m
            & 0x07 == 0 && m & 0x08 == 0) && (m & 0x1F == 0 <==> m & 0x0F == 0 && m & 0x10 == 0) && (m
            & 0x3F == 0 <==> m & 0x1F == 0 && m & 0x20 == 0) && (m & 0x7F == 0 <==> m & 0x3F == 0 && m
            & 0x40 == 0)) by (bit_vector);
    }
    (opcode & m) >> shift
}

/// Matches `opcode` against a pattern with one field, marked `'X'`: the
/// field's value if the opcode fits the pattern, and `None` if it does not.
pub fn ops(opcode: u8, p: OpMask) -> (found: Option<u8>)
    ensures
        found == (if fits(opcode, p) {
            Some(field(opcode, marked_bits(p, 'X')))
        } else {
            None
        }),
{
    if opcode & mask(p) == bits(p, '1') {
        Some(extract(opcode, bits(p, 'X')))
    } else {
        None
    }
}

/// Matches `opcode` against a pattern with two fields, marked `'X'` and
/// `'Y'`: the two values if the opcode fits the pattern, and `None` if it
/// does not.
pub fn ops2(opcode: u8, p: OpMask) -> (found: Option<(u8, u8)>)
    ensures
        found == (if fits(opcode, p) {
            Some((field(opcode, marked_bits(p, 'X')), field(opcode, marked_bits(p, 'Y'))))
        } else {
            None
        }),
{
    if opcode & mask(p) == bits(p, '1') {
        Some((extract(opcode, bits(p, 'X')), extract(opcode, bits(p, 'Y'))))
    } else {
        None
    }
}

/// One instruction of the processor, as its opcode byte gives it. Operands
/// that follow the opcode in memory are not part of it.
///
/// A register operand is a number from 0 to 7: B, C, D, E, H, L, the byte in
/// memory at the address HL, and A. A register pair is a number from 0 to 3:
/// BC, DE, HL and SP, or, for `Push` and `Pop`, BC, DE, HL and the flags with
/// A. A condition is a number from 0 to 7: zero flag clear, set; carry clear,
/// set; parity flag clear, set; sign flag clear, set. An operation of the
/// arithmetic unit is a number from 0 to 7: add, add with carry, subtract,
/// subtract with borrow, and, exclusive or, or, compare.
#[derive(Clone, Copy, Debug, PartialEq, Eq, Structural)]
pub enum Instruction {
    /// Do nothing. The opcodes that the processor's manual leaves out decode
    /// to this as well.
    Nop,
    /// `00RP0001`: load the pair with the word that follows.
    Lxi(u8),
    /// `000R0010`: store A at the address in BC or DE.
    Stax(u8),
    /// `00100010`: store HL at the address that follows.
    Shld,
    /// `00110010`: store A at the address that follows.
    Sta,
    /// `00RP0011`: add one to the pair.
    Inx(u8),
    /// `00DDD100`: add one to the register.
    Inr(u8),
    /// `00DDD101`: take one from the register.
    Dcr(u8),
    /// `00DDD110`: load the register with the byte that follows.
    Mvi(u8),
    /// `00000111`: rotate A left.
    Rlc,
    /// `00001111`: rotate A right.
    Rrc,
    /// `00010111`: rotate A left through the carry.
    Ral,
    /// `00011111`: rotate A right through the carry.
    Rar,
    /// `00RP1001`: add the pair to HL.
    Dad(u8),
    /// `000R1010`: load A from the address in BC or DE.
    Ldax(u8),
    /// `00101010`: load HL from the address that follows.
    Lhld,
    /// `00111010`: load A from the address that follows.
    Lda,
    /// `00RP1011`: take one from the pair.
    Dcx(u8),
    /// `00100111`: adjust A to two decimal digits.
    Daa,
    /// `00101111`: complement A.
    Cma,
    /// `00110111`: set the carry.
    Stc,
    /// `00111111`: complement the carry.
    Cmc,
    /// `01110110`: halt.
    Hlt,
    /// `01DDDSSS`: copy the second register into the first.
    Mov(u8, u8),
    /// `10OPSSS`: apply the operation to A and the register.
    Alu(u8, u8),
    /// `11CCC000`: return if the condition holds.
    Rcc(u8),
    /// `11RP0001`: pop the pair from the stack.
    Pop(u8),
    /// `11CCC010`: jump to the address that follows if the condition holds.
    Jcc(u8),
    /// `11CCC100`: call the address that follows if the condition holds.
    Ccc(u8),
    /// `11RP0101`: push the pair on the stack.
    Push(u8),
    /// `11OP110`: apply the operation to A and the byte that follows.
    AluImm(u8),
    /// `11NNN111`: call the address 8 * N.
    Rst(u8),
    /// `11000011`: jump to the address that follows.
    Jmp,
    /// `11001001`: return.
    Ret,
    /// `11001101`: call the address that follows.
    Call,
    /// `11010011`: send A to the port whose number follows.
    Out,
    /// `11011011`: load A from the port whose number follows.
    In,
    /// `11100011`: exchange HL with the word on top of the stack.
    Xthl,
    /// `11101001`: jump to the address in HL.
    Pchl,
    /// `11101011`: exchange HL and DE.
    Xchg,
    /// `11110011`: disable interrupts.
    Di,
    /// `11111011`: enable interrupts.
    Ei,
    /// `11111001`: load SP from HL.
    Sphl,
}

impl Instruction {
    /// Whether each operand is a number that names a register, a pair, a
    /// condition or an operation.
    pub open spec fn wf(self) -> bool {
        match self {
            Instruction::Lxi(rp) | Instruction::Inx(rp) | Instruction::Dad(rp) | Instruction::Dcx(rp)
            | Instruction::Pop(rp) | Instruction::Push(rp) => rp < 4,
            Instruction::Stax(r) | Instruction::Ldax(r) => r < 2,
            Instruction::Inr(reg) | Instruction::Dcr(reg) | Instruction::Mvi(reg) => reg < 8,
            Instruction::Mov(dst, src) => dst < 8 && src < 8,
            Instruction::Alu(operation, reg) => operation < 8 && reg < 8,
            Instruction::Rcc(cond) | Instruction::Jcc(cond) | Instruction::Ccc(cond) => cond < 8,
            Instruction::AluImm(operation) => operation < 8,
            Instruction::Rst(n) => n < 8,
            _ => true,
        }
    }
}

/// The instruction that an opcode byte stands for.
///
/// The byte is read as a table of four quarters by its two top bits. In the
/// first and the last quarter the low four bits pick the column and bits 4
/// and 5 the register pair, or the low three bits pick the column and bits 3
/// to 5 the register, the condition or the operation.
pub open spec fn decode_spec(opcode: u8) -> Instruction {
    let quarter = opcode / 64;
    let y = (opcode / 8) % 8;
    let z = opcode % 8;
    let rp = (opcode / 16) % 4;
    let low = opcode % 16;
    if quarter == 0 {
        if low == 0x1 {
            Instruction::Lxi(rp)
        } else if low == 0x9 {
            Instruction::Dad(rp)
        } else if low == 0x3 {
            Instruction::Inx(rp)
        } else if low == 0xB {
            Instruction::Dcx(rp)
        } else if low == 0x2 {
            if rp < 2 {
                Instruction::Stax(rp)
            } else if rp == 2 {
                Instruction::Shld
            } else {
                Instruction::Sta
            }
        } else if low == 0xA {
            if rp < 2 {
                Instruction::Ldax(rp)
            } else if rp == 2 {
                Instruction::Lhld
            } else {
                Instruction::Lda
            }
        } else if z == 4 {
            Instruction::Inr(y)
        } else if z == 5 {
            Instruction::Dcr(y)
        } else if z == 6 {
            Instruction::Mvi(y)
        } else if z == 7 {
            if y == 0 {
                Instruction::Rlc
            } else if y == 1 {
                Instruction::Rrc
            } else if y == 2 {
                Instruction::Ral
            } else if y == 3 {
                Instruction::Rar
            } else if y == 4 {
                Instruction::Daa
            } else if y == 5 {
                Instruction::Cma
            } else if y == 6 {
                Instruction::Stc
            } else {
                Instruction::Cmc
            }
        } else {
            Instruction::Nop
        }
    } else if quarter == 1 {
        if y == 6 && z == 6 {
            Instruction::Hlt
        } else {
            Instruction::Mov(y, z)
        }
    } else if quarter == 2 {
        Instruction::Alu(y, z)
    } else {
        if low == 0x1 {
            Instruction::Pop(rp)
        } else if low == 0x5 {
            Instruction::Push(rp)
        } else if low == 0x9 {
            if rp == 0 {
                Instruction::Ret
            } else if rp == 2 {
                Instruction::Pchl
            } else if rp == 3 {
                Instruction::Sphl
            } else {
                Instruction::Nop
            }
        } else if low == 0xD {
            if rp == 0 {
                Instruction::Call
            } else {
                Instruction::Nop
            }
        } else if z == 0 {
            Instruction::Rcc(y)
        } else if z == 2 {
            Instruction::Jcc(y)
        } else if z == 4 {
            Instruction::Ccc(y)
        } else if z == 6 {
            Instruction::AluImm(y)
        } else if z == 7 {
            Instruction::Rst(y)
        } else {
            if y == 0 {
                Instruction::Jmp
            } else if y == 2 {
                Instruction::Out
            } else if y == 3 {
                Instruction::In
            } else if y == 4 {
                Instruction::Xthl
            } else if y == 5 {
                Instruction::Xchg
            } else if y == 6 {
                Instruction::Di
            } else if y == 7 {
                Instruction::Ei
            } else {
                Instruction::Nop
            }
        }
    }
}

/// What masking an opcode with the masks of the decoder's patterns says of
/// its arithmetic fields.
proof fn lemma_opcode_fields(opcode: u8)
    by (bit_vector)
    ensures
        opcode & 0xCF == 0x01 <==> opcode / 64 == 0 && opcode % 16 == 0x1,
        opcode & 0xCF == 0x03 <==> opcode / 64 == 0 && opcode % 16 == 0x3,
        opcode & 0xCF == 0x09 <==> opcode / 64 == 0 && opcode % 16 == 0x9,
        opcode & 0xCF == 0x0B <==> opcode / 64 == 0 && opcode % 16 == 0xB,
        opcode & 0xCF == 0xC1 <==> opcode / 64 == 3 && opcode % 16 == 0x1,
        opcode & 0xCF == 0xC5 <==> opcode / 64 == 3 && opcode % 16 == 0x5,
        opcode & 0xEF == 0x02 <==> opcode / 64 == 0 && opcode % 16 == 0x2 && (opcode / 16) % 4 < 2,
        opcode & 0xEF == 0x0A <==> opcode / 64 == 0 && opcode % 16 == 0xA && (opcode / 16) % 4 < 2,
        opcode & 0xC7 == 0x04 <==> opcode / 64 == 0 && opcode % 8 == 4,
        opcode & 0xC7 == 0x05 <==> opcode / 64 == 0 && opcode % 8 == 5,
        opcode & 0xC7 == 0x06 <==> opcode / 64 == 0 && opcode % 8 == 6,
        opcode & 0xC7 == 0xC0 <==> opcode / 64 == 3 && opcode % 8 == 0,
        opcode & 0xC7 == 0xC2 <==> opcode / 64 == 3 && opcode % 8 == 2,
        opcode & 0xC7 == 0xC4 <==> opcode / 64 == 3 && opcode % 8 == 4,
        opcode & 0xC7 == 0xC6 <==> opcode / 64 == 3 && opcode % 8 == 6,
        opcode & 0xC7 == 0xC7 <==> opcode / 64 == 3 && opcode % 8 == 7,
        opcode & 0xC0 == 0x40 <==> opcode / 64 == 1,
        opcode & 0xC0 == 0x80 <==> opcode / 64 == 2,
        (opcode & 0x30) >> 4u32 == (opcode / 16) % 4,
        (opcode & 0x10) >> 4u32 == (opcode / 16) % 2,
        (opcode & 0x38) >> 3u32 == (opcode / 8) % 8,
        (opcode & 0x07) >> 0u32 == opcode % 8,
        (opcode / 16) % 4 < 2 ==> (opcode / 16) % 2 == (opcode / 16) % 4,
        opcode % 16 == opcode % 8 + 8 * ((opcode / 8) % 2),
        (opcode / 8) % 8 == 2 * ((opcode / 16) % 4) + (opcode / 8) % 2,
        opcode == 64 * (opcode / 64) + 8 * ((opcode / 8) % 8) + opcode % 8,
{
}

/// Decodes an opcode byte. Every byte decodes.
pub fn decode(opcode: u8) -> (instruction: Instruction)
    ensures
        instruction == decode_spec(opcode),
        instruction.wf(),
{
    proof {
        lemma_opcode_fields(opcode);
    }
    if opcode == 0 {
        Instruction::Nop
    } else if let Some(rp) = ops(opcode, ('0', '0', 'X', 'X', '0', '0', '0', '1')) {
        Instruction::Lxi(rp)
    } else if let Some(r) = ops(opcode, ('0', '0', '0', 'X', '0', '0', '1', '0')) {
        Instruction::Stax(r)
    } else if opcode == 0x22 {
        Instruction::Shld
    } else if opcode == 0x32 {
        Instruction::Sta
    } else if let Some(rp) = ops(opcode, ('0', '0', 'X', 'X', '0', '0', '1', '1')) {
        Instruction::Inx(rp)
    } else if let Some(reg) = ops(opcode, ('0', '0', 'X', 'X', 'X', '1', '0', '0')) {
        Instruction::Inr(reg)
    } else if let Some(reg) = ops(opcode, ('0', '0', 'X', 'X', 'X', '1', '0', '1')) {
        Instruction::Dcr(reg)
    } else if let Some(reg) = ops(opcode, ('0', '0', 'X', 'X', 'X', '1', '1', '0')) {
        Instruction::Mvi(reg)
    } else if opcode == 0x07 {
        Instruction::Rlc
    } else if opcode == 0x0F {
        Instruction::Rrc
    } else if opcode == 0x17 {
        Instruction::Ral
    } else if opcode == 0x1F {
        Instruction::Rar
    } else if let Some(rp) = ops(opcode, ('0', '0', 'X', 'X', '1', '0', '0', '1')) {
        Instruction::Dad(rp)
    } else if let Some(r) = ops(opcode, ('0', '0', '0', 'X', '1', '0', '1', '0')) {
        Instruction::Ldax(r)
    } else if opcode == 0x2A {
        Instruction::Lhld
    } else if opcode == 0x3A {
        Instruction::Lda
    } else if let Some(rp) = ops(opcode, ('0', '0', 'X', 'X', '1', '0', '1', '1')) {
        Instruction::Dcx(rp)
    } else if opcode == 0x27 {
        Instruction::Daa
    } else if opcode == 0x2F {
        Instruction::Cma
    } else if opcode == 0x37 {
        Instruction::Stc
    } else if opcode == 0x3F {
        Instruction::Cmc
    } else if opcode == 0x76 {
        Instruction::Hlt
    } else if let Some((dst, src)) = ops2(opcode, ('0', '1', 'X', 'X', 'X', 'Y', 'Y', 'Y')) {
        Instruction::Mov(dst, src)
    } else if let Some((operation, reg)) = ops2(opcode, ('1', '0', 'X', 'X', 'X', 'Y', 'Y', 'Y')) {
        Instruction::Alu(operation, reg)
    } else if let Some(cond) = ops(opcode, ('1', '1', 'X', 'X', 'X', '0', '0', '0')) {
        Instruction::Rcc(cond)
    } else if let Some(cond) = ops(opcode, ('1', '1', 'X', 'X', 'X', '0', '1', '0')) {
        Instruction::Jcc(cond)
    } else if let Some(cond) = ops(opcode, ('1', '1', 'X', 'X', 'X', '1', '0', '0')) {
        Instruction::Ccc(cond)
    } else if let Some(rp) = ops(opcode, ('1', '1', 'X', 'X', '0', '0', '0', '1')) {
        Instruction::Pop(rp)
    } else if let Some(rp) = ops(opcode, ('1', '1', 'X', 'X', '0', '1', '0', '1')) {
        Instruction::Push(rp)
    } else if opcode == 0xC3 {
        Instruction::Jmp
    } else if opcode == 0xC9 {
        Instruction::Ret
    } else if opcode == 0xCD {
        Instruction::Call
    } else if let Some(operation) = ops(opcode, ('1', '1', 'X', 'X', 'X', '1', '1', '0')) {
        Instruction::AluImm(operation)
    } else if let Some(n) = ops(opcode, ('1', '1', 'X', 'X', 'X', '1', '1', '1')) {
        Instruction::Rst(n)
    } else if opcode == 0xD3 {
        Instruction::Out
    } else if opcode == 0xDB {
        Instruction::In
    } else if opcode == 0xE3 {
        Instruction::Xthl
    } else if opcode == 0xE9 {
        Instruction::Pchl
    } else if opcode == 0xF9 {
        Instruction::Sphl
    } else if opcode == 0xEB {
        Instruction::Xchg
    } else if opcode == 0xF3 {
        Instruction::Di
    } else if opcode == 0xFB {
        Instruction::Ei
    } else {
        Instruction::Nop
    }
}

} // verus!
