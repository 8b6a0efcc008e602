use vstd::prelude::*;
use crate::arith::{negated, wrap16};
use crate::cpu::Registers;
use crate::decode::{decode_spec, Instruction};
use crate::state::State;

verus! {

/// Every opcode byte decodes to an instruction whose operands name
/// registers, pairs, conditions and operations: no byte is refused.
pub proof fn lemma_every_opcode_decodes(opcode: u8)
    ensures
        decode_spec(opcode).wf(),
{
}

/// A byte and its two's complement add up to 0 modulo 2^8.
pub proof fn lemma_negated_cancels(v: u8)
    ensures
        (negated(v) + v) % 256 == 0,
{
}

/// Packing the flags into a byte and unpacking that byte gives the flags
/// back.
pub proof fn lemma_flags_unpack_pack(registers: Registers)
    ensures
        registers.with_flags_byte(registers.flags_byte()) == registers,
{
}

/// Unpacking a byte into the flags and packing them again gives the byte
/// back in its five flag bits, and zero in the other three.
pub proof fn lemma_flags_pack_unpack(registers: Registers, byte: u8)
    ensures
        registers.with_flags_byte(byte).flags_byte() == byte & 0xD5,
{
    assert(byte & 0xD5 == 128 * ((byte / 128) % 2) + 64 * ((byte / 64) % 2) + 16 * ((byte / 16) % 2) + 4
        * ((byte / 4) % 2) + byte % 2) by (bit_vector);
}

/// Going up by two undoes going down by two, and one more after `n` is
/// `n + 1` more, on addresses that wrap at 2^16.
proof fn lemma_wrap16(x: u16, n: int, m: int)
    ensures
        wrap16(wrap16(x + n) + m) == wrap16(x + n + m),
        wrap16(x as int) == x,
{
}

/// A push followed by a pop of the same pair restores the pair, the flags
/// and SP, and leaves PC two bytes on, where the stack keeps the word that
/// is written to it.
pub proof fn lemma_push_then_pop(s: State, rp: u8)
    requires
        rp < 4,
        s.memory.keeps_word(wrap16(s.registers.sp - 2), s.registers.stack_pair(rp)),
    ensures
        s.execute(Instruction::Push(rp)).execute(Instruction::Pop(rp)) == (State {
            registers: Registers { pc: wrap16(s.registers.pc + 2), ..s.registers },
            memory: s.memory.write_word(wrap16(s.registers.sp - 2), s.registers.stack_pair(rp)),
            ..s
        }),
{
    lemma_wrap16(s.registers.sp, -2, 2);
    lemma_wrap16(s.registers.pc, 1, 1);
    lemma_flags_unpack_pack(s.registers);
}

/// The same of two steps: where the opcode at PC is a push, and the opcode
/// that the next step finds is a pop of the same pair, the two steps restore
/// the pair, the flags and SP.
pub proof fn lemma_push_step_then_pop_step(s: State, rp: u8)
    requires
        rp < 4,
        decode_spec(s.memory.read(s.registers.pc)) == Instruction::Push(rp),
        decode_spec(s.step().memory.read(s.step().registers.pc)) == Instruction::Pop(rp),
        s.memory.keeps_word(wrap16(s.registers.sp - 2), s.registers.stack_pair(rp)),
    ensures
        s.step().step().registers == (Registers { pc: wrap16(s.registers.pc + 2), ..s.registers }),
{
    lemma_push_then_pop(s, rp);
}

/// A call followed at once by a return leaves PC at the instruction after
/// the call and restores SP, where the stack keeps the word that is written
/// to it.
pub proof fn lemma_call_then_ret(s: State)
    requires
        s.memory.keeps_word(wrap16(s.registers.sp - 2), wrap16(s.registers.pc + 3)),
    ensures
        s.execute(Instruction::Call).execute(Instruction::Ret) == (State {
            registers: Registers { pc: wrap16(s.registers.pc + 3), ..s.registers },
            memory: s.memory.write_word(wrap16(s.registers.sp - 2), wrap16(s.registers.pc + 3)),
            ..s
        }),
{
    lemma_wrap16(s.registers.sp, -2, 2);
}

/// The same of two steps: where the opcode at PC is a call, and the opcode
/// at the address called is a return, the two steps leave PC at the
/// instruction after the call and restore SP.
pub proof fn lemma_call_step_then_ret_step(s: State)
    requires
        decode_spec(s.memory.read(s.registers.pc)) == Instruction::Call,
        decode_spec(s.step().memory.read(s.step().registers.pc)) == Instruction::Ret,
        s.memory.keeps_word(wrap16(s.registers.sp - 2), wrap16(s.registers.pc + 3)),
    ensures
        s.step().step().registers == (Registers { pc: wrap16(s.registers.pc + 3), ..s.registers }),
{
    lemma_call_then_ret(s);
}

/// An opcode of zero does nothing but move PC one byte on, and from 0xFFFF
/// that is to 0.
pub proof fn lemma_nop_advances(s: State)
    requires
        s.memory.read(s.registers.pc) == 0,
    ensures
        s.step() == s.advance(1),
        s.registers.pc == 0xFFFF ==> s.step().registers.pc == 0,
{
}

/// Two exchanges of HL and DE in a row restore both pairs.
pub proof fn lemma_xchg_twice(s: State)
    ensures
        s.execute(Instruction::Xchg).execute(Instruction::Xchg) == s.advance(2),
{
    lemma_wrap16(s.registers.pc, 1, 1);
}

/// The same of two steps: where the opcodes at PC and after it are both the
/// exchange of HL and DE, two steps change nothing but PC.
pub proof fn lemma_xchg_step_twice(s: State)
    requires
        decode_spec(s.memory.read(s.registers.pc)) == Instruction::Xchg,
        decode_spec(s.memory.read(wrap16(s.registers.pc + 1))) == Instruction::Xchg,
    ensures
        s.step().step() == s.advance(2),
{
    lemma_xchg_twice(s);
}

} // verus!
