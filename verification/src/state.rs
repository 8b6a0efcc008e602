use vstd::prelude::*;
use crate::arith::{even_parity, high_byte, low_byte, negated, sign, word, wrap16, wrap8};
use crate::cpu::Registers;
use crate::decode::{byte_of_bits, decode_spec, Instruction};
use crate::memory::Image;

verus! {

impl Registers {
    /// All registers zero and all flags clear.
    pub open spec fn zeroed() -> Registers {
        Registers {
            a: 0,
            flag_s: false,
            flag_z: false,
            flag_ac: false,
            flag_p: false,
            flag_c: false,
            b: 0,
            c: 0,
            d: 0,
            e: 0,
            h: 0,
            l: 0,
            pc: 0,
            sp: 0,
        }
    }

    /// The flags as one byte: S in bit 7, Z in bit 6, AC in bit 4, P in bit 2
    /// and C in bit 0. The other bits are zero.
    pub open spec fn flags_byte(self) -> u8 {
        byte_of_bits(
            self.flag_s,
            self.flag_z,
            false,
            self.flag_ac,
            false,
            self.flag_p,
            false,
            self.flag_c,
        )
    }

    /// The registers with the flags taken from bits 7, 6, 4, 2 and 0 of
    /// `byte`.
    pub open spec fn with_flags_byte(self, byte: u8) -> Registers {
        Registers {
            flag_s: (byte / 128) % 2 == 1,
            flag_z: (byte / 64) % 2 == 1,
            flag_ac: (byte / 16) % 2 == 1,
            flag_p: (byte / 4) % 2 == 1,
            flag_c: byte % 2 == 1,
            ..self
        }
    }

    /// The registers with S, Z and P set from `value`.
    pub open spec fn with_result_flags(self, value: u8) -> Registers {
        Registers {
            flag_s: sign(value),
            flag_z: value == 0,
            flag_p: even_parity(value),
            ..self
        }
    }

    /// The register pair with the number `rp`: BC, DE, HL or SP.
    pub open spec fn pair(self, rp: u8) -> u16 {
        if rp == 0 {
            word(self.b, self.c)
        } else if rp == 1 {
            word(self.d, self.e)
        } else if rp == 2 {
            word(self.h, self.l)
        } else {
            self.sp
        }
    }

    /// The registers with `value` in the pair with the number `rp`.
    pub open spec fn with_pair(self, rp: u8, value: u16) -> Registers {
        if rp == 0 {
            Registers { b: high_byte(value), c: low_byte(value), ..self }
        } else if rp == 1 {
            Registers { d: high_byte(value), e: low_byte(value), ..self }
        } else if rp == 2 {
            Registers { h: high_byte(value), l: low_byte(value), ..self }
        } else {
            Registers { sp: value, ..self }
        }
    }

    /// The pair that `Push` number `rp` puts on the stack: BC, DE, HL, or
    /// the flags byte above A.
    pub open spec fn stack_pair(self, rp: u8) -> u16 {
        if rp == 3 {
            word(self.flags_byte(), self.a)
        } else {
            self.pair(rp)
        }
    }

    /// The registers once `Pop` number `rp` has taken `value` from the stack.
    pub open spec fn with_stack_pair(self, rp: u8, value: u16) -> Registers {
        if rp == 3 {
            Registers { a: low_byte(value), ..self.with_flags_byte(high_byte(value)) }
        } else {
            self.with_pair(rp, value)
        }
    }

    /// Whether the condition with the number `cond` holds.
    pub open spec fn condition(self, cond: u8) -> bool {
        if cond == 0 {
            !self.flag_z
        } else if cond == 1 {
            self.flag_z
        } else if cond == 2 {
            !self.flag_c
        } else if cond == 3 {
            self.flag_c
        } else if cond == 4 {
            !self.flag_p
        } else if cond == 5 {
            self.flag_p
        } else if cond == 6 {
            !self.flag_s
        } else {
            self.flag_s
        }
    }

    /// The registers once `operand`, and one more if `carry`, has been added
    /// to A.
    ///
    /// C is the carry out of bit 7. AC is the carry out of bit 3: it is set
    /// when the low four bits of A and those of the operand, with the carry,
    /// add up to more than 0x0F. S, Z and P are set from the sum.
    pub open spec fn added(self, operand: u8, carry: bool) -> Registers {
        let carry_in: int = if carry { 1 } else { 0 };
        let sum = self.a + operand + carry_in;
        let a = wrap8(sum);
        Registers {
            a,
            flag_c: sum > 0xFF,
            flag_ac: self.a % 16 + operand % 16 + carry_in > 0x0F,
            ..self
        }.with_result_flags(a)
    }

    /// The registers once `operand`, and one more if `carry`, has been
    /// subtracted from A, by adding the two's complement.
    ///
    /// C is the borrow: it is set when that addition carries nothing out of
    /// bit 7. AC is set when the low four bits of the difference and those of
    /// the two's complement add up to no carry out of bit 3. S, Z and P are
    /// set from the difference.
    pub open spec fn subtracted(self, operand: u8, carry: bool) -> Registers {
        let carry_in: int = if carry { 1 } else { 0 };
        let complement = negated(wrap8(operand + carry_in));
        let sum = self.a + complement;
        let a = wrap8(sum);
        Registers {
            a,
            flag_c: sum <= 0xFF,
            flag_ac: a % 16 + complement % 16 <= 0x0F,
            ..self
        }.with_result_flags(a)
    }

    /// The registers once the operation with the number `operation` has been
    /// applied to A and `operand`.
    pub open spec fn alu(self, operation: u8, operand: u8) -> Registers {
        if operation == 0 {
            self.added(operand, false)
        } else if operation == 1 {
            self.added(operand, self.flag_c)
        } else if operation == 2 {
            self.subtracted(operand, false)
        } else if operation == 3 {
            self.subtracted(operand, self.flag_c)
        } else if operation == 4 {
            Registers { a: self.a & operand, flag_c: false, ..self }.with_result_flags(
                self.a & operand,
            )
        } else if operation == 5 {
            Registers { a: self.a ^ operand, flag_c: false, flag_ac: false, ..self }.with_result_flags(
                self.a ^ operand,
            )
        } else if operation == 6 {
            Registers { a: self.a | operand, flag_c: false, ..self }.with_result_flags(
                self.a | operand,
            )
        } else {
            Registers { a: self.a, ..self.subtracted(operand, false) }
        }
    }

    /// The registers once A has been adjusted to two decimal digits.
    ///
    /// If the low digit is above 9 or AC is set, 6 is added to A: AC is then
    /// the carry out of bit 3 and C the carry out of bit 7. After that, if
    /// the high digit is above 9 or C is set, 0x60 is added to A, and C is
    /// set if that carries out of bit 7. S, Z and P are set from the A that
    /// results.
    pub open spec fn decimal_adjusted(self) -> Registers {
        let first = if self.a % 16 > 9 || self.flag_ac {
            Registers {
                a: wrap8(self.a + 0x06),
                flag_ac: self.a % 16 + 0x06 > 0x0F,
                flag_c: self.a + 0x06 > 0xFF,
                ..self
            }
        } else {
            self
        };
        let second = if first.a / 16 > 9 || first.flag_c {
            Registers {
                a: wrap8(first.a + 0x60),
                flag_c: first.flag_c || first.a + 0x60 > 0xFF,
                ..first
            }
        } else {
            first
        };
        second.with_result_flags(second.a)
    }

    /// A rotated left by one bit: bit 7 goes to C and to bit 0.
    pub open spec fn rotated_left(self) -> Registers {
        Registers { a: wrap8(2 * self.a + self.a / 128), flag_c: self.a >= 128, ..self }
    }

    /// A rotated right by one bit: bit 0 goes to C and to bit 7.
    pub open spec fn rotated_right(self) -> Registers {
        Registers {
            a: (self.a / 2 + 128 * (self.a % 2)) as u8,
            flag_c: self.a % 2 == 1,
            ..self
        }
    }

    /// A rotated left by one bit through C: bit 7 goes to C, and C to bit 0.
    pub open spec fn rotated_left_through_carry(self) -> Registers {
        Registers {
            a: wrap8(2 * self.a + (if self.flag_c { 1int } else { 0 })),
            flag_c: self.a >= 128,
            ..self
        }
    }

    /// A rotated right by one bit through C: bit 0 goes to C, and C to bit 7.
    pub open spec fn rotated_right_through_carry(self) -> Registers {
        Registers {
            a: (self.a / 2 + (if self.flag_c { 128int } else { 0 })) as u8,
            flag_c: self.a % 2 == 1,
            ..self
        }
    }

    /// The registers once the pair with the number `rp` has been added to
    /// HL. C is the carry out of bit 15.
    pub open spec fn double_added(self, rp: u8) -> Registers {
        let sum = self.spec_hl() + self.pair(rp);
        Registers { flag_c: sum > 0xFFFF, ..self.with_pair(2, wrap16(sum)) }
    }
}

/// A machine as a value: its registers, its two latches, and the image of
/// its memory.
pub ghost struct State {
    pub registers: Registers,
    pub halted: bool,
    pub interruption_enabled: bool,
    pub memory: Image,
}

impl State {
    /// The state with other registers.
    pub open spec fn with_registers(self, registers: Registers) -> State {
        State { registers, ..self }
    }

    /// The state once `value` has been written to memory at `addr`.
    pub open spec fn store(self, addr: u16, value: u8) -> State {
        State { memory: self.memory.write(addr, value), ..self }
    }

    /// The state with PC moved `n` bytes on, wrapping at 2^16.
    pub open spec fn advance(self, n: int) -> State {
        self.jump(wrap16(self.registers.pc + n))
    }

    /// The state with PC at `target`.
    pub open spec fn jump(self, target: u16) -> State {
        self.with_registers(Registers { pc: target, ..self.registers })
    }

    /// The byte that follows the opcode at PC.
    pub open spec fn immediate8(self) -> u8 {
        self.memory.read(wrap16(self.registers.pc + 1))
    }

    /// The little-endian word that follows the opcode at PC.
    pub open spec fn immediate16(self) -> u16 {
        self.memory.read_word(wrap16(self.registers.pc + 1))
    }

    /// The operand with the number `reg`: a register, or for 6 the byte in
    /// memory at the address HL.
    pub open spec fn location(self, reg: u8) -> u8 {
        if reg == 0 {
            self.registers.b
        } else if reg == 1 {
            self.registers.c
        } else if reg == 2 {
            self.registers.d
        } else if reg == 3 {
            self.registers.e
        } else if reg == 4 {
            self.registers.h
        } else if reg == 5 {
            self.registers.l
        } else if reg == 6 {
            self.memory.read(self.registers.spec_hl())
        } else {
            self.registers.a
        }
    }

    /// The state once `value` has been put in the operand with the number
    /// `reg`.
    pub open spec fn with_location(self, reg: u8, value: u8) -> State {
        if reg == 0 {
            self.with_registers(Registers { b: value, ..self.registers })
        } else if reg == 1 {
            self.with_registers(Registers { c: value, ..self.registers })
        } else if reg == 2 {
            self.with_registers(Registers { d: value, ..self.registers })
        } else if reg == 3 {
            self.with_registers(Registers { e: value, ..self.registers })
        } else if reg == 4 {
            self.with_registers(Registers { h: value, ..self.registers })
        } else if reg == 5 {
            self.with_registers(Registers { l: value, ..self.registers })
        } else if reg == 6 {
            self.store(self.registers.spec_hl(), value)
        } else {
            self.with_registers(Registers { a: value, ..self.registers })
        }
    }

    /// The state once `value` has been pushed: SP goes down by two, wrapping
    /// at 2^16, and the word is written little-endian at the new SP.
    pub open spec fn push_word(self, value: u16) -> State {
        let sp = wrap16(self.registers.sp - 2);
        State {
            registers: Registers { sp, ..self.registers },
            memory: self.memory.write_word(sp, value),
            ..self
        }
    }

    /// The little-endian word at SP.
    pub open spec fn top_word(self) -> u16 {
        self.memory.read_word(self.registers.sp)
    }

    /// The state with SP moved up by two, wrapping at 2^16.
    pub open spec fn drop_word(self) -> State {
        self.with_registers(Registers { sp: wrap16(self.registers.sp + 2), ..self.registers })
    }

    /// The state after a call of the address that follows the opcode:
    /// `return_to` is pushed, and then the address is read and PC set to it.
    pub open spec fn call(self, return_to: u16) -> State {
        let pushed = self.push_word(return_to);
        pushed.jump(pushed.immediate16())
    }

    /// The state after a return: PC is the word at SP, and SP moves up by
    /// two.
    pub open spec fn ret(self) -> State {
        self.jump(self.top_word()).drop_word()
    }

    /// The state once one has been added to the operand with the number
    /// `reg`. AC is set if the low four bits of the old value, plus one, go
    /// past 0x0F. S, Z and P are set from the operand as it reads after the
    /// write. C stays.
    pub open spec fn incremented(self, reg: u8) -> State {
        let value = self.location(reg);
        let stored = self.with_location(reg, wrap8(value + 1));
        stored.with_registers(
            Registers { flag_ac: value % 16 + 1 > 0x0F, ..stored.registers }.with_result_flags(
                stored.location(reg),
            ),
        )
    }

    /// The state once one has been taken from the operand with the number
    /// `reg`. AC is set if the low four bits of the old value, plus 0x0F, do
    /// not go past 0x0F. S, Z and P are set from the operand as it reads
    /// after the write. C stays.
    pub open spec fn decremented(self, reg: u8) -> State {
        let value = self.location(reg);
        let stored = self.with_location(reg, wrap8(value - 1));
        stored.with_registers(
            Registers { flag_ac: value % 16 + 0x0F <= 0x0F, ..stored.registers }.with_result_flags(
                stored.location(reg),
            ),
        )
    }

    /// The state after the exchange of HL with the word on top of the stack:
    /// L with the byte at SP first, then H with the byte after it.
    pub open spec fn exchanged_with_top(self) -> State {
        let sp = self.registers.sp;
        let next = wrap16(sp + 1);
        let low = self.memory.read(sp);
        let first = self.memory.write(sp, self.registers.l);
        let high = first.read(next);
        State {
            registers: Registers { l: low, h: high, ..self.registers },
            memory: first.write(next, self.registers.h),
            ..self
        }
    }

    /// The state after `instruction`, with the opcode at PC and its operands
    /// after it.
    pub open spec fn execute(self, instruction: Instruction) -> State {
        let r = self.registers;
        match instruction {
            Instruction::Nop => self.advance(1),
            Instruction::Lxi(rp) => self.with_registers(r.with_pair(rp, self.immediate16())).advance(
                3,
            ),
            Instruction::Stax(rp) => self.store(r.pair(rp), r.a).advance(1),
            Instruction::Shld => {
                let addr = self.immediate16();
                self.store(addr, r.l).store(wrap16(addr + 1), r.h).advance(3)
            },
            Instruction::Sta => self.store(self.immediate16(), r.a).advance(3),
            Instruction::Inx(rp) => self.with_registers(
                r.with_pair(rp, wrap16(r.pair(rp) + 1)),
            ).advance(1),
            Instruction::Inr(reg) => self.incremented(reg).advance(1),
            Instruction::Dcr(reg) => self.decremented(reg).advance(1),
            Instruction::Mvi(reg) => self.with_location(reg, self.immediate8()).advance(2),
            Instruction::Rlc => self.with_registers(r.rotated_left()).advance(1),
            Instruction::Rrc => self.with_registers(r.rotated_right()).advance(1),
            Instruction::Ral => self.with_registers(r.rotated_left_through_carry()).advance(1),
            Instruction::Rar => self.with_registers(r.rotated_right_through_carry()).advance(1),
            Instruction::Dad(rp) => self.with_registers(r.double_added(rp)).advance(1),
            Instruction::Ldax(rp) => self.with_registers(
                Registers { a: self.memory.read(r.pair(rp)), ..r },
            ).advance(1),
            Instruction::Lhld => {
                let addr = self.immediate16();
                self.with_registers(
                    Registers {
                        l: self.memory.read(addr),
                        h: self.memory.read(wrap16(addr + 1)),
                        ..r
                    },
                ).advance(3)
            },
            Instruction::Lda => self.with_registers(
                Registers { a: self.memory.read(self.immediate16()), ..r },
            ).advance(3),
            Instruction::Dcx(rp) => self.with_registers(
                r.with_pair(rp, wrap16(r.pair(rp) - 1)),
            ).advance(1),
            Instruction::Daa => self.with_registers(r.decimal_adjusted()).advance(1),
            Instruction::Cma => self.with_registers(Registers { a: (255 - r.a) as u8, ..r }).advance(
                1,
            ),
            Instruction::Stc => self.with_registers(Registers { flag_c: true, ..r }).advance(1),
            Instruction::Cmc => self.with_registers(Registers { flag_c: !r.flag_c, ..r }).advance(1),
            Instruction::Hlt => State { halted: true, ..self },
            Instruction::Mov(dst, src) => self.with_location(dst, self.location(src)).advance(1),
            Instruction::Alu(operation, reg) => self.with_registers(
                r.alu(operation, self.location(reg)),
            ).advance(1),
            Instruction::Rcc(cond) => if r.condition(cond) {
                self.ret()
            } else {
                self.advance(1)
            },
            Instruction::Pop(rp) => self.with_registers(
                r.with_stack_pair(rp, self.top_word()),
            ).drop_word().advance(1),
            Instruction::Jcc(cond) => if r.condition(cond) {
                self.jump(self.immediate16())
            } else {
                self.advance(3)
            },
            Instruction::Ccc(cond) => if r.condition(cond) {
                self.call(wrap16(r.pc + 3))
            } else {
                self.advance(3)
            },
            Instruction::Push(rp) => self.push_word(r.stack_pair(rp)).advance(1),
            Instruction::AluImm(operation) => self.with_registers(
                r.alu(operation, self.immediate8()),
            ).advance(2),
            Instruction::Rst(n) => self.push_word(wrap16(r.pc + 1)).jump((8 * n) as u16),
            Instruction::Jmp => self.jump(self.immediate16()),
            Instruction::Ret => self.ret(),
            Instruction::Call => self.call(wrap16(r.pc + 3)),
            Instruction::Out => self.advance(2),
            Instruction::In => self.with_registers(Registers { a: 0, ..r }).advance(2),
            Instruction::Xthl => self.exchanged_with_top().advance(1),
            Instruction::Pchl => self.jump(r.spec_hl()),
            Instruction::Xchg => self.with_registers(
                Registers { h: r.d, l: r.e, d: r.h, e: r.l, ..r },
            ).advance(1),
            Instruction::Di => State { interruption_enabled: false, ..self.advance(1) },
            Instruction::Ei => State { interruption_enabled: true, ..self.advance(1) },
            Instruction::Sphl => self.with_registers(Registers { sp: r.spec_hl(), ..r }).advance(1),
        }
    }

    /// The state after one instruction: the one whose opcode is in memory at
    /// PC.
    pub open spec fn step(self) -> State {
        self.execute(decode_spec(self.memory.read(self.registers.pc)))
    }
}

} // verus!
