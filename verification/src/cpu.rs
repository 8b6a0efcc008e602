use core::mem::swap;
use vstd::prelude::*;
use crate::arith::{
    add16, from_pair, lemma_sum_of_bytes, lemma_wrapping, neg, parity, sub16, to_pair, wrap8,
};
use crate::decode::{decode, pack_bits, Instruction};
use crate::memory::Memory;
use crate::rom::ROM;
use crate::state::State;

verus! {

/// The registers and flags of the processor.
#[derive(Clone, Copy, Debug, PartialEq, Eq, Structural)]
pub struct Registers {
    pub a: u8,
    pub flag_s: bool,
    pub flag_z: bool,
    pub flag_ac: bool,
    pub flag_p: bool,
    pub flag_c: bool,
    pub b: u8,
    pub c: u8,
    pub d: u8,
    pub e: u8,
    pub h: u8,
    pub l: u8,
    pub pc: u16,
    pub sp: u16,
}

impl Default for Registers {
    /// All registers zero and all flags clear.
    fn default() -> (registers: Self)
        ensures
            registers == Registers::zeroed(),
    {
        Registers {
            a: 0,
            flag_s: false,
            flag_z: false,
            flag_ac: false,
            flag_p: false,
            flag_c: false,
            b: 0,
            c: 0,
            d: 0,
            e: 0,
            h: 0,
            l: 0,
            pc: 0,
            sp: 0,
        }
    }
}

/// How the five flag bits of a byte read as arithmetic.
proof fn lemma_flag_bits(byte: u8)
    by (bit_vector)
    ensures
        byte & 0x80 != 0 <==> (byte / 128) % 2 == 1,
        byte & 0x40 != 0 <==> (byte / 64) % 2 == 1,
        byte & 0x10 != 0 <==> (byte / 16) % 2 == 1,
        byte & 0x04 != 0 <==> (byte / 4) % 2 == 1,
        byte & 0x01 != 0 <==> byte % 2 == 1,
{
}

/// How the shifts of the rotate instructions read as arithmetic.
proof fn lemma_rotations(a: u8)
    ensures
        a & 0x80 != 0 <==> a >= 128,
        a & 0x01 != 0 <==> a % 2 == 1,
        (a << 1) | (a >> 7) == wrap8(2 * a + a / 128),
        (a >> 1) | (a << 7) == a / 2 + 128 * (a % 2),
        a << 1 == wrap8(2 * a),
        (a << 1) | 1 == wrap8(2 * a + 1),
        a >> 1 == a / 2,
        (a >> 1) | 0x80 == a / 2 + 128,
        !a == 255 - a,
{
    assert(a & 0x80 != 0 <==> a >= 128) by (bit_vector);
    assert(a & 0x01 != 0 <==> a % 2 == 1) by (bit_vector);
    assert((a << 1) | (a >> 7) == (if a >= 128 { 2 * (a - 128) + 1 } else { 2 * a })) by (bit_vector);
    assert((a >> 1) | (a << 7) == a / 2 + 128 * (a % 2)) by (bit_vector);
    assert(a << 1 == (if a >= 128 { 2 * (a - 128) } else { 2 * a })) by (bit_vector);
    assert((a << 1) | 1 == (if a >= 128 { 2 * (a - 128) + 1 } else { 2 * a + 1 })) by (bit_vector);
    assert(a >> 1 == a / 2) by (bit_vector);
    assert((a >> 1) | 0x80 == a / 2 + 128) by (bit_vector);
    assert(!a == 255 - a) by (bit_vector);
}

impl Registers {
    /// The pair HL.
    pub open spec fn spec_hl(&self) -> u16 {
        crate::arith::word(self.h, self.l)
    }

    /// The pair HL.
    #[verifier::when_used_as_spec(spec_hl)]
    pub fn hl(&self) -> (hl: u16)
        ensures
            hl == self.spec_hl(),
    {
        from_pair(self.h, self.l)
    }

    /// Packs the flags into one byte: S in bit 7, Z in bit 6, AC in bit 4, P
    /// in bit 2, C in bit 0, and zero in the other bits.
    pub fn get_flags_byte(&self) -> (byte: u8)
        ensures
            byte == self.flags_byte(),
    {
        pack_bits(
            self.flag_s,
            self.flag_z,
            false,
            self.flag_ac,
            false,
            self.flag_p,
            false,
            self.flag_c,
        )
    }

    /// Sets the flags from bits 7, 6, 4, 2 and 0 of `flags_byte`. The other
    /// bits are ignored.
    pub fn set_flags_byte(&mut self, flags_byte: u8)
        ensures
            *final(self) == old(self).with_flags_byte(flags_byte),
    {
        proof {
            lemma_flag_bits(flags_byte);
        }
        self.flag_s = flags_byte & 0b_1000_0000 != 0;
        self.flag_z = flags_byte & 0b_0100_0000 != 0;
        self.flag_ac = flags_byte & 0b_0001_0000 != 0;
        self.flag_p = flags_byte & 0b_0000_0100 != 0;
        self.flag_c = flags_byte & 0b_0000_0001 != 0;
    }
}

/// The processor with its memory.
pub struct Machine {
    pub registers: Registers,
    /// Set by the halt instruction, and by nothing else.
    pub halted: bool,
    /// Kept up to date by the two interrupt instructions. Nothing reads it.
    pub interruption_enabled: bool,
    pub memory: Box<dyn Memory>,
}

impl Machine {
    /// The machine as a value.
    pub open spec fn view(&self) -> State {
        State {
            registers: self.registers,
            halted: self.halted,
            interruption_enabled: self.interruption_enabled,
            memory: self.memory@,
        }
    }

    /// A machine on the given memory: registers zero, flags clear, not
    /// halted, interrupts enabled.
    pub fn new(memory: Box<dyn Memory>) -> (machine: Self)
        ensures
            machine@ == (State {
                registers: Registers::zeroed(),
                halted: false,
                interruption_enabled: true,
                memory: memory@,
            }),
    {
        // A struct literal would pass `memory` through a coercion of trait
        // objects, behind which Verus loses sight of it. An exchange moves it
        // as it is.
        let mut memory = memory;
        let mut machine = Self {
            registers: Registers::default(),
            halted: false,
            interruption_enabled: true,
            memory: Box::new(ROM::new(&[])),
        };
        swap(&mut machine.memory, &mut memory);
        machine
    }

    /// Sets PC to 0. Nothing else changes; the halt latch stays as it is.
    pub fn reset(&mut self)
        ensures
            final(self)@ == old(self)@.jump(0),
    {
        self.registers.pc = 0;
    }

    /// Runs one instruction: the one whose opcode is in memory at PC.
    ///
    /// Every opcode runs. The halt latch is not looked at: after a halt
    /// instruction PC still points at it, so that the next step runs it
    /// again.
    pub fn step(&mut self)
        ensures
            final(self)@ == old(self)@.step(),
    {
        let opcode = self.memory.get_u8(self.registers.pc);
        let instruction = decode(opcode);
        self.execute(instruction);
    }

    /// Runs `instruction`, whose opcode is in memory at PC.
    fn execute(&mut self, instruction: Instruction)
        requires
            instruction.wf(),
        ensures
            final(self)@ == old(self)@.execute(instruction),
    {
        match instruction {
            Instruction::Nop => self.nop(),
            Instruction::Lxi(rp) => self.lxi(rp),
            Instruction::Stax(rp) => self.stax(rp),
            Instruction::Shld => self.shld(),
            Instruction::Sta => self.sta(),
            Instruction::Inx(rp) => self.inx(rp),
            Instruction::Inr(reg) => self.inr(reg),
            Instruction::Dcr(reg) => self.dcr(reg),
            Instruction::Mvi(reg) => self.mvi(reg),
            Instruction::Rlc | Instruction::Rrc | Instruction::Ral | Instruction::Rar => {
                self.rotate(instruction);
                self.advance(1);
            },
            Instruction::Dad(rp) => self.dad(rp),
            Instruction::Ldax(rp) => self.ldax(rp),
            Instruction::Lhld => self.lhld(),
            Instruction::Lda => self.lda(),
            Instruction::Dcx(rp) => self.dcx(rp),
            Instruction::Daa => self.daa(),
            Instruction::Cma => self.cma(),
            Instruction::Stc => self.stc(),
            Instruction::Cmc => self.cmc(),
            Instruction::Hlt => self.hlt(),
            Instruction::Mov(dst, src) => self.mov(dst, src),
            Instruction::Alu(operation, reg) => self.alu_register(operation, reg),
            Instruction::Rcc(cond) => self.rcc(cond),
            Instruction::Pop(rp) => self.pop_pair(rp),
            Instruction::Jcc(cond) => self.jcc(cond),
            Instruction::Ccc(cond) => self.ccc(cond),
            Instruction::Push(rp) => self.push_pair(rp),
            Instruction::AluImm(operation) => self.alu_immediate(operation),
            Instruction::Rst(n) => self.rst(n),
            Instruction::Jmp => self.jmp(),
            Instruction::Ret => self.ret(),
            Instruction::Call => self.call(),
            Instruction::Out => self.output(),
            Instruction::In => self.input(),
            Instruction::Xthl => self.xthl(),
            Instruction::Pchl => self.pchl(),
            Instruction::Xchg => self.xchg(),
            Instruction::Di => self.di(),
            Instruction::Ei => self.ei(),
            Instruction::Sphl => self.sphl(),
        }
    }

    /// Does nothing but move PC on.
    fn nop(&mut self)
        ensures
            final(self)@ == old(self)@.execute(Instruction::Nop),
    {
        self.advance(1);
    }

    /// Loads the pair with the word that follows the opcode.
    fn lxi(&mut self, rp: u8)
        requires
            rp < 4,
        ensures
            final(self)@ == old(self)@.execute(Instruction::Lxi(rp)),
    {
        let data16 = self.fetch16();
        self.set_pair(rp, data16);
        self.advance(3);
    }

    /// Stores A at the address in BC or DE.
    fn stax(&mut self, rp: u8)
        requires
            rp < 2,
        ensures
            final(self)@ == old(self)@.execute(Instruction::Stax(rp)),
    {
        let addr = self.get_pair(rp);
        self.memory.set_u8(addr, self.registers.a);
        self.advance(1);
    }

    /// Stores L, then H, at the address that follows the opcode.
    fn shld(&mut self)
        ensures
            final(self)@ == old(self)@.execute(Instruction::Shld),
    {
        let addr = self.fetch16();
        proof {
            lemma_wrapping(0, 0, addr, 1);
        }
        self.memory.set_u8(addr, self.registers.l);
        self.memory.set_u8(addr.wrapping_add(1), self.registers.h);
        self.advance(3);
    }

    /// Stores A at the address that follows the opcode.
    fn sta(&mut self)
        ensures
            final(self)@ == old(self)@.execute(Instruction::Sta),
    {
        let addr = self.fetch16();
        self.memory.set_u8(addr, self.registers.a);
        self.advance(3);
    }

    /// Adds one to the pair, wrapping at 2^16.
    fn inx(&mut self, rp: u8)
        requires
            rp < 4,
        ensures
            final(self)@ == old(self)@.execute(Instruction::Inx(rp)),
    {
        let value = self.get_pair(rp);
        proof {
            lemma_wrapping(0, 0, value, 1);
        }
        self.set_pair(rp, value.wrapping_add(1));
        self.advance(1);
    }

    /// Adds one to the operand.
    fn inr(&mut self, reg: u8)
        requires
            reg < 8,
        ensures
            final(self)@ == old(self)@.execute(Instruction::Inr(reg)),
    {
        self.increment(reg);
        self.advance(1);
    }

    /// Takes one from the operand.
    fn dcr(&mut self, reg: u8)
        requires
            reg < 8,
        ensures
            final(self)@ == old(self)@.execute(Instruction::Dcr(reg)),
    {
        self.decrement(reg);
        self.advance(1);
    }

    /// Loads the operand with the byte that follows the opcode.
    fn mvi(&mut self, reg: u8)
        requires
            reg < 8,
        ensures
            final(self)@ == old(self)@.execute(Instruction::Mvi(reg)),
    {
        let data = self.fetch8();
        self.set_location(reg, data);
        self.advance(2);
    }

    /// Adds the pair to HL.
    fn dad(&mut self, rp: u8)
        requires
            rp < 4,
        ensures
            final(self)@ == old(self)@.execute(Instruction::Dad(rp)),
    {
        self.double_add(rp);
        self.advance(1);
    }

    /// Loads A from the address in BC or DE.
    fn ldax(&mut self, rp: u8)
        requires
            rp < 2,
        ensures
            final(self)@ == old(self)@.execute(Instruction::Ldax(rp)),
    {
        self.registers.a = self.memory.get_u8(self.get_pair(rp));
        self.advance(1);
    }

    /// Loads L, then H, from the address that follows the opcode.
    fn lhld(&mut self)
        ensures
            final(self)@ == old(self)@.execute(Instruction::Lhld),
    {
        let addr = self.fetch16();
        let (l, h) = self.memory.get_u8_u8(addr);
        self.registers.l = l;
        self.registers.h = h;
        self.advance(3);
    }

    /// Loads A from the address that follows the opcode.
    fn lda(&mut self)
        ensures
            final(self)@ == old(self)@.execute(Instruction::Lda),
    {
        let addr = self.fetch16();
        self.registers.a = self.memory.get_u8(addr);
        self.advance(3);
    }

    /// Takes one from the pair, wrapping at 2^16.
    fn dcx(&mut self, rp: u8)
        requires
            rp < 4,
        ensures
            final(self)@ == old(self)@.execute(Instruction::Dcx(rp)),
    {
        let value = self.get_pair(rp);
        proof {
            lemma_wrapping(0, 0, value, 1);
        }
        self.set_pair(rp, value.wrapping_sub(1));
        self.advance(1);
    }

    /// Adjusts A to two decimal digits.
    fn daa(&mut self)
        ensures
            final(self)@ == old(self)@.execute(Instruction::Daa),
    {
        self.decimal_adjust();
        self.advance(1);
    }

    /// Complements A.
    fn cma(&mut self)
        ensures
            final(self)@ == old(self)@.execute(Instruction::Cma),
    {
        proof {
            lemma_rotations(self.registers.a);
        }
        self.registers.a = !self.registers.a;
        self.advance(1);
    }

    /// Sets the carry.
    fn stc(&mut self)
        ensures
            final(self)@ == old(self)@.execute(Instruction::Stc),
    {
        self.registers.flag_c = true;
        self.advance(1);
    }

    /// Complements the carry.
    fn cmc(&mut self)
        ensures
            final(self)@ == old(self)@.execute(Instruction::Cmc),
    {
        self.registers.flag_c = !self.registers.flag_c;
        self.advance(1);
    }

    /// Sets the halt latch. PC stays.
    fn hlt(&mut self)
        ensures
            final(self)@ == old(self)@.execute(Instruction::Hlt),
    {
        self.halted = true;
    }

    /// Copies the operand `src` into the operand `dst`.
    fn mov(&mut self, dst: u8, src: u8)
        requires
            dst < 8,
            src < 8,
        ensures
            final(self)@ == old(self)@.execute(Instruction::Mov(dst, src)),
    {
        let value = self.get_location(src);
        self.set_location(dst, value);
        self.advance(1);
    }

    /// Applies the operation to A and the operand.
    fn alu_register(&mut self, operation: u8, reg: u8)
        requires
            operation < 8,
            reg < 8,
        ensures
            final(self)@ == old(self)@.execute(Instruction::Alu(operation, reg)),
    {
        let operand = self.get_location(reg);
        self.alu(operation, operand);
        self.advance(1);
    }

    /// Returns if the condition holds.
    fn rcc(&mut self, cond: u8)
        requires
            cond < 8,
        ensures
            final(self)@ == old(self)@.execute(Instruction::Rcc(cond)),
    {
        if self.check_cond(cond) {
            self.ret();
        } else {
            self.advance(1);
        }
    }

    /// Pops the pair from the stack.
    fn pop_pair(&mut self, rp: u8)
        requires
            rp < 4,
        ensures
            final(self)@ == old(self)@.execute(Instruction::Pop(rp)),
    {
        let data16 = self.memory.get_u16(self.registers.sp);
        self.set_pair_flags(rp, data16);
        add16(&mut self.registers.sp, 2);
        self.advance(1);
    }

    /// Jumps to the address that follows the opcode if the condition holds.
    fn jcc(&mut self, cond: u8)
        requires
            cond < 8,
        ensures
            final(self)@ == old(self)@.execute(Instruction::Jcc(cond)),
    {
        if self.check_cond(cond) {
            self.registers.pc = self.fetch16();
        } else {
            self.advance(3);
        }
    }

    /// Calls the address that follows the opcode if the condition holds.
    fn ccc(&mut self, cond: u8)
        requires
            cond < 8,
        ensures
            final(self)@ == old(self)@.execute(Instruction::Ccc(cond)),
    {
        if self.check_cond(cond) {
            self.call();
        } else {
            self.advance(3);
        }
    }

    /// Pushes the pair on the stack.
    fn push_pair(&mut self, rp: u8)
        requires
            rp < 4,
        ensures
            final(self)@ == old(self)@.execute(Instruction::Push(rp)),
    {
        let data16 = self.get_pair_flags(rp);
        self.push(data16);
        self.advance(1);
    }

    /// Applies the operation to A and the byte that follows the opcode.
    fn alu_immediate(&mut self, operation: u8)
        requires
            operation < 8,
        ensures
            final(self)@ == old(self)@.execute(Instruction::AluImm(operation)),
    {
        let operand = self.fetch8();
        self.alu(operation, operand);
        self.advance(2);
    }

    /// Calls the address 8 * `n`.
    fn rst(&mut self, n: u8)
        requires
            n < 8,
        ensures
            final(self)@ == old(self)@.execute(Instruction::Rst(n)),
    {
        proof {
            lemma_wrapping(0, 0, self.registers.pc, 1);
        }
        self.push(self.registers.pc.wrapping_add(1));
        self.registers.pc = (n as u16) * 8;
    }

    /// Jumps to the address that follows the opcode.
    fn jmp(&mut self)
        ensures
            final(self)@ == old(self)@.execute(Instruction::Jmp),
    {
        self.registers.pc = self.fetch16();
    }



    /// Sends A to the port whose number follows the opcode.
    fn output(&mut self)
        ensures
            final(self)@ == old(self)@.execute(Instruction::Out),
    {
        let port = self.fetch8();
        self.out(port, self.registers.a);
        self.advance(2);
    }

    /// Loads A from the port whose number follows the opcode.
    fn input(&mut self)
        ensures
            final(self)@ == old(self)@.execute(Instruction::In),
    {
        let port = self.fetch8();
        self.registers.a = self.inp(port);
        self.advance(2);
    }

    /// Exchanges HL with the word on top of the stack.
    fn xthl(&mut self)
        ensures
            final(self)@ == old(self)@.execute(Instruction::Xthl),
    {
        self.exchange_with_top();
        self.advance(1);
    }

    /// Jumps to the address in HL.
    fn pchl(&mut self)
        ensures
            final(self)@ == old(self)@.execute(Instruction::Pchl),
    {
        self.registers.pc = self.registers.hl();
    }

    /// Exchanges HL and DE.
    fn xchg(&mut self)
        ensures
            final(self)@ == old(self)@.execute(Instruction::Xchg),
    {
        let (h, l) = (self.registers.h, self.registers.l);
        self.registers.h = self.registers.d;
        self.registers.l = self.registers.e;
        self.registers.d = h;
        self.registers.e = l;
        self.advance(1);
    }

    /// Disables interrupts.
    fn di(&mut self)
        ensures
            final(self)@ == old(self)@.execute(Instruction::Di),
    {
        self.advance(1);
        self.interruption_enabled = false;
    }

    /// Enables interrupts.
    fn ei(&mut self)
        ensures
            final(self)@ == old(self)@.execute(Instruction::Ei),
    {
        self.advance(1);
        self.interruption_enabled = true;
    }

    /// Loads SP from HL.
    fn sphl(&mut self)
        ensures
            final(self)@ == old(self)@.execute(Instruction::Sphl),
    {
        self.registers.sp = self.registers.hl();
        self.advance(1);
    }

    /// The byte that follows the opcode at PC.
    fn fetch8(&self) -> (value: u8)
        ensures
            value == self@.immediate8(),
    {
        proof {
            lemma_wrapping(0, 0, self.registers.pc, 1);
        }
        self.memory.get_u8(self.registers.pc.wrapping_add(1))
    }

    /// The little-endian word that follows the opcode at PC.
    fn fetch16(&self) -> (value: u16)
        ensures
            value == self@.immediate16(),
    {
        proof {
            lemma_wrapping(0, 0, self.registers.pc, 1);
        }
        self.memory.get_u16(self.registers.pc.wrapping_add(1))
    }

    /// Moves PC `n` bytes on.
    fn advance(&mut self, n: u16)
        ensures
            final(self)@ == old(self)@.advance(n as int),
    {
        add16(&mut self.registers.pc, n);
    }

    /// Adds one to the operand with the number `reg`, and sets S, Z, AC and
    /// P.
    fn increment(&mut self, reg: u8)
        requires
            reg < 8,
        ensures
            final(self)@ == old(self)@.incremented(reg),
    {
        let value = self.get_location(reg);
        self.set_location(reg, value.wrapping_add(1));
        self.registers.flag_ac = value % 16 + 1 > 0x0F;
        let value = self.get_location(reg);
        self.set_flags(value);
    }

    /// Takes one from the operand with the number `reg`, and sets S, Z, AC
    /// and P.
    fn decrement(&mut self, reg: u8)
        requires
            reg < 8,
        ensures
            final(self)@ == old(self)@.decremented(reg),
    {
        let value = self.get_location(reg);
        self.set_location(reg, value.wrapping_sub(1));
        self.registers.flag_ac = value % 16 + 0x0F <= 0x0F;
        let value = self.get_location(reg);
        self.set_flags(value);
    }

    /// Rotates A by one bit, as the one of the four rotate instructions that
    /// `instruction` is says.
    fn rotate(&mut self, instruction: Instruction)
        requires
            instruction == Instruction::Rlc || instruction == Instruction::Rrc || instruction
                == Instruction::Ral || instruction == Instruction::Rar,
        ensures
            final(self)@ == old(self)@.with_registers(
                match instruction {
                    Instruction::Rlc => old(self).registers.rotated_left(),
                    Instruction::Rrc => old(self).registers.rotated_right(),
                    Instruction::Ral => old(self).registers.rotated_left_through_carry(),
                    _ => old(self).registers.rotated_right_through_carry(),
                },
            ),
    {
        proof {
            lemma_rotations(self.registers.a);
        }
        let a = self.registers.a;
        let c = self.registers.flag_c;
        match instruction {
            Instruction::Rlc => {
                self.registers.flag_c = (a & 0x80) != 0;
                self.registers.a = (a << 1) | (a >> 7);
            },
            Instruction::Rrc => {
                self.registers.flag_c = (a & 1) != 0;
                self.registers.a = (a >> 1) | (a << 7);
            },
            Instruction::Ral => {
                self.registers.flag_c = (a & 0x80) != 0;
                self.registers.a = if c { (a << 1) | 1 } else { a << 1 };
            },
            _ => {
                self.registers.flag_c = (a & 1) != 0;
                self.registers.a = if c { (a >> 1) | 0x80 } else { a >> 1 };
            },
        }
    }

    /// Adds the pair with the number `rp` to HL, and sets C.
    fn double_add(&mut self, rp: u8)
        requires
            rp < 4,
        ensures
            final(self)@ == old(self)@.with_registers(old(self).registers.double_added(rp)),
    {
        let operand = self.get_pair(rp);
        let hl = from_pair(self.registers.h, self.registers.l);
        let value = hl.wrapping_add(operand);
        let (h, l) = to_pair(value);
        self.registers.flag_c = value < hl;
        self.registers.h = h;
        self.registers.l = l;
    }

    /// Adjusts A to two decimal digits, and sets all five flags.
    fn decimal_adjust(&mut self)
        ensures
            final(self)@ == old(self)@.with_registers(old(self).registers.decimal_adjusted()),
    {
        if self.registers.a % 16 > 9 || self.registers.flag_ac {
            let a = self.registers.a;
            proof {
                lemma_wrapping(a, 0x06, 0, 0);
            }
            self.registers.flag_ac = a % 16 + 0x06 > 0x0F;
            self.registers.flag_c = a > 0xFF - 0x06;
            self.registers.a = a.wrapping_add(0x06);
        }
        if self.registers.a / 16 > 9 || self.registers.flag_c {
            let a = self.registers.a;
            proof {
                lemma_wrapping(a, 0x60, 0, 0);
            }
            if a > 0xFF - 0x60 {
                self.registers.flag_c = true;
            }
            self.registers.a = a.wrapping_add(0x60);
        }
        self.set_a_flags();
    }

    /// Exchanges L with the byte at SP, then H with the byte after it.
    fn exchange_with_top(&mut self)
        ensures
            final(self)@ == old(self)@.exchanged_with_top(),
    {
        proof {
            lemma_wrapping(0, 0, self.registers.sp, 1);
        }
        self.memory.swap(self.registers.sp, &mut self.registers.l);
        self.memory.swap(self.registers.sp.wrapping_add(1), &mut self.registers.h);
    }

    /// Moves SP down by two and writes `value` there.
    fn push(&mut self, value: u16)
        ensures
            final(self)@ == old(self)@.push_word(value),
    {
        sub16(&mut self.registers.sp, 2);
        self.memory.set_u16(self.registers.sp, value);
    }

    /// Sets PC to the word at SP and moves SP up by two.
    fn ret(&mut self)
        ensures
            final(self)@ == old(self)@.ret(),
    {
        self.registers.pc = self.memory.get_u16(self.registers.sp);
        add16(&mut self.registers.sp, 2);
    }

    /// Pushes the address of the instruction after the three-byte one at PC,
    /// then jumps to the address that follows the opcode.
    fn call(&mut self)
        ensures
            final(self)@ == old(self)@.call(crate::arith::wrap16(old(self).registers.pc + 3)),
    {
        proof {
            lemma_wrapping(0, 0, self.registers.pc, 3);
        }
        self.push(self.registers.pc.wrapping_add(3));
        self.registers.pc = self.fetch16();
    }

    /// Applies the operation with the number `operation` to A and `operand`.
    fn alu(&mut self, operation: u8, operand: u8)
        requires
            operation < 8,
        ensures
            final(self)@ == old(self)@.with_registers(old(self).registers.alu(operation, operand)),
    {
        if operation == 0 {
            self.add(operand, false);
        } else if operation == 1 {
            self.add(operand, self.registers.flag_c);
        } else if operation == 2 {
            self.sub(operand, false);
        } else if operation == 3 {
            self.sub(operand, self.registers.flag_c);
        } else if operation == 4 {
            self.registers.a &= operand;
            self.registers.flag_c = false;
            self.set_a_flags();
        } else if operation == 5 {
            self.registers.a ^= operand;
            self.registers.flag_c = false;
            self.registers.flag_ac = false;
            self.set_a_flags();
        } else if operation == 6 {
            self.registers.a |= operand;
            self.registers.flag_c = false;
            self.set_a_flags();
        } else {
            let a = self.registers.a;
            self.sub(operand, false);
            self.registers.a = a;
        }
    }

    /// Sets S, Z and P from `register`.
    fn set_flags(&mut self, register: u8)
        ensures
            final(self)@ == old(self)@.with_registers(
                old(self).registers.with_result_flags(register),
            ),
    {
        self.registers.flag_s = register >= 0b_1000_0000;
        self.registers.flag_z = register == 0;
        self.registers.flag_p = parity(register);
    }

    /// Sets S, Z and P from A.
    fn set_a_flags(&mut self)
        ensures
            final(self)@ == old(self)@.with_registers(
                old(self).registers.with_result_flags(old(self).registers.a),
            ),
    {
        self.set_flags(self.registers.a);
    }

    /// Adds `operand`, and one more if `carry`, to A.
    fn add(&mut self, operand: u8, carry: bool)
        ensures
            final(self)@ == old(self)@.with_registers(old(self).registers.added(operand, carry)),
    {
        let carry_in: u16 = if carry { 1 } else { 0 };
        let accumulator = self.registers.a;
        let (o, a) = to_pair((accumulator as u16) + (operand as u16) + carry_in);
        proof {
            lemma_sum_of_bytes(accumulator, operand, carry);
        }
        self.registers.a = a;
        self.registers.flag_c = o > 0;
        self.registers.flag_ac = (accumulator % 16) as u16 + (operand % 16) as u16 + carry_in
            > 0x0F;
        self.set_a_flags();
    }

    /// Subtracts `operand`, and one more if `carry`, from A.
    fn sub(&mut self, operand: u8, carry: bool)
        ensures
            final(self)@ == old(self)@.with_registers(
                old(self).registers.subtracted(operand, carry),
            ),
    {
        let carry_in: u8 = if carry { 1 } else { 0 };
        let borrowed = operand.wrapping_add(carry_in);
        let complement = neg(borrowed);
        let accumulator = self.registers.a;
        let (o, a) = to_pair((accumulator as u16) + (complement as u16));
        proof {
            lemma_wrapping(operand, carry_in, 0, 0);
            lemma_sum_of_bytes(accumulator, complement, false);
        }
        self.registers.a = a;
        self.registers.flag_c = o == 0;
        self.registers.flag_ac = a % 16 + complement % 16 <= 0x0F;
        self.set_a_flags();
    }

    /// The operand with the number `reg`.
    fn get_location(&self, reg: u8) -> (value: u8)
        requires
            reg < 8,
        ensures
            value == self@.location(reg),
    {
        if reg == 0 {
            self.registers.b
        } else if reg == 1 {
            self.registers.c
        } else if reg == 2 {
            self.registers.d
        } else if reg == 3 {
            self.registers.e
        } else if reg == 4 {
            self.registers.h
        } else if reg == 5 {
            self.registers.l
        } else if reg == 6 {
            self.memory.get_u8(self.registers.hl())
        } else {
            self.registers.a
        }
    }

    /// Puts `value` in the operand with the number `reg`.
    fn set_location(&mut self, reg: u8, value: u8)
        requires
            reg < 8,
        ensures
            final(self)@ == old(self)@.with_location(reg, value),
    {
        if reg == 0 {
            self.registers.b = value;
        } else if reg == 1 {
            self.registers.c = value;
        } else if reg == 2 {
            self.registers.d = value;
        } else if reg == 3 {
            self.registers.e = value;
        } else if reg == 4 {
            self.registers.h = value;
        } else if reg == 5 {
            self.registers.l = value;
        } else if reg == 6 {
            self.memory.set_u8(self.registers.hl(), value);
        } else {
            self.registers.a = value;
        }
    }

    /// The register pair with the number `rp`: BC, DE, HL or SP.
    fn get_pair(&self, rp: u8) -> (value: u16)
        requires
            rp < 4,
        ensures
            value == self.registers.pair(rp),
    {
        if rp == 0 {
            from_pair(self.registers.b, self.registers.c)
        } else if rp == 1 {
            from_pair(self.registers.d, self.registers.e)
        } else if rp == 2 {
            from_pair(self.registers.h, self.registers.l)
        } else {
            self.registers.sp
        }
    }

    /// Puts `data16` in the register pair with the number `rp`.
    fn set_pair(&mut self, rp: u8, data16: u16)
        requires
            rp < 4,
        ensures
            final(self)@ == old(self)@.with_registers(old(self).registers.with_pair(rp, data16)),
    {
        let (h, l) = to_pair(data16);
        if rp == 0 {
            self.registers.b = h;
            self.registers.c = l;
        } else if rp == 1 {
            self.registers.d = h;
            self.registers.e = l;
        } else if rp == 2 {
            self.registers.h = h;
            self.registers.l = l;
        } else {
            self.registers.sp = data16;
        }
    }

    /// The pair with the number `rp` as it goes on the stack: BC, DE, HL, or
    /// the flags byte above A.
    fn get_pair_flags(&self, rp: u8) -> (value: u16)
        requires
            rp < 4,
        ensures
            value == self.registers.stack_pair(rp),
    {
        if rp == 0 {
            from_pair(self.registers.b, self.registers.c)
        } else if rp == 1 {
            from_pair(self.registers.d, self.registers.e)
        } else if rp == 2 {
            from_pair(self.registers.h, self.registers.l)
        } else {
            from_pair(self.registers.get_flags_byte(), self.registers.a)
        }
    }

    /// Puts `data16`, as it comes off the stack, in the pair with the number
    /// `rp`.
    fn set_pair_flags(&mut self, rp: u8, data16: u16)
        requires
            rp < 4,
        ensures
            final(self)@ == old(self)@.with_registers(
                old(self).registers.with_stack_pair(rp, data16),
            ),
    {
        let (h, l) = to_pair(data16);
        if rp == 0 {
            self.registers.b = h;
            self.registers.c = l;
        } else if rp == 1 {
            self.registers.d = h;
            self.registers.e = l;
        } else if rp == 2 {
            self.registers.h = h;
            self.registers.l = l;
        } else {
            self.registers.set_flags_byte(h);
            self.registers.a = l;
        }
    }

    /// Whether the condition with the number `cond` holds.
    fn check_cond(&self, cond: u8) -> (holds: bool)
        requires
            cond < 8,
        ensures
            holds == self.registers.condition(cond),
    {
        if cond == 0 {
            !self.registers.flag_z
        } else if cond == 1 {
            self.registers.flag_z
        } else if cond == 2 {
            !self.registers.flag_c
        } else if cond == 3 {
            self.registers.flag_c
        } else if cond == 4 {
            !self.registers.flag_p
        } else if cond == 5 {
            self.registers.flag_p
        } else if cond == 6 {
            !self.registers.flag_s
        } else {
            self.registers.flag_s
        }
    }

    /// What the machine does with a byte that a program sends to a port:
    /// nothing.
    pub fn out(&self, port: u8, data: u8) {
    }

    /// The byte that a program receives from a port: 0 from every port.
    pub fn inp(&self, port: u8) -> (data: u8)
        ensures
            data == 0,
    {
        0
    }
}

} // verus!
