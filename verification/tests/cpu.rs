use rs580::arith::{add16, from_pair, neg, sub16, to_pair};
use rs580::cpu::Registers;
use rs580::decode::{bits, mask, ops, ops2, OpMask};
use rs580::{Machine, Memory, SegmentedMemory, RAM, ROM};

fn machine_with(program: &[u8]) -> Machine {
    let mut m: Machine = Machine::new(Box::new(RAM::default()));
    m.memory.set_range(0, program);
    m
}

#[test]
fn test_neg() {
    assert_eq!(neg(0), 0);
    assert_eq!(neg(1), 0xFF);
    assert_eq!(neg(127), 0x81);
    assert_eq!(neg(128), 128);
}

#[test]
fn test_mask() {
    let e: OpMask = ('0', '1', 'X', 'X', 'X', '1', '0', '0');
    let mask_value: u8 = mask(e);
    assert_eq!(mask_value, 0b_11_000_111);
    let mask1: u8 = bits(e, '1');
    assert_eq!(mask1, 0b_01_000_100);
    let shift: u8 = bits(e, 'X');
    assert_eq!(shift, 0b_00_111_000);

    assert_eq!(
        ops(0b01_010_100, ('0', '1', 'X', 'X', 'X', '1', '0', '0')),
        Some(0b_010)
    );

    assert_eq!(
        ops(0b01_010_101, ('0', '1', 'X', 'X', 'X', '1', '0', '0')),
        None
    );
}

#[test]
fn test_opcodes_implemented() {
    let mut m: Machine = Machine::new(Box::new(RAM::default()));
    for i in 0..=255 {
        match i {
            0x08 | 0x10 | 0x18 | 0x20 | 0x28 | 0x30 | 0x38 | 0xCB | 0xD9 | 0xDD | 0xED | 0xFD => continue,
            _ => {}
        }
        for a in &[0xFFFC, 0xFFFD, 0xFFFE, 0xFFFF, 0x0000, 0x0001, 0x0002, 0x0003] {
            println!("Try instruction {:02x} at {:04x}.", i, a);
            m.memory.set_u8(*a, i);
            m.registers.pc = *a;
            m.step();
        }
    }
}

#[test]
fn test_daa() {
    let mut m: Machine = Machine::new(Box::new(RAM::default()));
    m.memory.set_u8(0, 0x27);
    m.reset();
    m.registers.a = 0x9B;
    m.registers.flag_c = false;
    m.registers.flag_ac = false;
    m.step();
    assert_eq!(m.registers.a, 1);
    assert!(m.registers.flag_c);
    assert!(m.registers.flag_ac);
}

#[test]
fn it_works() {
    let mut m: Machine = Machine::new(Box::new(RAM::default()));
    m.reset();
    assert_eq!(2 + 2, 4);
}

#[test]
fn every_byte_runs_from_a_fresh_machine() {
    for i in 0..=255u8 {
        for a in &[0xFFFCu16, 0xFFFD, 0xFFFE, 0xFFFF, 0x0000, 0x0001, 0x0002, 0x0003] {
            let mut m: Machine = Machine::new(Box::new(RAM::default()));
            m.memory.set_u8(*a, i);
            m.registers.pc = *a;
            m.step();
        }
    }
}

#[test]
fn every_byte_runs_on_an_empty_bus() {
    for i in 0..=255u8 {
        let mut m: Machine = Machine::new(Box::new(SegmentedMemory::new().add(
            0,
            1,
            Box::new(ROM::new(&[i])),
        )));
        m.step();
    }
}

#[test]
fn undocumented_opcodes_do_nothing() {
    for opcode in [0x08u8, 0x10, 0x18, 0x20, 0x28, 0x30, 0x38, 0xCB, 0xD9, 0xDD, 0xED, 0xFD] {
        let mut m = machine_with(&[0, 0, 0, 0]);
        m.memory.set_u8(0x100, opcode);
        m.registers.pc = 0x100;
        m.registers.sp = 0x8000;
        m.registers.a = 0x5A;
        m.step();
        let expected = Registers { a: 0x5A, pc: 0x101, sp: 0x8000, ..Registers::default() };
        assert_eq!(m.registers, expected);
        assert!(!m.halted);
        assert!(m.interruption_enabled);
    }
}

#[test]
fn new_machine_is_zeroed() {
    let m = Machine::new(Box::new(RAM::default()));
    assert_eq!(m.registers, Registers::default());
    assert_eq!(m.registers.pc, 0);
    assert_eq!(m.registers.sp, 0);
    assert_eq!(m.registers.get_flags_byte(), 0);
    assert!(!m.halted);
    assert!(m.interruption_enabled);
}

#[test]
fn new_machine_keeps_its_memory() {
    let mut ram = RAM::default();
    ram.set_u8(0x1234, 0x56);
    let m = Machine::new(Box::new(ram));
    assert_eq!(m.memory.get_u8(0x1234), 0x56);
}

#[test]
fn reset_clears_pc_only() {
    let mut m = machine_with(&[0x76]);
    m.registers.sp = 0x1234;
    m.registers.a = 7;
    m.step();
    assert!(m.halted);
    m.registers.pc = 0x4000;
    m.reset();
    assert_eq!(m.registers.pc, 0);
    assert_eq!(m.registers.sp, 0x1234);
    assert_eq!(m.registers.a, 7);
    assert!(m.halted);
}

#[test]
fn nop_wraps_pc() {
    let mut m = machine_with(&[]);
    m.memory.set_u8(0xFFFF, 0x00);
    m.registers.a = 0;
    m.registers.pc = 0xFFFF;
    m.step();
    assert_eq!(m.registers.pc, 0x0000);
    assert_eq!(m.registers.a, 0);
}

#[test]
fn mvi_then_adi() {
    let mut m = machine_with(&[0x3E, 0x05, 0xC6, 0x03]);
    m.step();
    m.step();
    assert_eq!(m.registers.a, 8);
    assert_eq!(m.registers.pc, 4);
    assert!(!m.registers.flag_z);
    assert!(!m.registers.flag_s);
    assert!(!m.registers.flag_p);
    assert!(!m.registers.flag_c);
}

#[test]
fn sui_sets_the_borrow() {
    let mut m = machine_with(&[0xD6, 0x01]);
    m.registers.a = 0x00;
    m.registers.flag_c = false;
    m.step();
    assert_eq!(m.registers.a, 0xFF);
    assert!(m.registers.flag_c);
    assert!(m.registers.flag_s);
    assert!(!m.registers.flag_z);
    assert!(!m.registers.flag_ac);
    assert!(m.registers.flag_p);
    assert_eq!(m.registers.pc, 2);
}

#[test]
fn call_then_ret_then_halt() {
    let mut m = machine_with(&[0xCD, 0x06, 0x00, 0x76, 0x00, 0x00, 0xC9]);
    m.registers.sp = 0xFFFE;
    m.step();
    assert_eq!(m.registers.pc, 6);
    assert_eq!(m.registers.sp, 0xFFFC);
    assert_eq!(m.memory.get_u16(0xFFFC), 3);
    m.step();
    assert_eq!(m.registers.pc, 3);
    assert_eq!(m.registers.sp, 0xFFFE);
    m.step();
    assert_eq!(m.registers.pc, 3);
    assert!(m.halted);
    assert_eq!(m.registers.sp, 0xFFFE);
}

#[test]
fn halt_keeps_pc_and_runs_again() {
    let mut m = machine_with(&[0x76]);
    m.step();
    assert!(m.halted);
    assert_eq!(m.registers.pc, 0);
    m.halted = false;
    m.step();
    assert!(m.halted);
    assert_eq!(m.registers.pc, 0);
}

#[test]
fn step_does_not_look_at_the_halt_latch() {
    let mut m = machine_with(&[0x3E, 0x07]);
    m.halted = true;
    m.step();
    assert_eq!(m.registers.a, 7);
    assert_eq!(m.registers.pc, 2);
    assert!(m.halted);
}

#[test]
fn push_then_pop_restores_each_pair() {
    for rp in 0..4u8 {
        let mut m = machine_with(&[0xC5 | (rp << 4), 0xC1 | (rp << 4)]);
        m.registers = Registers {
            a: 0x12,
            flag_s: true,
            flag_z: false,
            flag_ac: true,
            flag_p: false,
            flag_c: true,
            b: 0x34,
            c: 0x56,
            d: 0x78,
            e: 0x9A,
            h: 0xBC,
            l: 0xDE,
            pc: 0,
            sp: 0x4000,
        };
        let before = m.registers;
        m.step();
        assert_eq!(m.registers.sp, 0x3FFE);
        m.step();
        assert_eq!(m.registers, Registers { pc: 2, ..before });
    }
}

#[test]
fn push_psw_puts_the_flags_above_a() {
    let mut m = machine_with(&[0xF5]);
    m.registers.a = 0x12;
    m.registers.flag_s = true;
    m.registers.flag_z = true;
    m.registers.flag_ac = true;
    m.registers.flag_p = true;
    m.registers.flag_c = true;
    m.registers.sp = 0x4000;
    m.step();
    assert_eq!(m.registers.sp, 0x3FFE);
    assert_eq!(m.memory.get_u8(0x3FFE), 0x12);
    assert_eq!(m.memory.get_u8(0x3FFF), 0xD5);
    assert_eq!(m.registers.pc, 1);
}

#[test]
fn pop_psw_takes_the_five_flag_bits() {
    let mut m = machine_with(&[0xF1, 0xF1]);
    m.registers.sp = 0x4000;
    m.memory.set_u16(0x4000, 0xFF34);
    m.memory.set_u16(0x4002, 0x2A00);
    m.step();
    assert_eq!(m.registers.a, 0x34);
    assert_eq!(m.registers.get_flags_byte(), 0xD5);
    assert_eq!(m.registers.sp, 0x4002);
    m.step();
    assert_eq!(m.registers.a, 0x00);
    assert_eq!(m.registers.get_flags_byte(), 0x00);
    assert_eq!(m.registers.sp, 0x4004);
}

#[test]
fn push_wraps_sp_below_zero() {
    let mut m = machine_with(&[0xC5]);
    m.registers.b = 0xAB;
    m.registers.c = 0xCD;
    m.registers.sp = 0x0001;
    m.step();
    assert_eq!(m.registers.sp, 0xFFFF);
    assert_eq!(m.memory.get_u8(0xFFFF), 0xCD);
    assert_eq!(m.memory.get_u8(0x0000), 0xAB);
}

#[test]
fn xchg_twice_restores_both_pairs() {
    let mut m = machine_with(&[0xEB, 0xEB]);
    m.registers.d = 1;
    m.registers.e = 2;
    m.registers.h = 3;
    m.registers.l = 4;
    let before = m.registers;
    m.step();
    assert_eq!((m.registers.d, m.registers.e, m.registers.h, m.registers.l), (3, 4, 1, 2));
    m.step();
    assert_eq!(m.registers, Registers { pc: 2, ..before });
}

#[test]
fn flags_byte_has_each_flag_at_its_bit() {
    let mut r = Registers::default();
    assert_eq!(r.get_flags_byte(), 0x00);
    r.flag_s = true;
    assert_eq!(r.get_flags_byte(), 0x80);
    r.flag_z = true;
    assert_eq!(r.get_flags_byte(), 0xC0);
    r.flag_ac = true;
    assert_eq!(r.get_flags_byte(), 0xD0);
    r.flag_p = true;
    assert_eq!(r.get_flags_byte(), 0xD4);
    r.flag_c = true;
    assert_eq!(r.get_flags_byte(), 0xD5);
}

#[test]
fn flags_byte_round_trips_on_the_defined_bits() {
    for byte in 0..=255u8 {
        let mut r = Registers::default();
        r.a = 0x33;
        r.set_flags_byte(byte);
        assert_eq!(r.get_flags_byte(), byte & 0xD5);
        assert_eq!(r.flag_s, byte & 0x80 != 0);
        assert_eq!(r.flag_z, byte & 0x40 != 0);
        assert_eq!(r.flag_ac, byte & 0x10 != 0);
        assert_eq!(r.flag_p, byte & 0x04 != 0);
        assert_eq!(r.flag_c, byte & 0x01 != 0);
        assert_eq!(r.a, 0x33);
        let packed = r.get_flags_byte();
        let mut again = Registers::default();
        again.a = 0x33;
        again.set_flags_byte(packed);
        assert_eq!(again, r);
    }
}

#[test]
fn hl_joins_h_and_l() {
    let mut r = Registers::default();
    r.h = 0x12;
    r.l = 0x34;
    assert_eq!(r.hl(), 0x1234);
}

#[test]
fn pairs_join_and_split() {
    assert_eq!(from_pair(0x12, 0x34), 0x1234);
    assert_eq!(to_pair(0x1234), (0x12, 0x34));
    assert_eq!(from_pair(0xFF, 0x00), 0xFF00);
    assert_eq!(to_pair(0x00FF), (0x00, 0xFF));
}

#[test]
fn neg_cancels_every_byte() {
    for v in 0..=255u8 {
        assert_eq!(neg(v).wrapping_add(v), 0);
    }
}

#[test]
fn add16_and_sub16_wrap() {
    let mut x = 0xFFFFu16;
    add16(&mut x, 1);
    assert_eq!(x, 0);
    add16(&mut x, 3);
    assert_eq!(x, 3);
    sub16(&mut x, 4);
    assert_eq!(x, 0xFFFF);
    sub16(&mut x, 0xFFFF);
    assert_eq!(x, 0);
}

#[test]
fn patterns_without_a_field_give_zero() {
    assert_eq!(ops(0x76, ('0', '1', '1', '1', '0', '1', '1', '0')), Some(0));
    assert_eq!(ops(0x77, ('0', '1', '1', '1', '0', '1', '1', '0')), None);
}

#[test]
fn patterns_with_two_fields() {
    assert_eq!(ops2(0b01_010_101, ('0', '1', 'X', 'X', 'X', 'Y', 'Y', 'Y')), Some((0b010, 0b101)));
    assert_eq!(ops2(0b10_111_000, ('1', '0', 'X', 'X', 'X', 'Y', 'Y', 'Y')), Some((7, 0)));
    assert_eq!(ops2(0b11_010_101, ('0', '1', 'X', 'X', 'X', 'Y', 'Y', 'Y')), None);
    assert_eq!(bits(('0', '1', 'X', 'X', 'X', 'Y', 'Y', 'Y'), 'Y'), 0b_00_000_111);
}

#[test]
fn add_sets_carry_and_half_carry() {
    let mut m = machine_with(&[0xC6, 0x01, 0xC6, 0x01, 0xC6, 0xF0]);
    m.registers.a = 0x0F;
    m.step();
    assert_eq!(m.registers.a, 0x10);
    assert!(m.registers.flag_ac);
    assert!(!m.registers.flag_c);
    assert!(!m.registers.flag_z);
    assert!(!m.registers.flag_s);
    assert!(!m.registers.flag_p);
    m.registers.a = 0xFF;
    m.step();
    assert_eq!(m.registers.a, 0x00);
    assert!(m.registers.flag_ac);
    assert!(m.registers.flag_c);
    assert!(m.registers.flag_z);
    assert!(!m.registers.flag_s);
    assert!(m.registers.flag_p);
    m.registers.a = 0x20;
    m.step();
    assert_eq!(m.registers.a, 0x10);
    assert!(!m.registers.flag_ac);
    assert!(m.registers.flag_c);
}

#[test]
fn adc_adds_the_carry() {
    let mut m = machine_with(&[0x88, 0xCE, 0xFF]);
    m.registers.a = 0x10;
    m.registers.b = 0x01;
    m.registers.flag_c = true;
    m.step();
    assert_eq!(m.registers.a, 0x12);
    assert!(!m.registers.flag_c);
    assert!(!m.registers.flag_ac);
    assert_eq!(m.registers.pc, 1);
    m.registers.a = 0x00;
    m.registers.flag_c = true;
    m.step();
    assert_eq!(m.registers.a, 0x00);
    assert!(m.registers.flag_c);
    assert!(m.registers.flag_ac);
    assert!(m.registers.flag_z);
    assert_eq!(m.registers.pc, 3);
}

#[test]
fn sub_of_equal_bytes_gives_zero_without_borrow() {
    let mut m = machine_with(&[0xD6, 0x05]);
    m.registers.a = 0x05;
    m.step();
    assert_eq!(m.registers.a, 0x00);
    assert!(!m.registers.flag_c);
    assert!(m.registers.flag_z);
    assert!(m.registers.flag_ac);
    assert!(m.registers.flag_p);
    assert!(!m.registers.flag_s);
}

#[test]
fn sub_of_zero_carries_nothing_out() {
    let mut m = machine_with(&[0xD6, 0x00]);
    m.registers.a = 0x05;
    m.step();
    assert_eq!(m.registers.a, 0x05);
    assert!(m.registers.flag_c);
    assert!(m.registers.flag_ac);
}

#[test]
fn sbb_takes_the_borrow_too() {
    let mut m = machine_with(&[0xDE, 0x0F, 0xDE, 0xFF, 0x9A]);
    m.registers.a = 0x10;
    m.registers.flag_c = true;
    m.step();
    assert_eq!(m.registers.a, 0x00);
    assert!(!m.registers.flag_c);
    assert!(m.registers.flag_z);
    m.registers.a = 0x42;
    m.registers.flag_c = true;
    m.step();
    assert_eq!(m.registers.a, 0x42);
    assert!(m.registers.flag_c);
    m.registers.a = 0x05;
    m.registers.d = 0x03;
    m.registers.flag_c = false;
    m.step();
    assert_eq!(m.registers.a, 0x02);
    assert!(!m.registers.flag_c);
    assert_eq!(m.registers.pc, 5);
}

#[test]
fn compare_keeps_a() {
    let mut m = machine_with(&[0xFE, 0x05, 0xFE, 0x06, 0xB8]);
    m.registers.a = 0x05;
    m.step();
    assert_eq!(m.registers.a, 0x05);
    assert!(m.registers.flag_z);
    assert!(!m.registers.flag_c);
    m.step();
    assert_eq!(m.registers.a, 0x05);
    assert!(!m.registers.flag_z);
    assert!(m.registers.flag_c);
    assert!(m.registers.flag_s);
    m.registers.b = 0x04;
    m.step();
    assert_eq!(m.registers.a, 0x05);
    assert!(!m.registers.flag_z);
    assert!(!m.registers.flag_c);
    assert!(!m.registers.flag_s);
}

#[test]
fn logic_operations_clear_the_carry() {
    let mut m = machine_with(&[0xE6, 0x3C, 0xAF, 0xF6, 0x81, 0xEE, 0x01]);
    m.registers.a = 0xF0;
    m.registers.flag_c = true;
    m.registers.flag_ac = true;
    m.step();
    assert_eq!(m.registers.a, 0x30);
    assert!(!m.registers.flag_c);
    assert!(m.registers.flag_ac);
    assert!(m.registers.flag_p);
    assert!(!m.registers.flag_z);
    assert!(!m.registers.flag_s);
    m.registers.flag_c = true;
    m.step();
    assert_eq!(m.registers.a, 0x00);
    assert!(!m.registers.flag_c);
    assert!(!m.registers.flag_ac);
    assert!(m.registers.flag_z);
    assert!(m.registers.flag_p);
    m.registers.flag_c = true;
    m.registers.flag_ac = true;
    m.step();
    assert_eq!(m.registers.a, 0x81);
    assert!(!m.registers.flag_c);
    assert!(m.registers.flag_ac);
    assert!(m.registers.flag_s);
    assert!(m.registers.flag_p);
    m.registers.flag_c = true;
    m.step();
    assert_eq!(m.registers.a, 0x80);
    assert!(!m.registers.flag_c);
    assert!(!m.registers.flag_ac);
    assert!(!m.registers.flag_p);
    assert_eq!(m.registers.pc, 7);
}

#[test]
fn inr_and_dcr_leave_the_carry() {
    let mut m = machine_with(&[0x3C, 0x3C, 0x3D, 0x3D, 0x3D]);
    m.registers.a = 0x0F;
    m.registers.flag_c = true;
    m.step();
    assert_eq!(m.registers.a, 0x10);
    assert!(m.registers.flag_ac);
    assert!(m.registers.flag_c);
    m.registers.a = 0xFF;
    m.step();
    assert_eq!(m.registers.a, 0x00);
    assert!(m.registers.flag_ac);
    assert!(m.registers.flag_z);
    assert!(m.registers.flag_p);
    assert!(m.registers.flag_c);
    m.registers.a = 0x10;
    m.step();
    assert_eq!(m.registers.a, 0x0F);
    assert!(m.registers.flag_ac);
    assert!(!m.registers.flag_z);
    m.registers.a = 0x01;
    m.step();
    assert_eq!(m.registers.a, 0x00);
    assert!(!m.registers.flag_ac);
    assert!(m.registers.flag_z);
    m.step();
    assert_eq!(m.registers.a, 0xFF);
    assert!(m.registers.flag_ac);
    assert!(m.registers.flag_s);
    assert!(m.registers.flag_c);
    assert_eq!(m.registers.pc, 5);
}

#[test]
fn inr_of_memory_goes_through_hl() {
    let mut m = machine_with(&[0x34, 0x35, 0x35]);
    m.registers.h = 0x20;
    m.registers.l = 0x00;
    m.memory.set_u8(0x2000, 0x41);
    m.step();
    assert_eq!(m.memory.get_u8(0x2000), 0x42);
    assert!(m.registers.flag_p);
    m.step();
    m.step();
    assert_eq!(m.memory.get_u8(0x2000), 0x40);
    assert!(!m.registers.flag_p);
    assert_eq!(m.registers.pc, 3);
}

#[test]
fn inr_of_read_only_memory_sets_flags_from_what_is_there() {
    let bus = SegmentedMemory::new()
        .add(0x0000, 0x0001, Box::new(ROM::new(&[0x34])))
        .add(0x2000, 0x2001, Box::new(ROM::new(&[0x7F])));
    let mut m = Machine::new(Box::new(bus));
    m.registers.h = 0x20;
    m.step();
    assert_eq!(m.memory.get_u8(0x2000), 0x7F);
    assert!(m.registers.flag_ac);
    assert!(!m.registers.flag_s);
    assert!(!m.registers.flag_z);
    assert!(!m.registers.flag_p);
    assert_eq!(m.registers.pc, 1);
}

#[test]
fn rotations_move_one_bit() {
    let mut m = machine_with(&[0x07, 0x0F, 0x17, 0x1F, 0x17, 0x1F]);
    m.registers.a = 0x81;
    m.step();
    assert_eq!(m.registers.a, 0x03);
    assert!(m.registers.flag_c);
    m.registers.a = 0x01;
    m.registers.flag_c = false;
    m.step();
    assert_eq!(m.registers.a, 0x80);
    assert!(m.registers.flag_c);
    m.registers.a = 0x80;
    m.registers.flag_c = false;
    m.step();
    assert_eq!(m.registers.a, 0x00);
    assert!(m.registers.flag_c);
    m.registers.a = 0x01;
    m.registers.flag_c = true;
    m.step();
    assert_eq!(m.registers.a, 0x80);
    assert!(m.registers.flag_c);
    m.registers.a = 0x41;
    m.registers.flag_c = true;
    m.step();
    assert_eq!(m.registers.a, 0x83);
    assert!(!m.registers.flag_c);
    m.registers.a = 0x82;
    m.registers.flag_c = false;
    m.step();
    assert_eq!(m.registers.a, 0x41);
    assert!(!m.registers.flag_c);
    assert!(!m.registers.flag_z);
    assert_eq!(m.registers.pc, 6);
}

#[test]
fn daa_adjusts_each_digit() {
    let mut m = machine_with(&[0x27, 0x27, 0x27, 0x27]);
    m.registers.a = 0x0A;
    m.step();
    assert_eq!(m.registers.a, 0x10);
    assert!(m.registers.flag_ac);
    assert!(!m.registers.flag_c);
    m.registers.a = 0xA0;
    m.registers.flag_ac = false;
    m.registers.flag_c = false;
    m.step();
    assert_eq!(m.registers.a, 0x00);
    assert!(m.registers.flag_c);
    assert!(m.registers.flag_z);
    assert!(!m.registers.flag_ac);
    m.registers.a = 0x42;
    m.registers.flag_ac = false;
    m.registers.flag_c = false;
    m.registers.flag_z = true;
    m.registers.flag_s = true;
    m.registers.flag_p = false;
    m.step();
    assert_eq!(m.registers.a, 0x42);
    assert!(!m.registers.flag_c);
    assert!(!m.registers.flag_ac);
    assert!(!m.registers.flag_z);
    assert!(!m.registers.flag_s);
    assert!(m.registers.flag_p);
    m.registers.a = 0x01;
    m.registers.flag_ac = true;
    m.registers.flag_c = true;
    m.step();
    assert_eq!(m.registers.a, 0x07);
    assert!(!m.registers.flag_c);
    assert!(!m.registers.flag_ac);
    assert_eq!(m.registers.pc, 4);
}

#[test]
fn daa_second_step_keeps_a_carry_it_finds() {
    let mut m = machine_with(&[0x27, 0x27]);
    m.registers.a = 0x10;
    m.registers.flag_c = true;
    m.step();
    assert_eq!(m.registers.a, 0x70);
    assert!(m.registers.flag_c);
    assert!(!m.registers.flag_ac);
    m.registers.a = 0x9A;
    m.registers.flag_c = false;
    m.registers.flag_ac = false;
    m.step();
    assert_eq!(m.registers.a, 0x00);
    assert!(m.registers.flag_c);
    assert!(m.registers.flag_ac);
    assert!(m.registers.flag_z);
    assert!(m.registers.flag_p);
}

#[test]
fn dad_sets_the_carry_only() {
    let mut m = machine_with(&[0x09, 0x29, 0x39, 0x19]);
    m.registers.h = 0xFF;
    m.registers.l = 0xFF;
    m.registers.b = 0x00;
    m.registers.c = 0x01;
    m.registers.flag_z = true;
    m.step();
    assert_eq!(m.registers.hl(), 0x0000);
    assert!(m.registers.flag_c);
    assert!(m.registers.flag_z);
    m.registers.h = 0x12;
    m.registers.l = 0x34;
    m.step();
    assert_eq!(m.registers.hl(), 0x2468);
    assert!(!m.registers.flag_c);
    m.registers.sp = 0x1000;
    m.step();
    assert_eq!(m.registers.hl(), 0x3468);
    m.registers.d = 0xF0;
    m.registers.e = 0x00;
    m.step();
    assert_eq!(m.registers.hl(), 0x2468);
    assert!(m.registers.flag_c);
    assert_eq!(m.registers.pc, 4);
}

#[test]
fn inx_and_dcx_wrap() {
    let mut m = machine_with(&[0x03, 0x0B, 0x0B, 0x33, 0x3B, 0x23, 0x13]);
    m.registers.b = 0xFF;
    m.registers.c = 0xFF;
    m.registers.flag_z = false;
    m.step();
    assert_eq!((m.registers.b, m.registers.c), (0, 0));
    assert!(!m.registers.flag_z);
    assert!(!m.registers.flag_c);
    m.step();
    assert_eq!((m.registers.b, m.registers.c), (0xFF, 0xFF));
    m.step();
    assert_eq!((m.registers.b, m.registers.c), (0xFF, 0xFE));
    m.registers.sp = 0xFFFF;
    m.step();
    assert_eq!(m.registers.sp, 0);
    m.step();
    assert_eq!(m.registers.sp, 0xFFFF);
    m.registers.h = 0x00;
    m.registers.l = 0xFF;
    m.step();
    assert_eq!(m.registers.hl(), 0x0100);
    m.step();
    assert_eq!((m.registers.d, m.registers.e), (0, 1));
    assert_eq!(m.registers.pc, 7);
}

#[test]
fn lxi_loads_each_pair() {
    let mut m = machine_with(&[
        0x01, 0x34, 0x12, 0x11, 0x78, 0x56, 0x21, 0xBC, 0x9A, 0x31, 0xF0, 0xDE,
    ]);
    m.step();
    m.step();
    m.step();
    m.step();
    assert_eq!((m.registers.b, m.registers.c), (0x12, 0x34));
    assert_eq!((m.registers.d, m.registers.e), (0x56, 0x78));
    assert_eq!((m.registers.h, m.registers.l), (0x9A, 0xBC));
    assert_eq!(m.registers.sp, 0xDEF0);
    assert_eq!(m.registers.pc, 12);
}

#[test]
fn loads_and_stores_of_a() {
    let mut m = machine_with(&[0x02, 0x12, 0x0A, 0x1A, 0x32, 0x00, 0x30, 0x3A, 0x00, 0x20]);
    m.registers.a = 0x77;
    m.registers.b = 0x20;
    m.registers.c = 0x00;
    m.registers.d = 0x20;
    m.registers.e = 0x01;
    m.step();
    assert_eq!(m.memory.get_u8(0x2000), 0x77);
    m.registers.a = 0x88;
    m.step();
    assert_eq!(m.memory.get_u8(0x2001), 0x88);
    m.step();
    assert_eq!(m.registers.a, 0x77);
    m.step();
    assert_eq!(m.registers.a, 0x88);
    m.step();
    assert_eq!(m.memory.get_u8(0x3000), 0x88);
    m.step();
    assert_eq!(m.registers.a, 0x77);
    assert_eq!(m.registers.pc, 10);
}

#[test]
fn shld_and_lhld_move_hl() {
    let mut m = machine_with(&[0x22, 0x00, 0x20, 0x2A, 0x10, 0x20, 0x22, 0xFF, 0xFF]);
    m.registers.h = 0x12;
    m.registers.l = 0x34;
    m.step();
    assert_eq!(m.memory.get_u8(0x2000), 0x34);
    assert_eq!(m.memory.get_u8(0x2001), 0x12);
    m.memory.set_u16(0x2010, 0xABCD);
    m.step();
    assert_eq!((m.registers.h, m.registers.l), (0xAB, 0xCD));
    m.step();
    assert_eq!(m.memory.get_u8(0xFFFF), 0xCD);
    assert_eq!(m.memory.get_u8(0x0000), 0xAB);
    assert_eq!(m.registers.pc, 9);
}

#[test]
fn mov_and_mvi_reach_every_operand() {
    let mut m = machine_with(&[0x06, 0x11, 0x48, 0x51, 0x5A, 0x63, 0x6C, 0x36, 0x99, 0x7E, 0x70]);
    m.step();
    assert_eq!(m.registers.b, 0x11);
    m.step();
    m.step();
    m.step();
    m.step();
    m.step();
    assert_eq!(
        (m.registers.c, m.registers.d, m.registers.e, m.registers.h, m.registers.l),
        (0x11, 0x11, 0x11, 0x11, 0x11)
    );
    m.step();
    assert_eq!(m.memory.get_u8(0x1111), 0x99);
    m.step();
    assert_eq!(m.registers.a, 0x99);
    m.step();
    assert_eq!(m.memory.get_u8(0x1111), 0x11);
    assert_eq!(m.registers.pc, 11);
}

#[test]
fn cma_stc_cmc() {
    let mut m = machine_with(&[0x2F, 0x37, 0x3F, 0x3F]);
    m.registers.a = 0x5A;
    m.step();
    assert_eq!(m.registers.a, 0xA5);
    assert_eq!(m.registers.get_flags_byte(), 0);
    m.step();
    assert!(m.registers.flag_c);
    m.step();
    assert!(!m.registers.flag_c);
    m.step();
    assert!(m.registers.flag_c);
    assert_eq!(m.registers.pc, 4);
}

#[test]
fn jumps_follow_their_conditions() {
    let conditions: [(u8, fn(&mut Registers, bool)); 4] = [
        (0, |r, on| r.flag_z = !on),
        (2, |r, on| r.flag_c = !on),
        (4, |r, on| r.flag_p = !on),
        (6, |r, on| r.flag_s = !on),
    ];
    for (cond, set) in conditions {
        for negated in [false, true] {
            for holds in [false, true] {
                let code = cond + if negated { 1 } else { 0 };
                let mut m = machine_with(&[0xC2 | (code << 3), 0x34, 0x12]);
                set(&mut m.registers, holds != negated);
                m.step();
                assert_eq!(m.registers.pc, if holds { 0x1234 } else { 3 });
            }
        }
    }
}

#[test]
fn conditional_call_not_taken_leaves_the_stack() {
    let mut m = machine_with(&[0xCC, 0x34, 0x12, 0xC4, 0x34, 0x12]);
    m.registers.sp = 0x4000;
    m.registers.flag_z = false;
    m.step();
    assert_eq!(m.registers.pc, 3);
    assert_eq!(m.registers.sp, 0x4000);
    assert_eq!(m.memory.get_u16(0x3FFE), 0);
    m.step();
    assert_eq!(m.registers.pc, 0x1234);
    assert_eq!(m.registers.sp, 0x3FFE);
    assert_eq!(m.memory.get_u16(0x3FFE), 6);
}

#[test]
fn conditional_return_follows_its_condition() {
    let mut m = machine_with(&[0xD8, 0xD0]);
    m.registers.sp = 0x4000;
    m.memory.set_u16(0x4000, 0x1234);
    m.registers.flag_c = false;
    m.step();
    assert_eq!(m.registers.pc, 1);
    assert_eq!(m.registers.sp, 0x4000);
    m.step();
    assert_eq!(m.registers.pc, 0x1234);
    assert_eq!(m.registers.sp, 0x4002);
}

#[test]
fn call_reads_its_target_after_the_push() {
    let mut m = machine_with(&[0xCD, 0x34, 0x12]);
    m.registers.sp = 0x0003;
    m.step();
    assert_eq!(m.memory.get_u8(0x0001), 0x03);
    assert_eq!(m.memory.get_u8(0x0002), 0x00);
    assert_eq!(m.registers.pc, 0x0003);
    assert_eq!(m.registers.sp, 0x0001);
}

#[test]
fn rst_calls_a_fixed_address() {
    for n in 0..8u8 {
        let mut m = machine_with(&[]);
        m.memory.set_u8(0x1000, 0xC7 | (n << 3));
        m.registers.pc = 0x1000;
        m.registers.sp = 0x4000;
        m.step();
        assert_eq!(m.registers.pc, (n as u16) * 8);
        assert_eq!(m.registers.sp, 0x3FFE);
        assert_eq!(m.memory.get_u16(0x3FFE), 0x1001);
    }
}

#[test]
fn jmp_pchl_sphl() {
    let mut m = machine_with(&[0xC3, 0x00, 0x10]);
    m.memory.set_range(0x1000, &[0xF9, 0xE9]);
    m.registers.h = 0x20;
    m.registers.l = 0x40;
    m.step();
    assert_eq!(m.registers.pc, 0x1000);
    m.step();
    assert_eq!(m.registers.sp, 0x2040);
    assert_eq!(m.registers.pc, 0x1001);
    m.step();
    assert_eq!(m.registers.pc, 0x2040);
}

#[test]
fn xthl_exchanges_with_the_top_of_the_stack() {
    let mut m = machine_with(&[0xE3, 0xE3]);
    m.registers.sp = 0x4000;
    m.memory.set_u16(0x4000, 0xABCD);
    m.registers.h = 0x12;
    m.registers.l = 0x34;
    m.step();
    assert_eq!((m.registers.h, m.registers.l), (0xAB, 0xCD));
    assert_eq!(m.memory.get_u16(0x4000), 0x1234);
    assert_eq!(m.registers.sp, 0x4000);
    assert_eq!(m.registers.pc, 1);
    m.registers.sp = 0xFFFF;
    m.memory.set_u8(0xFFFF, 0x11);
    m.memory.set_u8(0x0000, 0x22);
    m.step();
    assert_eq!((m.registers.h, m.registers.l), (0x22, 0x11));
    assert_eq!(m.memory.get_u8(0xFFFF), 0xCD);
    assert_eq!(m.memory.get_u8(0x0000), 0xAB);
}

#[test]
fn di_and_ei_set_the_latch() {
    let mut m = machine_with(&[0xF3, 0xFB]);
    m.step();
    assert!(!m.interruption_enabled);
    assert_eq!(m.registers.pc, 1);
    m.step();
    assert!(m.interruption_enabled);
    assert_eq!(m.registers.pc, 2);
}

#[test]
fn in_reads_zero_and_out_changes_nothing() {
    let mut m = machine_with(&[0xD3, 0x10, 0xDB, 0x10]);
    m.registers.a = 0x5A;
    m.step();
    assert_eq!(m.registers, Registers { a: 0x5A, pc: 2, ..Registers::default() });
    m.step();
    assert_eq!(m.registers, Registers { a: 0, pc: 4, ..Registers::default() });
    assert_eq!(m.inp(0x10), 0);
    m.out(0x10, 0x5A);
}

#[test]
fn operands_wrap_around_the_top_of_memory() {
    let mut m = machine_with(&[0x12]);
    m.memory.set_u8(0xFFFF, 0x3E);
    m.registers.pc = 0xFFFF;
    m.step();
    assert_eq!(m.registers.a, 0x12);
    assert_eq!(m.registers.pc, 0x0001);
    let mut m = machine_with(&[0x34, 0x12]);
    m.memory.set_u8(0xFFFF, 0xC3);
    m.registers.pc = 0xFFFF;
    m.step();
    assert_eq!(m.registers.pc, 0x1234);
}
