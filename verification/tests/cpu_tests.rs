use dmg_core::cpu::CPU;

fn boot() -> CPU {
    let cart = vec![0u8; 0x8000];
    CPU::new(cart).unwrap()
}

/// A processor parked in work RAM with the given code bytes at PC.
fn with_code(code: &[u8]) -> CPU {
    let mut cpu = boot();
    cpu.pc = 0xc000;
    for (i, b) in code.iter().enumerate() {
        cpu.mmu.write_byte(0xc000 + i as u16, *b);
    }
    cpu
}

#[test]
fn initial_register_state() {
    let cpu = boot();
    assert_eq!(cpu.a, 0x01);
    assert_eq!(cpu.f, 0xb0);
    assert_eq!(cpu.b, 0x00);
    assert_eq!(cpu.c, 0x13);
    assert_eq!(cpu.d, 0x00);
    assert_eq!(cpu.e, 0xd8);
    assert_eq!(cpu.h, 0x01);
    assert_eq!(cpu.l, 0x4d);
    assert_eq!(cpu.sp, 0xfffe);
    assert_eq!(cpu.pc, 0x0100);
    assert!(!cpu.ime);
}

#[test]
fn inc_wraps_with_documented_flags() {
    // INC A from 0xFF wraps to 0 with Z=1, H=1, N=0, C unchanged
    let mut cpu = with_code(&[0x3c]);
    cpu.a = 0xff;
    cpu.f = 0x10; // C set beforehand
    let cycles = cpu.execute_opcode();
    assert_eq!(cycles, 4);
    assert_eq!(cpu.a, 0x00);
    assert_eq!(cpu.f, 0xb0); // Z, H set; N clear; C kept
}

#[test]
fn dec_sets_n_and_half_borrow() {
    // DEC B from 0x10: H set (low nibble 0), N set
    let mut cpu = with_code(&[0x05]);
    cpu.b = 0x10;
    cpu.f = 0x00;
    cpu.execute_opcode();
    assert_eq!(cpu.b, 0x0f);
    assert_eq!(cpu.f, 0x60); // N | H
}

#[test]
fn add_overflow_flags() {
    // ADD A,B with A=0xFF, B=1, C cleared: A=0, Z=1, H=1, C=1
    let mut cpu = with_code(&[0x80]);
    cpu.a = 0xff;
    cpu.b = 0x01;
    cpu.f = 0x00;
    cpu.execute_opcode();
    assert_eq!(cpu.a, 0x00);
    assert_eq!(cpu.f, 0xb0); // Z | H | C, N clear
}

#[test]
fn adc_uses_carry_in() {
    // ADC A,B with carry set: 0x0f + 0x00 + 1 = 0x10, half carry
    let mut cpu = with_code(&[0x88]);
    cpu.a = 0x0f;
    cpu.b = 0x00;
    cpu.f = 0x10;
    cpu.execute_opcode();
    assert_eq!(cpu.a, 0x10);
    assert_eq!(cpu.f, 0x20); // H only
}

#[test]
fn sub_borrow_flags() {
    // SUB A,B with A=0x00, B=0x01: A=0xFF, N=1, H=1, C=1
    let mut cpu = with_code(&[0x90]);
    cpu.a = 0x00;
    cpu.b = 0x01;
    cpu.f = 0x00;
    cpu.execute_opcode();
    assert_eq!(cpu.a, 0xff);
    assert_eq!(cpu.f, 0x70); // N | H | C
}

#[test]
fn and_or_xor_cp_flags() {
    // AND: H always set
    let mut cpu = with_code(&[0xa0]);
    cpu.a = 0xf0;
    cpu.b = 0x0f;
    cpu.execute_opcode();
    assert_eq!(cpu.a, 0x00);
    assert_eq!(cpu.f, 0xa0); // Z | H

    // OR
    let mut cpu = with_code(&[0xb0]);
    cpu.a = 0xf0;
    cpu.b = 0x0f;
    cpu.execute_opcode();
    assert_eq!(cpu.a, 0xff);
    assert_eq!(cpu.f, 0x00);

    // XOR A clears A and sets Z
    let mut cpu = with_code(&[0xaf]);
    cpu.a = 0x5a;
    cpu.execute_opcode();
    assert_eq!(cpu.a, 0x00);
    assert_eq!(cpu.f, 0x80);

    // CP leaves A alone
    let mut cpu = with_code(&[0xb8]);
    cpu.a = 0x42;
    cpu.b = 0x42;
    cpu.execute_opcode();
    assert_eq!(cpu.a, 0x42);
    assert_eq!(cpu.f, 0xc0); // Z | N
}

#[test]
fn low_nibble_of_f_stays_zero() {
    // run a mix of instructions and check F's low nibble after each
    let code = [0x3c, 0x05, 0x80, 0x90, 0xa0, 0xb0, 0xa8, 0xb8, 0x27, 0x2f, 0x37, 0x3f, 0x07,
        0x0f, 0x17, 0x1f];
    let mut cpu = with_code(&code);
    for _ in 0..code.len() {
        cpu.execute_opcode();
        assert_eq!(cpu.f & 0x0f, 0);
    }
}

#[test]
fn jr_moves_pc_by_signed_offset() {
    // JR with offset 0x7F moves PC forward by 127
    let mut cpu = with_code(&[0x18, 0x7f]);
    let cycles = cpu.execute_opcode();
    assert_eq!(cycles, 12);
    assert_eq!(cpu.pc, 0xc002 + 127);

    // JR with offset 0x80 moves PC back by 128
    let mut cpu = with_code(&[0x18, 0x80]);
    cpu.execute_opcode();
    assert_eq!(cpu.pc, 0xc002 - 128);
}

#[test]
fn conditional_branch_not_taken_costs_less() {
    // JR NZ with Z set: not taken, 8 clocks, PC past the operand
    let mut cpu = with_code(&[0x20, 0x10]);
    cpu.f = 0x80;
    let cycles = cpu.execute_opcode();
    assert_eq!(cycles, 8);
    assert_eq!(cpu.pc, 0xc002);

    // JR NZ with Z clear: taken, 12 clocks
    let mut cpu = with_code(&[0x20, 0x10]);
    cpu.f = 0x00;
    let cycles = cpu.execute_opcode();
    assert_eq!(cycles, 12);
    assert_eq!(cpu.pc, 0xc002 + 0x10);

    // conditional JP and CALL and RET not taken
    let mut cpu = with_code(&[0xc2, 0x00, 0xd0]);
    cpu.f = 0x80;
    assert_eq!(cpu.execute_opcode(), 12);
    let mut cpu = with_code(&[0xc4, 0x00, 0xd0]);
    cpu.f = 0x80;
    assert_eq!(cpu.execute_opcode(), 12);
    let mut cpu = with_code(&[0xc0]);
    cpu.f = 0x80;
    assert_eq!(cpu.execute_opcode(), 8);
}

#[test]
fn push_pop_roundtrip() {
    // PUSH BC then POP DE: the word round-trips and SP returns
    let mut cpu = with_code(&[0xc5, 0xd1]);
    cpu.sp = 0xdffe;
    cpu.b = 0xab;
    cpu.c = 0xcd;
    assert_eq!(cpu.execute_opcode(), 16);
    assert_eq!(cpu.sp, 0xdffc);
    assert_eq!(cpu.execute_opcode(), 12);
    assert_eq!(cpu.sp, 0xdffe);
    assert_eq!(cpu.d, 0xab);
    assert_eq!(cpu.e, 0xcd);
}

#[test]
fn push_af_pop_af_masks_low_nibble() {
    let mut cpu = with_code(&[0xf5, 0xf1]);
    cpu.sp = 0xdffe;
    cpu.a = 0x12;
    cpu.f = 0xf0;
    cpu.execute_opcode();
    cpu.a = 0;
    cpu.f = 0;
    cpu.execute_opcode();
    assert_eq!(cpu.a, 0x12);
    assert_eq!(cpu.f, 0xf0);
}

#[test]
fn ld_hl_and_memory_forms() {
    // LD HL,d16; LD (HL),0x77; LD A,(HL)
    let mut cpu = with_code(&[0x21, 0x00, 0xd0, 0x36, 0x77, 0x7e]);
    assert_eq!(cpu.execute_opcode(), 12);
    assert_eq!(cpu.h, 0xd0);
    assert_eq!(cpu.l, 0x00);
    assert_eq!(cpu.execute_opcode(), 12);
    assert_eq!(cpu.mmu.read_byte(0xd000), 0x77);
    assert_eq!(cpu.execute_opcode(), 8);
    assert_eq!(cpu.a, 0x77);
}

#[test]
fn hl_post_increment_and_decrement() {
    // LD (HL+),A then LD (HL-),A
    let mut cpu = with_code(&[0x22, 0x32]);
    cpu.h = 0xd0;
    cpu.l = 0x00;
    cpu.a = 0x5a;
    cpu.execute_opcode();
    assert_eq!((cpu.h, cpu.l), (0xd0, 0x01));
    cpu.execute_opcode();
    assert_eq!((cpu.h, cpu.l), (0xd0, 0x00));
    assert_eq!(cpu.mmu.read_byte(0xd000), 0x5a);
    assert_eq!(cpu.mmu.read_byte(0xd001), 0x5a);
}

#[test]
fn ld_r_r_block() {
    // LD B,D (0x42)
    let mut cpu = with_code(&[0x42]);
    cpu.d = 0x99;
    cpu.execute_opcode();
    assert_eq!(cpu.b, 0x99);
    // LD B,(HL) costs 8
    let mut cpu = with_code(&[0x46]);
    cpu.h = 0xc0;
    cpu.l = 0x00;
    assert_eq!(cpu.execute_opcode(), 8);
    assert_eq!(cpu.b, 0x46);
}

#[test]
fn add16_and_sp_forms() {
    // ADD HL,DE: H/C from 12- and 16-bit carries, Z untouched
    let mut cpu = with_code(&[0x19]);
    cpu.h = 0x0f;
    cpu.l = 0xff;
    cpu.d = 0x00;
    cpu.e = 0x01;
    cpu.f = 0x80;
    cpu.execute_opcode();
    assert_eq!((cpu.h, cpu.l), (0x10, 0x00));
    assert_eq!(cpu.f, 0xa0); // Z kept, H set

    // ADD SP,r8 with a negative offset
    let mut cpu = with_code(&[0xe8, 0xff]);
    cpu.sp = 0x0000;
    assert_eq!(cpu.execute_opcode(), 16);
    assert_eq!(cpu.sp, 0xffff);

    // LD HL,SP+1: H/C from the unsigned low-byte arithmetic
    let mut cpu = with_code(&[0xf8, 0x01]);
    cpu.sp = 0x00ff;
    assert_eq!(cpu.execute_opcode(), 12);
    assert_eq!((cpu.h, cpu.l), (0x01, 0x00));
    assert_eq!(cpu.f, 0x30); // H | C
}

#[test]
fn daa_adjusts_bcd_addition() {
    // 0x15 + 0x27 = 0x3c; DAA turns it into 0x42
    let mut cpu = with_code(&[0x80, 0x27]);
    cpu.a = 0x15;
    cpu.b = 0x27;
    cpu.execute_opcode();
    assert_eq!(cpu.a, 0x3c);
    cpu.execute_opcode();
    assert_eq!(cpu.a, 0x42);
    assert_eq!(cpu.f & 0x20, 0); // H cleared
}

#[test]
fn rotate_instructions() {
    // RLCA
    let mut cpu = with_code(&[0x07]);
    cpu.a = 0x85;
    cpu.execute_opcode();
    assert_eq!(cpu.a, 0x0b);
    assert_eq!(cpu.f, 0x10); // carry from bit 7, Z forced clear

    // prefixed RL B through carry
    let mut cpu = with_code(&[0xcb, 0x10]);
    cpu.b = 0x80;
    cpu.f = 0x10;
    assert_eq!(cpu.execute_opcode(), 8);
    assert_eq!(cpu.b, 0x01);
    assert_eq!(cpu.f, 0x10);

    // prefixed SWAP A
    let mut cpu = with_code(&[0xcb, 0x37]);
    cpu.a = 0xf1;
    cpu.execute_opcode();
    assert_eq!(cpu.a, 0x1f);
    assert_eq!(cpu.f, 0x00);

    // prefixed SRL B: bit 0 to carry
    let mut cpu = with_code(&[0xcb, 0x38]);
    cpu.b = 0x01;
    cpu.execute_opcode();
    assert_eq!(cpu.b, 0x00);
    assert_eq!(cpu.f, 0x90); // Z | C
}

#[test]
fn prefixed_bit_res_set() {
    // BIT 7,H with bit clear: Z set, H set
    let mut cpu = with_code(&[0xcb, 0x7c]);
    cpu.h = 0x00;
    assert_eq!(cpu.execute_opcode(), 8);
    assert_eq!(cpu.f & 0x80, 0x80);
    assert_eq!(cpu.f & 0x20, 0x20);

    // RES 0,A and SET 3,A
    let mut cpu = with_code(&[0xcb, 0x87, 0xcb, 0xdf]);
    cpu.a = 0xff;
    cpu.execute_opcode();
    assert_eq!(cpu.a, 0xfe);
    cpu.execute_opcode();
    assert_eq!(cpu.a, 0xfe | 0x08);

    // BIT on (HL) costs 12, RES on (HL) costs 16
    let mut cpu = with_code(&[0xcb, 0x46, 0xcb, 0x86]);
    cpu.h = 0xc0;
    cpu.l = 0x00;
    assert_eq!(cpu.execute_opcode(), 12);
    assert_eq!(cpu.execute_opcode(), 16);
}

#[test]
fn call_pushes_return_address() {
    // CALL 0xd000 from 0xc000: return address 0xc003 on the stack
    let mut cpu = with_code(&[0xcd, 0x00, 0xd0]);
    cpu.sp = 0xdffe;
    assert_eq!(cpu.execute_opcode(), 24);
    assert_eq!(cpu.pc, 0xd000);
    assert_eq!(cpu.sp, 0xdffc);
    assert_eq!(cpu.mmu.read_word(0xdffc), 0xc003);
    // RET comes back
    cpu.mmu.write_byte(0xd000, 0xc9);
    assert_eq!(cpu.execute_opcode(), 16);
    assert_eq!(cpu.pc, 0xc003);
    assert_eq!(cpu.sp, 0xdffe);
}

#[test]
fn rst_jumps_to_vector() {
    let mut cpu = with_code(&[0xef]);
    cpu.sp = 0xdffe;
    assert_eq!(cpu.execute_opcode(), 16);
    assert_eq!(cpu.pc, 0x28);
    assert_eq!(cpu.mmu.read_word(0xdffc), 0xc001);
}

#[test]
fn interrupt_service_dispatches_lowest_bit() {
    // pending VBlank and Timer with IME on: VBlank (bit 0) wins
    let mut cpu = with_code(&[0x00]);
    cpu.sp = 0xdffe;
    cpu.ime = true;
    cpu.mmu.interrupt_enable = 0x1f;
    cpu.mmu.interrupt_flag = 0x05;
    let cycles = cpu.do_cycle();
    assert_eq!(cycles, 20);
    assert_eq!(cpu.pc, 0x40);
    assert!(!cpu.ime);
    assert_eq!(cpu.mmu.interrupt_flag & 0x01, 0);
    assert_eq!(cpu.mmu.interrupt_flag & 0x04, 0x04);
    assert_eq!(cpu.mmu.read_word(0xdffc), 0xc000);
}

#[test]
fn ei_takes_effect_after_next_instruction() {
    // EI; NOP; NOP with a pending interrupt: serviced only after the
    // instruction that follows EI
    let mut cpu = with_code(&[0xfb, 0x00, 0x00]);
    cpu.sp = 0xdffe;
    cpu.mmu.interrupt_enable = 0x01;
    cpu.mmu.interrupt_flag = 0x01;
    cpu.do_cycle(); // EI
    assert!(!cpu.ime);
    cpu.do_cycle(); // NOP; IME turns on after it
    assert!(cpu.ime);
    let cycles = cpu.do_cycle();
    assert_eq!(cycles, 20);
    assert_eq!(cpu.pc, 0x40);
}

#[test]
fn halt_idles_until_interrupt_pending() {
    let mut cpu = with_code(&[0x76, 0x04]);
    cpu.do_cycle();
    assert!(cpu.halted);
    // no interrupt pending: stays halted
    assert_eq!(cpu.do_cycle(), 4);
    assert!(cpu.halted);
    let pc = cpu.pc;
    assert_eq!(pc, 0xc001);
    // a pending interrupt with IME off leaves HALT without servicing
    cpu.mmu.interrupt_enable = 0x04;
    cpu.mmu.interrupt_flag = 0x04;
    cpu.do_cycle();
    assert!(!cpu.halted);
    assert_eq!(cpu.pc, 0xc002); // executed the INC B after HALT
}

#[test]
fn sixteen_bit_inc_dec_wrap() {
    // INC BC from 0xFFFF wraps to 0 without touching flags
    let mut cpu = with_code(&[0x03]);
    cpu.b = 0xff;
    cpu.c = 0xff;
    cpu.f = 0xf0;
    assert_eq!(cpu.execute_opcode(), 8);
    assert_eq!((cpu.b, cpu.c), (0, 0));
    assert_eq!(cpu.f, 0xf0);

    // DEC DE from 0 wraps to 0xFFFF
    let mut cpu = with_code(&[0x1b]);
    cpu.d = 0;
    cpu.e = 0;
    cpu.execute_opcode();
    assert_eq!((cpu.d, cpu.e), (0xff, 0xff));

    // INC SP and DEC SP wrap at the ends of the address space
    let mut cpu = with_code(&[0x33, 0x3b, 0x3b]);
    cpu.sp = 0xffff;
    cpu.execute_opcode();
    assert_eq!(cpu.sp, 0);
    cpu.execute_opcode();
    assert_eq!(cpu.sp, 0xffff);
    cpu.execute_opcode();
    assert_eq!(cpu.sp, 0xfffe);
}

#[test]
fn undefined_opcode_is_nop() {
    let mut cpu = with_code(&[0xd3]);
    assert_eq!(cpu.last_unknown_opcode, None);
    assert_eq!(cpu.execute_opcode(), 4);
    assert_eq!(cpu.pc, 0xc001);
    // the opcode and its address are recorded for the host to report
    assert_eq!(cpu.last_unknown_opcode, Some((0xd3, 0xc000)));
    assert_eq!(cpu.a, 0x01); // nothing else changed
}
