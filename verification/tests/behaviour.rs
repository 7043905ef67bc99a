use lib::c6502::{create_test_cpu, is_negative, C6502};
use lib::common::get_bit;
use lib::instruction::{lookup_opcode, AddressingMode, Instruction, Operation};
use lib::mapper::{AddressSpace, NullAddressSpace, Ram};
use lib::state::ClockFault;
use lib::step::run_clocks;

fn cpu_with(program: &[u8]) -> C6502<Ram> {
    let v: Vec<u8> = program.to_vec();
    create_test_cpu(&v)
}

fn flags(c: &C6502<Ram>) -> (bool, bool, bool, bool, bool, bool) {
    (c.carry, c.zero, c.interruptd, c.decimal, c.overflow, c.negative)
}

// Laws, on concrete values.

#[test]
fn pop_returns_pushed_byte() {
    let mut c = cpu_with(&[]);
    let sp = c.sp;
    c.push_stack(0x42);
    assert_eq!(c.sp, sp.wrapping_sub(1));
    assert_eq!(c.peek(0x0100 + sp as u16), 0x42);
    assert_eq!(c.pop_stack(), 0x42);
    assert_eq!(c.sp, sp);
}

#[test]
fn pop16_returns_pushed_word() {
    let mut c = cpu_with(&[]);
    c.push_stack16(0xBEEF);
    assert_eq!(c.peek(0x01FD), 0xBE);
    assert_eq!(c.peek(0x01FC), 0xEF);
    assert_eq!(c.pop_stack16(), 0xBEEF);
    assert_eq!(c.sp, 0xfd);
}

#[test]
fn stack_pointer_wraps_within_the_stack_page() {
    let mut c = cpu_with(&[]);
    c.sp = 0x00;
    c.push_stack(0x11);
    assert_eq!(c.sp, 0xFF);
    assert_eq!(c.peek(0x0100), 0x11);
    assert_eq!(c.pop_stack(), 0x11);
    assert_eq!(c.sp, 0x00);
}

#[test]
fn rts_returns_after_jsr() {
    let program: [u8; 17] = [
        0x20, 0x10, 0xC0, // JSR $C010
        0, 0, 0, 0, 0, 0, 0, 0, 0, 0, 0, 0, 0, // padding
        0x60, // RTS at $C010
    ];
    let mut c = cpu_with(&program);
    c.clock();
    assert_eq!(c.pc, 0xC010);
    assert_eq!(c.sp, 0xfb);
    c.clock();
    assert_eq!(c.pc, 0xC003);
    assert_eq!(c.sp, 0xfd);
}

#[test]
fn status_byte_after_loading_keeps_bits_but_4_and_5() {
    let mut c = cpu_with(&[]);
    for v in [0x00u8, 0xFF, 0x10, 0x20, 0xCF, 0x6E, 0x93] {
        c.set_status_register_from_byte(v);
        assert_eq!(c.status_register_byte(true), (v & 0xCF) | 0x20);
    }
}

#[test]
fn loading_the_status_byte_restores_the_flags() {
    let mut c = cpu_with(&[]);
    c.carry = true;
    c.zero = false;
    c.interruptd = true;
    c.decimal = false;
    c.overflow = true;
    c.negative = true;
    let before = flags(&c);
    let b = c.status_register_byte(false);
    c.set_status_register_from_byte(0);
    c.set_status_register_from_byte(b);
    assert_eq!(flags(&c), before);
}

#[test]
fn status_byte_fixed_bits() {
    let mut c = cpu_with(&[]);
    c.set_status_register_from_byte(0xFF);
    assert_eq!(c.status_register_byte(false), 0xCF);
    assert_eq!(c.status_register_byte(true), 0xEF);
    c.set_status_register_from_byte(0x00);
    assert_eq!(c.status_register_byte(false), 0x00);
    assert_eq!(c.status_register_byte(true), 0x20);
}

#[test]
fn plp_after_php_restores_flags() {
    let program = [
        0x38, // SEC
        0xf8, // SED
        0x08, // PHP
        0x18, // CLC
        0xd8, // CLD
        0x28, // PLP
    ];
    let mut c = cpu_with(&program);
    run_clocks(&mut c, 3);
    let before = flags(&c);
    run_clocks(&mut c, 3);
    assert_eq!(flags(&c), before);
    assert!(c.carry);
    assert!(c.decimal);
    assert_eq!(c.sp, 0xfd);
}

#[test]
fn pla_after_pha_restores_accumulator() {
    let program = [
        0xa9, 0x37, // LDA #$37
        0x48, // PHA
        0xa9, 0x00, // LDA #$00
        0x68, // PLA
    ];
    let mut c = cpu_with(&program);
    run_clocks(&mut c, 4);
    assert_eq!(c.acc, 0x37);
    assert_eq!(c.sp, 0xfd);
    assert!(!c.zero);
}

#[test]
fn sbc_is_adc_of_complement() {
    for acc in [0x00u8, 0x01, 0x50, 0x7F, 0x80, 0xD0, 0xFF] {
        for v in [0x00u8, 0x01, 0x30, 0x70, 0x80, 0xB0, 0xFF] {
            for carry in [false, true] {
                let mut a = cpu_with(&[]);
                a.acc = acc;
                a.carry = carry;
                let mut b = cpu_with(&[]);
                b.acc = acc;
                b.carry = carry;
                a.execute_sbc(v);
                b.execute_adc(!v);
                assert_eq!(a.acc, b.acc);
                assert_eq!(flags(&a), flags(&b));
            }
        }
    }
}

#[test]
fn ror_undoes_rol() {
    let program = [
        0xa9, 0x81, // LDA #$81
        0x2a, // ROL A
        0x6a, // ROR A
    ];
    let mut c = cpu_with(&program);
    run_clocks(&mut c, 2);
    assert_eq!(c.acc, 0x02);
    assert!(c.carry);
    c.clock();
    assert_eq!(c.acc, 0x81);
    assert!(!c.carry);
}

#[test]
fn rol_rotates_through_carry() {
    let mut c = cpu_with(&[]);
    c.carry = false;
    assert_eq!(c.execute_rol(0x80), 0x00);
    assert!(c.carry);
    assert!(c.zero);
    assert_eq!(c.execute_rol(0x40), 0x81);
    assert!(!c.carry);
    assert!(c.negative);
}

#[test]
fn shifts_clear_an_end_bit() {
    let mut c = cpu_with(&[]);
    assert_eq!(c.execute_asl(0xFF), 0xFE);
    assert!(c.carry);
    assert_eq!(c.acc, 0);
    assert_eq!(c.execute_lsr(0xFE), 0x7F);
    assert!(!c.carry);
    assert_eq!(c.execute_lsr(0x81), 0x40);
    assert!(c.carry);
}

#[test]
fn inc_and_dec_undo_each_other() {
    let mut c = cpu_with(&[]);
    for v in [0x00u8, 0x01, 0x7F, 0x80, 0xFF] {
        let up = c.execute_inc(v);
        assert_eq!(c.execute_dec(up), v);
        let down = c.execute_dec(v);
        assert_eq!(c.execute_inc(down), v);
    }
    assert_eq!(c.execute_inc(0xFF), 0x00);
    assert!(c.zero);
    assert_eq!(c.execute_dec(0x00), 0xFF);
    assert!(c.negative);
}

#[test]
fn instruction_lengths() {
    let cases: [(u8, u16); 7] =
        [(0xEA, 1), (0xA9, 2), (0xAD, 3), (0x6C, 3), (0x0A, 1), (0xB5, 2), (0xBD, 3)];
    for (opcode, len) in cases {
        let c = cpu_with(&[opcode, 0x00, 0x00]);
        let (_i, n) = c.decode_instruction();
        assert_eq!(n, len);
    }
}

#[test]
fn counter_counts_clocks() {
    let mut c = cpu_with(&[0xea, 0xea, 0xea]);
    assert_eq!(c.counter, 0);
    run_clocks(&mut c, 3);
    assert_eq!(c.counter, 3);
    assert_eq!(c.pc, 0xC003);
}

#[test]
fn null_address_space_drops_writes() {
    let mut c = C6502::new();
    assert!(c.is_valid());
    c.poke(0x1234, 0x56);
    assert_eq!(c.peek(0x1234), 0);
    // Memory reads 0 everywhere, so the CPU runs BRK through a zero vector.
    c.clock();
    assert_eq!(c.pc, 0x0000);
    assert_eq!(c.sp, 0xfa);
    assert!(c.interruptd);
    assert_eq!(c.peek(0x01FD), 0);
    assert_eq!(c.counter, 1);
}

// Construction.

#[test]
fn new_cpu_reset_state() {
    let c = C6502::new();
    assert_eq!((c.acc, c.x, c.y), (0, 0, 0));
    assert_eq!(c.pc, 0xC000);
    assert_eq!(c.sp, 0xfd);
    assert_eq!(c.status_register_byte(false), 0);
    assert_eq!(c.counter, 0);
    assert_eq!(c.clocks, 0);
    assert!(c.is_tracing);
}

#[test]
fn create_test_cpu_loads_program() {
    let c = cpu_with(&[0x11, 0x22, 0x33]);
    assert_eq!(c.pc, 0xC000);
    assert!(!c.is_tracing);
    assert_eq!(c.peek(0xBFFF), 0);
    assert_eq!(c.peek(0xC000), 0x11);
    assert_eq!(c.peek(0xC001), 0x22);
    assert_eq!(c.peek(0xC002), 0x33);
    assert_eq!(c.peek(0xC003), 0);
}

#[test]
fn create_test_cpu_largest_program() {
    let program: Vec<u8> = vec![0xAB; 0x4000];
    let c = create_test_cpu(&program);
    assert_eq!(c.peek(0xC000), 0xAB);
    assert_eq!(c.peek(0xFFFF), 0xAB);
}

// Faults.

#[test]
fn fault_on_kil() {
    let c = cpu_with(&[0x02]);
    assert_eq!(c.clock_fault(), Some(ClockFault::Halted));
}

#[test]
fn fault_on_undocumented_operation() {
    let c = cpu_with(&[0x03, 0x00]);
    assert_eq!(c.clock_fault(), Some(ClockFault::Unimplemented(Operation::SLO)));
}

#[test]
fn absolute_indexed_address_wraps() {
    let mut c = cpu_with(&[0xbd, 0xFE, 0xFF]); // LDA $FFFE,X
    c.x = 5;
    c.poke(0x0003, 0x42);
    assert_eq!(c.clock_fault(), None);
    c.clock();
    assert_eq!(c.acc, 0x42);
    assert_eq!(c.pc, 0xC003);
}

#[test]
fn fault_on_counter_overflow() {
    let mut c = cpu_with(&[0xea]);
    c.counter = usize::MAX;
    assert_eq!(c.clock_fault(), Some(ClockFault::CounterOverflow));
}

#[test]
fn backward_branch_wraps() {
    let mut c = cpu_with(&[0xd0, 0xf7]); // BNE -9
    c.zero = false;
    assert_eq!(c.clock_fault(), None);
    c.clock();
    assert_eq!(c.pc, 0xC002 - 9);
}

#[test]
fn branch_loop_runs() {
    let program = [
        0xa2, 0x03, // LDX #$03
        0xca, // DEX
        0xd0, 0xfd, // BNE -3
        0xea, // NOP
    ];
    let mut c = cpu_with(&program);
    run_clocks(&mut c, 1 + 3 * 2);
    assert_eq!(c.x, 0);
    assert_eq!(c.pc, 0xC005);
}

#[test]
fn no_fault_on_ordinary_instruction() {
    let c = cpu_with(&[0xa9, 0x01]);
    assert_eq!(c.clock_fault(), None);
}

// Branches.

#[test]
fn branch_taken_forward() {
    let mut c = cpu_with(&[0x90, 0x09]); // BCC +9
    c.carry = false;
    c.clock();
    assert_eq!(c.pc, 0xC002 + 9);
}

#[test]
fn each_branch_follows_its_flag() {
    // (opcode, setup, taken)
    let cases: [(u8, fn(&mut C6502<Ram>), bool); 8] = [
        (0xb0, |c| c.carry = true, true),
        (0xf0, |c| c.zero = false, false),
        (0x30, |c| c.negative = true, true),
        (0xd0, |c| c.zero = true, false),
        (0x10, |c| c.negative = false, true),
        (0x50, |c| c.overflow = true, false),
        (0x70, |c| c.overflow = true, true),
        (0x90, |c| c.carry = true, false),
    ];
    for (opcode, setup, taken) in cases {
        let mut c = cpu_with(&[opcode, 0x04]);
        setup(&mut c);
        c.clock();
        assert_eq!(c.pc, if taken { 0xC006 } else { 0xC002 });
    }
}

// Addressing modes.

#[test]
fn zero_page_indexed_wraps_in_zero_page() {
    let program = [
        0xa2, 0xff, // LDX #$FF
        0xb5, 0x80, // LDA $80,X -> $7F
    ];
    let mut c = cpu_with(&program);
    c.poke(0x007F, 0x99);
    run_clocks(&mut c, 2);
    assert_eq!(c.acc, 0x99);
    assert!(c.negative);
}

#[test]
fn zero_page_y_store() {
    let program = [
        0xa0, 0x03, // LDY #$03
        0xa2, 0x44, // LDX #$44
        0x96, 0x10, // STX $10,Y
    ];
    let mut c = cpu_with(&program);
    run_clocks(&mut c, 3);
    assert_eq!(c.peek(0x0013), 0x44);
}

#[test]
fn absolute_load_and_store() {
    let program = [
        0xad, 0x34, 0x12, // LDA $1234
        0x8d, 0x00, 0x02, // STA $0200
    ];
    let mut c = cpu_with(&program);
    c.poke(0x1234, 0x5A);
    run_clocks(&mut c, 2);
    assert_eq!(c.acc, 0x5A);
    assert_eq!(c.peek(0x0200), 0x5A);
    assert_eq!(c.pc, 0xC006);
}

#[test]
fn absolute_indexed_adds_index_to_operand_word() {
    let mut c = cpu_with(&[0xbd, 0x30, 0x12, 0xb9, 0x30, 0x12]); // LDA $1230,X; LDA $1230,Y
    c.x = 4;
    c.y = 5;
    c.poke(0x1234, 0x77);
    c.poke(0x1235, 0x88);
    let (i, n) = c.decode_instruction();
    assert_eq!(i.write_target, Some(0x1234));
    assert_eq!(n, 3);
    c.clock();
    assert_eq!(c.acc, 0x77);
    assert_eq!(c.pc, 0xC003);
    c.clock();
    assert_eq!(c.acc, 0x88);
}

#[test]
fn indirect_x_and_indirect_y() {
    let mut c = cpu_with(&[0xa1, 0x20, 0xb1, 0x40]); // LDA ($20,X); LDA ($40),Y
    c.x = 4;
    c.y = 1;
    c.poke(0x0024, 0x00);
    c.poke(0x0025, 0x03);
    c.poke(0x0300, 0x12);
    c.poke(0x0040, 0xFF);
    c.poke(0x0041, 0x03);
    c.poke(0x0400, 0x34);
    c.clock();
    assert_eq!(c.acc, 0x12);
    c.clock();
    assert_eq!(c.acc, 0x34);
}

#[test]
fn zero_page_pointer_wraps() {
    let mut c = cpu_with(&[]);
    c.poke(0x00FF, 0x34);
    c.poke(0x0000, 0x12);
    c.poke(0x0100, 0x99);
    assert_eq!(c.peek_zero16(0xFF), 0x1234);
    assert_eq!(c.peek16(0x00FF), 0x9934);
}

#[test]
fn peek16_wraps_at_top_of_memory() {
    let mut c = cpu_with(&[]);
    c.poke(0xFFFF, 0xCD);
    c.poke(0x0000, 0xAB);
    assert_eq!(c.peek16(0xFFFF), 0xABCD);
}

#[test]
fn offset_access_wraps() {
    let mut c = cpu_with(&[]);
    c.poke_offset(0x0100, 0x20, 0x66);
    assert_eq!(c.peek(0x0120), 0x66);
    assert_eq!(c.peek_offset(0x0130, -0x10), 0x66);
    c.poke_offset(0xFFFF, 2, 0x77);
    assert_eq!(c.peek(0x0001), 0x77);
    assert_eq!(c.peek_offset(0x0000, -1), 0);
}

#[test]
fn jmp_indirect_goes_to_stored_address() {
    let mut c = cpu_with(&[0x6c, 0x00, 0x30]); // JMP ($3000)
    c.poke(0x3000, 0x34);
    c.poke(0x3001, 0x12);
    c.clock();
    assert_eq!(c.pc, 0x1234);
}

#[test]
fn jmp_indirect_pointer_stays_in_its_page() {
    let mut c = cpu_with(&[0x6c, 0xFF, 0x30]); // JMP ($30FF)
    c.poke(0x30FF, 0x78);
    c.poke(0x3000, 0x56);
    c.poke(0x3100, 0x99);
    c.clock();
    assert_eq!(c.pc, 0x5678);
}

#[test]
fn asl_on_memory_shifts_the_memory_byte() {
    let mut c = cpu_with(&[0x06, 0x10]); // ASL $10
    c.acc = 0x11;
    c.poke(0x10, 0x81);
    c.clock();
    assert_eq!(c.peek(0x10), 0x02);
    assert_eq!(c.acc, 0x11);
    assert!(c.carry);
    assert!(!c.zero);
}

#[test]
fn trace_bytes_of_instruction() {
    let c = cpu_with(&[0xad, 0x34, 0x12]);
    assert_eq!(c.trace_bytes(1), 0xad);
    assert_eq!(c.trace_bytes(2), 0xad34);
    assert_eq!(c.trace_bytes(3), 0xad3412);
}

#[test]
fn implicit_mode_operand() {
    let c = cpu_with(&[0xea]);
    let (i, n) = c.decode_instruction();
    assert_eq!(i.mode_args, 0xDEAD);
    assert_eq!(i.write_target, None);
    assert_eq!(n, 1);
}

// Instructions.

#[test]
fn adc_carry_and_overflow() {
    let mut c = cpu_with(&[]);
    c.acc = 0x7F;
    c.carry = true;
    c.execute_adc(0x00);
    assert_eq!(c.acc, 0x80);
    assert!(c.overflow);
    assert!(!c.carry);
    c.acc = 0x50;
    c.carry = false;
    c.execute_adc(0x50);
    assert_eq!(c.acc, 0xA0);
    assert!(c.overflow);
    assert!(!c.carry);
    assert!(c.negative);
    c.acc = 0xFF;
    c.carry = false;
    c.execute_adc(0x01);
    assert_eq!(c.acc, 0x00);
    assert!(c.carry);
    assert!(c.zero);
    assert!(!c.overflow);
}

#[test]
fn sbc_borrow() {
    let mut c = cpu_with(&[]);
    c.acc = 0x05;
    c.carry = true;
    c.execute_sbc(0x06);
    assert_eq!(c.acc, 0xFF);
    assert!(!c.carry);
    c.acc = 0x05;
    c.carry = false;
    c.execute_sbc(0x03);
    assert_eq!(c.acc, 0x01);
    assert!(c.carry);
    c.acc = 0x80;
    c.carry = false;
    c.execute_sbc(0x00);
    assert_eq!(c.acc, 0x7F);
    assert!(c.overflow);
}

#[test]
fn logic_operations() {
    let mut c = cpu_with(&[]);
    c.acc = 0xF0;
    c.execute_and(0x3C);
    assert_eq!(c.acc, 0x30);
    c.execute_ora(0x0F);
    assert_eq!(c.acc, 0x3F);
    c.execute_eor(0x3F);
    assert_eq!(c.acc, 0x00);
    assert!(c.zero);
}

#[test]
fn bit_sets_flags_from_operand() {
    let mut c = cpu_with(&[]);
    c.acc = 0x01;
    c.execute_bit(0xC0);
    assert!(c.negative);
    assert!(c.overflow);
    assert!(c.zero);
    c.execute_bit(0x01);
    assert!(!c.negative && !c.overflow && !c.zero);
}

#[test]
fn compares() {
    let mut c = cpu_with(&[]);
    c.acc = 0x10;
    c.x = 0x10;
    c.y = 0x05;
    c.execute_cmp(0x20);
    assert!(!c.carry && !c.zero && c.negative);
    c.execute_cpx(0x10);
    assert!(c.carry && c.zero && !c.negative);
    c.execute_cpy(0x01);
    assert!(c.carry && !c.zero && !c.negative);
}

#[test]
fn memory_inc_dec_and_shifts() {
    let program = [
        0xe6, 0x10, // INC $10
        0xc6, 0x11, // DEC $11
        0x46, 0x12, // LSR $12
        0x26, 0x13, // ROL $13
        0x66, 0x14, // ROR $14
    ];
    let mut c = cpu_with(&program);
    c.poke(0x10, 0xFF);
    c.poke(0x11, 0x00);
    c.poke(0x12, 0x03);
    c.poke(0x13, 0x80);
    c.poke(0x14, 0x02);
    run_clocks(&mut c, 2);
    assert_eq!(c.peek(0x10), 0x00);
    assert_eq!(c.peek(0x11), 0xFF);
    c.clock();
    assert_eq!(c.peek(0x12), 0x01);
    assert!(c.carry);
    c.clock();
    assert_eq!(c.peek(0x13), 0x01);
    assert!(c.carry);
    c.clock();
    assert_eq!(c.peek(0x14), 0x81);
    assert!(!c.carry);
}

#[test]
fn register_increments_and_decrements() {
    let mut c = cpu_with(&[0xe8, 0xc8, 0xca, 0xca, 0x88]); // INX INY DEX DEX DEY
    run_clocks(&mut c, 5);
    assert_eq!(c.x, 0xFF);
    assert_eq!(c.y, 0x00);
    assert!(c.zero);
}

#[test]
fn transfers() {
    let mut c = cpu_with(&[]);
    c.acc = 0x80;
    c.execute_tax();
    assert_eq!(c.x, 0x80);
    assert!(c.negative);
    c.execute_tay();
    assert_eq!(c.y, 0x80);
    c.x = 0x00;
    c.execute_txa();
    assert_eq!(c.acc, 0x00);
    assert!(c.zero);
    c.execute_tya();
    assert_eq!(c.acc, 0x80);
    c.x = 0x42;
    c.execute_txs();
    assert_eq!(c.sp, 0x42);
    c.x = 0;
    c.execute_tsx();
    assert_eq!(c.x, 0x42);
}

#[test]
fn loads_and_stores_of_each_register() {
    let program = [
        0xa2, 0x12, // LDX #$12
        0xa0, 0x34, // LDY #$34
        0x86, 0x20, // STX $20
        0x84, 0x21, // STY $21
        0x85, 0x22, // STA $22
    ];
    let mut c = cpu_with(&program);
    c.acc = 0x56;
    run_clocks(&mut c, 5);
    assert_eq!(c.peek(0x20), 0x12);
    assert_eq!(c.peek(0x21), 0x34);
    assert_eq!(c.peek(0x22), 0x56);
}

#[test]
fn flag_instructions() {
    let mut c = cpu_with(&[0x38, 0xf8, 0x78, 0x18, 0xd8, 0x58, 0xb8]);
    run_clocks(&mut c, 3);
    assert!(c.carry && c.decimal && c.interruptd);
    c.overflow = true;
    run_clocks(&mut c, 4);
    assert!(!c.carry && !c.decimal && !c.interruptd && !c.overflow);
}

#[test]
fn brk_and_rti() {
    let mut c = cpu_with(&[0x00]); // BRK
    c.poke(0xFFFE, 0x00);
    c.poke(0xFFFF, 0x80);
    c.poke(0x8000, 0x40); // RTI
    c.carry = true;
    c.clock();
    assert_eq!(c.pc, 0x8000);
    assert_eq!(c.sp, 0xfa);
    assert!(c.interruptd);
    // BRK pushes the address past its padding byte.
    assert_eq!(c.peek(0x01FD), 0xC0);
    assert_eq!(c.peek(0x01FC), 0x02);
    assert_eq!(c.peek(0x01FB), 0x21);
    c.carry = false;
    c.clock();
    assert_eq!(c.pc, 0xC002);
    assert!(c.carry);
    assert!(!c.interruptd);
    assert_eq!(c.sp, 0xfd);
}

#[test]
fn nop_changes_nothing_but_pc() {
    let mut c = cpu_with(&[0xea]);
    c.acc = 3;
    c.clock();
    assert_eq!(c.acc, 3);
    assert_eq!(c.pc, 0xC001);
    let before = flags(&c);
    c.execute_nop();
    assert_eq!(flags(&c), before);
}

// Helpers.

#[test]
fn helper_functions() {
    assert_eq!(get_bit(0x80, 7), 1);
    assert_eq!(get_bit(0x80, 6), 0);
    assert!(is_negative(0x80));
    assert!(!is_negative(0x7F));
    let (op, mode, cycles, page) = lookup_opcode(0x69);
    assert_eq!(op, Operation::ADC);
    assert_eq!(mode, AddressingMode::Immediate);
    assert_eq!((cycles, page), (2, 0));
    assert!(Operation::ADC.is_implemented());
    assert!(!Operation::KIL.is_implemented());
    let i = Instruction { op: Operation::JMP, mode: AddressingMode::Absolute, mode_args: 0x1234, write_target: Some(0x10) };
    assert!(!i.should_advance_pc());
    assert_eq!(i.operand_byte(), 0x34);
    let j = Instruction { op: Operation::LDA, ..i };
    assert!(j.should_advance_pc());
}

#[test]
fn ram_reads_back_writes() {
    let mut r = Ram::new(0x10000);
    assert!(r.is_valid());
    r.poke(0xABCD, 0x12);
    assert_eq!(r.peek(0xABCD), 0x12);
    assert_eq!(r.peek(0xABCE), 0);
    assert!(!Ram::new(10).is_valid());
    let n = NullAddressSpace::new();
    assert_eq!(n.peek(0xABCD), 0);
}
