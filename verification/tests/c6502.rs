use lib::c6502::create_test_cpu;
use lib::step::run_clocks;

#[test]
fn test_bit() {
    let program: Vec<u8> = vec![
        0xa9, 0xff, // LDA #255
        0x85, 0x01, // STA $01
        0x24, 0x01, // BIT $01
    ];
    let mut c = create_test_cpu(&program);
    c.clock();
    c.clock();
    c.clock();
    println!("STATUS REGISTER {}", c.status_register_byte(true));
    assert!(c.overflow);
}

#[test]
fn test_subroutine() {
    let program: Vec<u8> = vec![
        0x20, 0x03, 0xC0, // JSR $C003
        0x60, // RTS
    ];
    let mut c = create_test_cpu(&program);
    c.is_tracing = true;
    c.clock();
    c.clock();
    assert_eq!(c.pc, 0xC003);
}

#[test]
fn test_flags() {
    let program: Vec<u8> = vec![
        0xA9, 0xFF, // LDA #$FF
        0x85, 0x01, // STA $01 = 00
        0x24, 0x01, // BIT $01 = FF
        0xa9, 0x00, // LDA #$00
        0x38, // SEC
        0x78, // SEI
        0xf8, // SED
        0x08, // PHP
        0x68, // PLA
    ];
    let mut c = create_test_cpu(&program);
    run_clocks(&mut c, 9);
    assert_eq!(c.acc, 111);
}

#[test]
fn test_adc() {
    let program: Vec<u8> = vec![
        0xA9, 0x00, // LDA #$00
        0x69, 0x69, // ADC #$69
    ];
    let mut c = create_test_cpu(&program);
    c.set_status_register_from_byte(0x6E);
    run_clocks(&mut c, 2);
    assert_eq!(c.status_register_byte(true), 0x2c);
}

#[test]
fn test_bcc() {
    let program: Vec<u8> = vec![0x90, 0x09]; // BCC #$09
    let mut c = create_test_cpu(&program);
    c.set_status_register_from_byte(0xf9);
    assert_eq!(c.carry, true);
    let pc = c.pc;
    c.clock();
    assert_eq!(c.pc - pc, 2); // Branch not taken
}

#[test]
fn test_cmp() {
    let program: Vec<u8> = vec![0xc9, 0x4d]; // CMP #$4D
    let mut c = create_test_cpu(&program);
    c.acc = 0x4D;
    c.set_status_register_from_byte(0x27);
    c.clock();
    assert_eq!(c.status_register_byte(true), 0x27);
}

#[test]
fn test_jsr() {
    let program: Vec<u8> = vec![
        0x20, 0x03, 0xc0, // JSR $c003
        0x68, // PLA
    ];
    let mut c = create_test_cpu(&program);
    run_clocks(&mut c, 2);
    assert_eq!(c.acc, 0x02);
}

#[test]
fn test_lsr() {
    let program: Vec<u8> = vec![
        0xa9, 0x01, // LDA #$01
        0x4a, // LSR
    ];
    let mut c = create_test_cpu(&program);
    c.set_status_register_from_byte(0x65);
    run_clocks(&mut c, 2);
    assert_eq!(c.status_register_byte(true), 0x67);
}

#[test]
fn test_asl() {
    let program: Vec<u8> = vec![
        0xa9, 0x80, // LDA #$80
        0xa, // ASL
    ];
    let mut c = create_test_cpu(&program);
    c.is_tracing = true;
    c.set_status_register_from_byte(0xe5);
    run_clocks(&mut c, 2);
    assert_eq!(c.acc, 0);
    assert_eq!(c.status_register_byte(true), 0x67);
}

#[test]
fn test_ror() {
    let program: Vec<u8> = vec![
        0xa9, 0x55, // LDA #$55
        0x6a, // ROR
    ];
    let mut c = create_test_cpu(&program);
    c.set_status_register_from_byte(0x24);
    run_clocks(&mut c, 2);
    assert_eq!(c.acc, 0x2A);
    assert_eq!(c.status_register_byte(true), 0x25);
}
