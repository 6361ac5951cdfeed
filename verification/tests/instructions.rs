use emu6502::table::{build_table, opcode_defs};
use emu6502::{Cpu6502, OpcodeTable};

fn table() -> OpcodeTable {
    build_table(&opcode_defs()).unwrap()
}

fn cpu_with(prog: &[u8], at: u16) -> Cpu6502 {
    let mut cpu = Cpu6502::default();
    cpu.load(at, &prog.to_vec());
    cpu.pc = at;
    cpu
}

#[test]
fn cpx_cpy_compare_index_registers() {
    let t = table();
    let mut cpu = cpu_with(&[0xe0, 0x10, 0xc0, 0x30], 0x0600);
    cpu.x = 0x10;
    cpu.y = 0x20;
    assert_eq!(cpu.step(&t), Ok(2)); // CPX #$10
    assert!(cpu.c && cpu.z && !cpu.n);
    assert_eq!(cpu.step(&t), Ok(2)); // CPY #$30
    assert!(!cpu.c && !cpu.z && cpu.n);
}

#[test]
fn ldx_zp_y_and_ldy_zp_x() {
    let t = table();
    let mut cpu = cpu_with(&[0xb6, 0x40, 0xb4, 0x50], 0x0600);
    cpu.y = 0x02;
    cpu.x = 0x03;
    cpu.mem[0x42] = 0x80;
    cpu.mem[0x53] = 0x00;
    assert_eq!(cpu.step(&t), Ok(4)); // LDX $40,Y
    assert_eq!(cpu.x, 0x80);
    assert!(cpu.n);
    assert_eq!(cpu.step(&t), Ok(4)); // LDY $50,X (uses the new X)
    assert_eq!(cpu.y, 0x00);
    assert!(cpu.z);
}

#[test]
fn iny_dey_wraparound_round_trip() {
    let t = table();
    let mut cpu = cpu_with(&[0x88, 0xc8], 0x0600);
    cpu.y = 0x00;
    assert_eq!(cpu.step(&t), Ok(2)); // DEY: 0x00 -> 0xff
    assert_eq!(cpu.y, 0xff);
    assert!(cpu.n);
    assert_eq!(cpu.step(&t), Ok(2)); // INY: back to 0x00
    assert_eq!(cpu.y, 0x00);
    assert!(cpu.z);
}

#[test]
fn clv_clears_overflow_and_bvc_branches() {
    let t = table();
    let mut cpu = cpu_with(&[0xb8, 0x50, 0x04], 0x0600);
    cpu.v = true;
    assert_eq!(cpu.step(&t), Ok(2)); // CLV
    assert!(!cpu.v);
    assert_eq!(cpu.step(&t), Ok(3)); // BVC, taken, same page
    assert_eq!(cpu.pc, 0x0607);
}

#[test]
fn interrupt_and_decimal_flag_ops() {
    let t = table();
    let mut cpu = cpu_with(&[0x78, 0xf8, 0x58, 0xd8], 0x0600);
    assert_eq!(cpu.step(&t), Ok(2)); // SEI
    assert!(cpu.i);
    assert_eq!(cpu.step(&t), Ok(2)); // SED
    assert!(cpu.d);
    assert_eq!(cpu.step(&t), Ok(2)); // CLI
    assert!(!cpu.i);
    assert_eq!(cpu.step(&t), Ok(2)); // CLD
    assert!(!cpu.d);
}

#[test]
fn nop_only_advances_pc() {
    let t = table();
    let mut cpu = cpu_with(&[0xea], 0x0600);
    cpu.a = 0x12;
    cpu.c = true;
    assert_eq!(cpu.step(&t), Ok(2));
    assert_eq!(cpu.pc, 0x0601);
    assert_eq!(cpu.a, 0x12);
    assert!(cpu.c);
}

#[test]
fn brk_pushes_return_address_and_status() {
    let t = table();
    let mut cpu = cpu_with(&[0x00], 0x0600);
    cpu.sp = 0xff;
    cpu.c = true;
    cpu.write_word(0xfffe, 0x0800);
    assert_eq!(cpu.step(&t), Ok(7));
    assert_eq!(cpu.pc, 0x0800);
    assert!(cpu.i);
    assert_eq!(cpu.sp, 0xfc);
    assert_eq!(cpu.mem[0x01ff], 0x06, "pushed return address high byte");
    assert_eq!(cpu.mem[0x01fe], 0x02, "pushed return address low byte (pc + 2)");
    assert_eq!(cpu.mem[0x01fd], 0x21, "pushed status: carry and the always-on bit 5");
}

#[test]
fn sbc_with_borrow_clears_carry() {
    let t = table();
    let mut cpu = cpu_with(&[0xa9, 0x10, 0x38, 0xe9, 0x20], 0x0600);
    cpu.step(&t).unwrap(); // LDA #$10
    cpu.step(&t).unwrap(); // SEC
    assert_eq!(cpu.step(&t), Ok(2)); // SBC #$20
    assert_eq!(cpu.a, 0xf0);
    assert!(!cpu.c, "borrow leaves the carry clear");
    assert!(cpu.n);
}

#[test]
fn sta_indexed_has_fixed_cost() {
    let t = table();
    let mut cpu = cpu_with(&[0xa9, 0x33, 0x9d, 0xf0, 0x12], 0x0600);
    cpu.x = 0x20;
    cpu.step(&t).unwrap(); // LDA #$33
    assert_eq!(cpu.step(&t), Ok(5), "STA abs,X costs 5 even across a page");
    assert_eq!(cpu.mem[0x1310], 0x33);
}

#[test]
fn ror_memory_in_place() {
    let t = table();
    let mut cpu = cpu_with(&[0x66, 0x40], 0x0600);
    cpu.mem[0x40] = 0x03;
    cpu.c = false;
    assert_eq!(cpu.step(&t), Ok(5)); // ROR $40
    assert_eq!(cpu.mem[0x40], 0x01);
    assert!(cpu.c);
    assert_eq!(cpu.a, 0, "accumulator untouched by a memory rotate");
}

#[test]
fn eor_ora_and_zero_page_modes() {
    let t = table();
    let mut cpu = cpu_with(&[0xa9, 0xff, 0x45, 0x21, 0x05, 0x22, 0x25, 0x23], 0x0600);
    cpu.mem[0x21] = 0x0f;
    cpu.mem[0x22] = 0x08;
    cpu.mem[0x23] = 0x3c;
    cpu.step(&t).unwrap(); // LDA #$FF
    assert_eq!(cpu.step(&t), Ok(3)); // EOR $21
    assert_eq!(cpu.a, 0xf0);
    assert_eq!(cpu.step(&t), Ok(3)); // ORA $22
    assert_eq!(cpu.a, 0xf8);
    assert_eq!(cpu.step(&t), Ok(3)); // AND $23
    assert_eq!(cpu.a, 0x38);
}

#[test]
fn adc_zero_result_sets_zero_and_carry() {
    let t = table();
    let mut cpu = cpu_with(&[0xa9, 0xff, 0x69, 0x01], 0x0600);
    cpu.step(&t).unwrap(); // LDA #$FF
    assert_eq!(cpu.step(&t), Ok(2)); // ADC #$01
    assert_eq!(cpu.a, 0x00);
    assert!(cpu.z && cpu.c && !cpu.n && !cpu.v);
}

#[test]
fn fetch_word_is_little_endian_and_wraps_pc() {
    let mut cpu = Cpu6502::default();
    cpu.mem[0xffff] = 0x34;
    cpu.mem[0x0000] = 0x12;
    cpu.pc = 0xffff;
    let w = cpu.fetch_word();
    assert_eq!(w, 0x1234, "high byte read past the top of the address space");
    assert_eq!(cpu.pc, 0x0001, "pc wraps around");
}

#[test]
fn tay_tya_move_accumulator() {
    let t = table();
    let mut cpu = cpu_with(&[0xa9, 0x7f, 0xa8, 0xa9, 0x00, 0x98], 0x0600);
    cpu.step(&t).unwrap(); // LDA #$7F
    assert_eq!(cpu.step(&t), Ok(2)); // TAY
    assert_eq!(cpu.y, 0x7f);
    cpu.step(&t).unwrap(); // LDA #$00
    assert_eq!(cpu.step(&t), Ok(2)); // TYA
    assert_eq!(cpu.a, 0x7f);
    assert!(!cpu.z && !cpu.n);
}
