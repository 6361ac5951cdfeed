use emu6502::table::{build_table, opcode_defs};
use emu6502::{AddrMode, Cpu6502, Entry, Mnemonic, OpcodeTable};

fn table() -> OpcodeTable {
    build_table(&opcode_defs()).unwrap()
}

fn cpu_with(prog: &[u8], at: u16) -> Cpu6502 {
    let mut cpu = Cpu6502::default();
    cpu.load(at, &prog.to_vec());
    cpu.pc = at;
    cpu
}

#[test]
fn default_state_is_cold() {
    let cpu = Cpu6502::default();
    assert_eq!(cpu.pc, 0xfffc);
    assert_eq!(cpu.a, 0);
    assert_eq!(cpu.sp, 0);
    assert_eq!(cpu.mem.len(), 0x10000);
    assert!(cpu.mem.iter().all(|&b| b == 0));
    assert!(!cpu.c && !cpu.z && !cpu.i && !cpu.d && !cpu.b && !cpu.v && !cpu.n);
}

#[test]
fn read_write_word_little_endian() {
    let mut cpu = Cpu6502::default();
    cpu.write_word(0x10, 0xabcd);
    assert_eq!(cpu.read_byte(0x10), 0xcd);
    assert_eq!(cpu.read_byte(0x11), 0xab);
    assert_eq!(cpu.read_word(0x10), 0xabcd);
}

#[test]
fn reset_loads_vector_target() {
    let mut cpu = Cpu6502::default();
    cpu.a = 0x33;
    cpu.sp = 0x44;
    cpu.write_word(0xfffc, 0x1234);
    cpu.reset();
    assert_eq!(cpu.pc, 0x1234);
    assert_eq!(cpu.a, 0);
    assert_eq!(cpu.sp, 0);
}

#[test]
fn status_byte_layout() {
    let mut cpu = Cpu6502::default();
    assert_eq!(cpu.status(), 0x20);
    cpu.n = true;
    cpu.c = true;
    assert_eq!(cpu.status(), 0xa1);
    cpu.v = true;
    cpu.z = true;
    assert_eq!(cpu.status(), 0xe3);
}

#[test]
fn table_builds_and_is_fully_defined() {
    let t = table();
    let mut defined = 0;
    for op in 0..=255u8 {
        match t.get(op) {
            Entry::Op(d) => {
                assert_eq!(d.opcode, op);
                defined += 1;
            }
            Entry::Illegal => {}
        }
    }
    assert_eq!(defined, 151);
    match t.get(0xa9) {
        Entry::Op(d) => {
            assert_eq!(d.mnemonic, Mnemonic::Lda);
            assert_eq!(d.mode, AddrMode::Immediate);
            assert_eq!(d.cycles, 2);
        }
        Entry::Illegal => panic!("LDA immediate must be defined"),
    }
    assert!(matches!(t.get(0x02), Entry::Illegal));
}

#[test]
fn table_rejects_duplicate_opcode() {
    let mut defs = opcode_defs();
    let dup = defs[0];
    defs.push(dup);
    match build_table(&defs) {
        Ok(_) => panic!("duplicate opcode must be rejected"),
        Err(op) => assert_eq!(op, dup.opcode),
    }
}

#[test]
fn adc_positive_overflow() {
    let t = table();
    let mut cpu = cpu_with(&[0xa9, 0x50, 0x69, 0x50], 0x0600);
    assert_eq!(cpu.step(&t), Ok(2));
    assert_eq!(cpu.step(&t), Ok(2));
    assert_eq!(cpu.a, 0xa0);
    assert!(cpu.n);
    assert!(cpu.v);
    assert!(!cpu.c);
}

#[test]
fn adc_carry_and_overflow() {
    let t = table();
    let mut cpu = cpu_with(&[0xa9, 0xd0, 0x69, 0x90], 0x0600);
    assert_eq!(cpu.step(&t), Ok(2));
    assert_eq!(cpu.step(&t), Ok(2));
    assert_eq!(cpu.a, 0x60);
    assert!(cpu.c);
    assert!(cpu.v);
}

#[test]
fn adc_uses_carry_in() {
    let t = table();
    let mut cpu = cpu_with(&[0x38, 0xa9, 0x01, 0x69, 0x01], 0x0600);
    assert_eq!(cpu.step(&t), Ok(2)); // SEC
    assert_eq!(cpu.step(&t), Ok(2)); // LDA #$01
    assert_eq!(cpu.step(&t), Ok(2)); // ADC #$01 with carry in
    assert_eq!(cpu.a, 0x03);
    assert!(!cpu.c);
}

#[test]
fn sbc_subtracts_with_borrow_convention() {
    let t = table();
    let mut cpu = cpu_with(&[0xa9, 0x50, 0x38, 0xe9, 0x10], 0x0600);
    assert_eq!(cpu.step(&t), Ok(2)); // LDA #$50
    assert_eq!(cpu.step(&t), Ok(2)); // SEC
    assert_eq!(cpu.step(&t), Ok(2)); // SBC #$10
    assert_eq!(cpu.a, 0x40);
    assert!(cpu.c);
    assert!(!cpu.z && !cpu.n);
}

#[test]
fn beq_taken_same_page_costs_base_plus_one() {
    let t = table();
    let mut cpu = cpu_with(&[0xa9, 0x00, 0xf0, 0x10], 0x0600);
    assert_eq!(cpu.step(&t), Ok(2)); // LDA #$00 sets Z
    assert_eq!(cpu.step(&t), Ok(3)); // BEQ, taken, same page
    assert_eq!(cpu.pc, 0x0614);
}

#[test]
fn beq_taken_page_cross_costs_base_plus_two() {
    let t = table();
    let mut cpu = cpu_with(&[0xa9, 0x00, 0xf0, 0x20], 0x06f0);
    assert_eq!(cpu.step(&t), Ok(2));
    assert_eq!(cpu.step(&t), Ok(4)); // target 0x0714 is on another page
    assert_eq!(cpu.pc, 0x0714);
}

#[test]
fn beq_not_taken_costs_base() {
    let t = table();
    let mut cpu = cpu_with(&[0xa9, 0x01, 0xf0, 0x10], 0x0600);
    assert_eq!(cpu.step(&t), Ok(2)); // LDA #$01 clears Z
    assert_eq!(cpu.step(&t), Ok(2)); // BEQ not taken
    assert_eq!(cpu.pc, 0x0604);
}

#[test]
fn branch_backward_negative_offset() {
    let t = table();
    let mut cpu = cpu_with(&[0xa9, 0x00, 0xf0, 0xfc], 0x0600);
    assert_eq!(cpu.step(&t), Ok(2));
    assert_eq!(cpu.step(&t), Ok(3)); // BEQ back to 0x0600
    assert_eq!(cpu.pc, 0x0600);
}

#[test]
fn end_to_end_lda_adc_brk() {
    let t = table();
    let mut cpu = cpu_with(&[0xa9, 0x05, 0x69, 0x03, 0x00], 0x0600);
    assert_eq!(cpu.step(&t), Ok(2)); // LDA #$05
    assert_eq!(cpu.step(&t), Ok(2)); // ADC #$03
    assert_eq!(cpu.a, 0x08);
    assert!(!cpu.c && !cpu.z && !cpu.n);
    assert_eq!(cpu.step(&t), Ok(7)); // BRK
    assert!(cpu.i);
    assert_eq!(cpu.pc, cpu.read_word(0xfffe));
}

#[test]
fn illegal_opcode_is_reported_and_recoverable() {
    let t = table();
    let mut cpu = cpu_with(&[0x02], 0x0600);
    cpu.a = 0x11;
    cpu.x = 0x22;
    assert_eq!(cpu.step(&t), Err(0x02));
    assert_eq!(cpu.pc, 0x0601);
    assert_eq!(cpu.a, 0x11);
    assert_eq!(cpu.x, 0x22);
}

#[test]
fn stack_wraps_after_256_pushes() {
    let mut cpu = Cpu6502::default();
    cpu.sp = 0;
    cpu.a = 0x7b;
    cpu.pha();
    assert_eq!(cpu.mem[0x0100], 0x7b);
    assert_eq!(cpu.sp, 0xff);
    for k in 0..255u32 {
        cpu.a = (k % 0x100) as u8;
        cpu.pha();
    }
    assert_eq!(cpu.sp, 0, "256 pushes bring sp back to its start");
    cpu.a = 0xee;
    cpu.pha();
    assert_eq!(cpu.mem[0x0100], 0xee, "the 257th push overwrites the first slot");
}

#[test]
fn inc_dec_memory_round_trip() {
    let t = table();
    for v in [0x00u8, 0x7f, 0x80, 0xff] {
        let mut cpu = cpu_with(&[0xe6, 0x40, 0xc6, 0x40], 0x0600);
        cpu.mem[0x40] = v;
        assert_eq!(cpu.step(&t), Ok(5)); // INC $40
        assert_eq!(cpu.mem[0x40], v.wrapping_add(1));
        assert_eq!(cpu.step(&t), Ok(5)); // DEC $40
        assert_eq!(cpu.mem[0x40], v);
    }
}

#[test]
fn inx_dex_wraparound_round_trip() {
    let t = table();
    let mut cpu = cpu_with(&[0xe8, 0xca], 0x0600);
    cpu.x = 0xff;
    assert_eq!(cpu.step(&t), Ok(2)); // INX
    assert_eq!(cpu.x, 0x00);
    assert!(cpu.z);
    assert_eq!(cpu.step(&t), Ok(2)); // DEX
    assert_eq!(cpu.x, 0xff);
    assert!(cpu.n);
}

#[test]
fn lda_abs_x_page_cross_cycle() {
    let t = table();
    let mut cpu = cpu_with(&[0xbd, 0xf0, 0x12], 0x0600);
    cpu.x = 0x20;
    cpu.mem[0x1310] = 0x99;
    assert_eq!(cpu.step(&t), Ok(5)); // 4 + page cross
    assert_eq!(cpu.a, 0x99);
    assert!(cpu.n);

    let mut cpu2 = cpu_with(&[0xbd, 0x00, 0x12], 0x0600);
    cpu2.x = 0x20;
    cpu2.mem[0x1220] = 0x01;
    assert_eq!(cpu2.step(&t), Ok(4)); // same page, base cost
    assert_eq!(cpu2.a, 0x01);
}

#[test]
fn asl_accumulator_and_memory() {
    let t = table();
    let mut cpu = cpu_with(&[0xa9, 0x81, 0x0a], 0x0600);
    assert_eq!(cpu.step(&t), Ok(2)); // LDA #$81
    assert_eq!(cpu.step(&t), Ok(2)); // ASL A
    assert_eq!(cpu.a, 0x02);
    assert!(cpu.c);
    assert!(!cpu.n && !cpu.z);

    let mut cpu2 = cpu_with(&[0x06, 0x40], 0x0600);
    cpu2.mem[0x40] = 0x40;
    assert_eq!(cpu2.step(&t), Ok(5)); // ASL $40
    assert_eq!(cpu2.mem[0x40], 0x80);
    assert!(!cpu2.c);
    assert!(cpu2.n);
}

#[test]
fn lsr_rol_ror_carry_chain() {
    let t = table();
    let mut cpu = cpu_with(&[0xa9, 0x01, 0x4a, 0x6a], 0x0600);
    assert_eq!(cpu.step(&t), Ok(2)); // LDA #$01
    assert_eq!(cpu.step(&t), Ok(2)); // LSR A: a=0, C=1, Z=1
    assert_eq!(cpu.a, 0x00);
    assert!(cpu.c && cpu.z);
    assert_eq!(cpu.step(&t), Ok(2)); // ROR A: old carry enters bit 7
    assert_eq!(cpu.a, 0x80);
    assert!(!cpu.c && cpu.n);

    let mut cpu2 = cpu_with(&[0xa9, 0x80, 0x2a], 0x0600);
    cpu2.step(&t).unwrap();
    assert_eq!(cpu2.step(&t), Ok(2)); // ROL A: bit 7 leaves into carry
    assert_eq!(cpu2.a, 0x00);
    assert!(cpu2.c && cpu2.z);
}

#[test]
fn cmp_sets_carry_zero_negative() {
    let t = table();
    let mut cpu = cpu_with(&[0xa9, 0x50, 0xc9, 0x60, 0xc9, 0x50, 0xc9, 0x40], 0x0600);
    cpu.step(&t).unwrap(); // LDA #$50
    assert_eq!(cpu.step(&t), Ok(2)); // CMP #$60
    assert!(!cpu.c && !cpu.z && cpu.n);
    assert_eq!(cpu.step(&t), Ok(2)); // CMP #$50
    assert!(cpu.c && cpu.z && !cpu.n);
    assert_eq!(cpu.step(&t), Ok(2)); // CMP #$40
    assert!(cpu.c && !cpu.z && !cpu.n);
}

#[test]
fn bit_copies_operand_bits() {
    let t = table();
    let mut cpu = cpu_with(&[0xa9, 0x00, 0x24, 0x20], 0x0600);
    cpu.mem[0x20] = 0xc0;
    cpu.step(&t).unwrap(); // LDA #$00
    assert_eq!(cpu.step(&t), Ok(3)); // BIT $20
    assert!(cpu.z, "A & m == 0");
    assert!(cpu.n, "N from bit 7 of the operand");
    assert!(cpu.v, "V from bit 6 of the operand");
}

#[test]
fn jsr_rts_round_trip() {
    let t = table();
    let mut cpu = cpu_with(&[0x20, 0x00, 0x07], 0x0600);
    cpu.mem[0x0700] = 0x60; // RTS
    cpu.sp = 0xff;
    assert_eq!(cpu.step(&t), Ok(6)); // JSR $0700
    assert_eq!(cpu.pc, 0x0700);
    assert_eq!(cpu.sp, 0xfd);
    assert_eq!(cpu.mem[0x01ff], 0x06, "return address high byte");
    assert_eq!(cpu.mem[0x01fe], 0x02, "return address low byte (last byte of JSR)");
    assert_eq!(cpu.step(&t), Ok(6)); // RTS
    assert_eq!(cpu.pc, 0x0603);
    assert_eq!(cpu.sp, 0xff);
}

#[test]
fn php_plp_round_trip() {
    let t = table();
    let mut cpu = cpu_with(&[0x38, 0xf8, 0x08, 0x18, 0xd8, 0x28], 0x0600);
    cpu.sp = 0xff;
    cpu.step(&t).unwrap(); // SEC
    cpu.step(&t).unwrap(); // SED
    assert_eq!(cpu.step(&t), Ok(3)); // PHP
    cpu.step(&t).unwrap(); // CLC
    cpu.step(&t).unwrap(); // CLD
    assert!(!cpu.c && !cpu.d);
    assert_eq!(cpu.step(&t), Ok(4)); // PLP
    assert!(cpu.c && cpu.d);
}

#[test]
fn pha_pla_round_trip() {
    let t = table();
    let mut cpu = cpu_with(&[0xa9, 0x5a, 0x48, 0xa9, 0x00, 0x68], 0x0600);
    cpu.sp = 0xff;
    cpu.step(&t).unwrap(); // LDA #$5A
    assert_eq!(cpu.step(&t), Ok(3)); // PHA
    cpu.step(&t).unwrap(); // LDA #$00
    assert!(cpu.z);
    assert_eq!(cpu.step(&t), Ok(4)); // PLA
    assert_eq!(cpu.a, 0x5a);
    assert!(!cpu.z);
}

#[test]
fn rti_restores_flags_and_pc() {
    let mut cpu = Cpu6502::default();
    cpu.sp = 0xff;
    cpu.push(0x12); // pc high
    cpu.push(0x34); // pc low
    cpu.push(0x21); // status: carry set (plus the always-on bit 5)
    cpu.rti();
    assert!(cpu.c);
    assert_eq!(cpu.pc, 0x1234);
    assert_eq!(cpu.sp, 0xff);
}

#[test]
fn stores_do_not_touch_flags() {
    let t = table();
    let mut cpu = cpu_with(&[0xa9, 0x00, 0x85, 0x10, 0x86, 0x11, 0x84, 0x12], 0x0600);
    cpu.x = 0x42;
    cpu.y = 0x43;
    cpu.step(&t).unwrap(); // LDA #$00
    assert!(cpu.z);
    assert_eq!(cpu.step(&t), Ok(3)); // STA $10
    assert_eq!(cpu.step(&t), Ok(3)); // STX $11
    assert_eq!(cpu.step(&t), Ok(3)); // STY $12
    assert!(cpu.z, "stores leave the flags alone");
    assert_eq!(cpu.mem[0x10], 0x00);
    assert_eq!(cpu.mem[0x11], 0x42);
    assert_eq!(cpu.mem[0x12], 0x43);
}

#[test]
fn transfers_and_flags() {
    let t = table();
    let mut cpu = cpu_with(&[0xa9, 0x80, 0xaa, 0x9a, 0xba], 0x0600);
    cpu.step(&t).unwrap(); // LDA #$80
    assert_eq!(cpu.step(&t), Ok(2)); // TAX
    assert_eq!(cpu.x, 0x80);
    assert!(cpu.n);
    assert_eq!(cpu.step(&t), Ok(2)); // TXS: no flag change
    assert_eq!(cpu.sp, 0x80);
    assert!(cpu.n);
    cpu.sp = 0x00;
    assert_eq!(cpu.step(&t), Ok(2)); // TSX
    assert_eq!(cpu.x, 0x00);
    assert!(cpu.z);
}

#[test]
fn zp_x_wraps_inside_page_zero() {
    let t = table();
    let mut cpu = cpu_with(&[0xa2, 0x05, 0xb5, 0xfe], 0x0600);
    cpu.mem[0x03] = 0x77;
    cpu.step(&t).unwrap(); // LDX #$05
    assert_eq!(cpu.step(&t), Ok(4)); // LDA $FE,X reads (0xFE + 5) mod 256 = 0x03
    assert_eq!(cpu.a, 0x77);
}

#[test]
fn indirect_y_page_cross() {
    let t = table();
    let mut cpu = cpu_with(&[0xb1, 0x10], 0x0600);
    cpu.mem[0x10] = 0xf0;
    cpu.mem[0x11] = 0x02;
    cpu.y = 0x20;
    cpu.mem[0x0310] = 0x5a;
    assert_eq!(cpu.step(&t), Ok(6)); // 5 + page cross
    assert_eq!(cpu.a, 0x5a);
}

#[test]
fn indexed_indirect_x_reads_pointer() {
    let t = table();
    let mut cpu = cpu_with(&[0xa1, 0x20], 0x0600);
    cpu.x = 0x04;
    cpu.mem[0x24] = 0x74;
    cpu.mem[0x25] = 0x20;
    cpu.mem[0x2074] = 0x99;
    assert_eq!(cpu.step(&t), Ok(6)); // LDA ($20,X)
    assert_eq!(cpu.a, 0x99);
}

#[test]
fn jmp_absolute_and_indirect() {
    let t = table();
    let mut cpu = cpu_with(&[0x4c, 0x00, 0x07], 0x0600);
    assert_eq!(cpu.step(&t), Ok(3));
    assert_eq!(cpu.pc, 0x0700);

    let mut cpu2 = cpu_with(&[0x6c, 0x20, 0x07], 0x0600);
    cpu2.write_word(0x0720, 0x1234);
    assert_eq!(cpu2.step(&t), Ok(5));
    assert_eq!(cpu2.pc, 0x1234);
}

#[test]
fn logic_ops_and_flags() {
    let t = table();
    let mut cpu = cpu_with(&[0xa9, 0x0f, 0x29, 0xf0, 0x09, 0x80, 0x49, 0x80], 0x0600);
    cpu.step(&t).unwrap(); // LDA #$0F
    assert_eq!(cpu.step(&t), Ok(2)); // AND #$F0 -> 0
    assert_eq!(cpu.a, 0x00);
    assert!(cpu.z);
    assert_eq!(cpu.step(&t), Ok(2)); // ORA #$80
    assert_eq!(cpu.a, 0x80);
    assert!(cpu.n);
    assert_eq!(cpu.step(&t), Ok(2)); // EOR #$80 -> 0
    assert_eq!(cpu.a, 0x00);
    assert!(cpu.z);
}

#[test]
fn load_places_program_bytes() {
    let mut cpu = Cpu6502::default();
    cpu.mem[0x05ff] = 0xab;
    cpu.load(0x0600, &vec![1, 2, 3]);
    assert_eq!(cpu.mem[0x0600], 1);
    assert_eq!(cpu.mem[0x0601], 2);
    assert_eq!(cpu.mem[0x0602], 3);
    assert_eq!(cpu.mem[0x05ff], 0xab, "bytes outside the image are untouched");
    assert_eq!(cpu.mem[0x0603], 0);
}
