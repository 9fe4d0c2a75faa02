use rust_nes_emulator::cpu::CPU;
use rust_nes_emulator::flags::CpuFlags;
use rust_nes_emulator::machine::Status;
use rust_nes_emulator::opcodes::AddressingMode;

fn started(program: Vec<u8>) -> CPU {
    let mut cpu = CPU::default();
    cpu.load(program);
    cpu.reset();
    cpu
}

fn finished(program: Vec<u8>) -> CPU {
    let mut cpu = started(program);
    assert_eq!(cpu.run(), Status::Halted);
    cpu
}

fn steps(cpu: &mut CPU, count: usize) {
    for _ in 0..count {
        assert_eq!(cpu.step(), Status::Running);
    }
}

#[test]
fn sta_stx_sty_store_without_touching_flags() {
    // LDA #$00; STA $10; LDX #$80; STX $11; LDY #$01; STY $12
    let mut cpu = started(vec![
        0xa9, 0x00, 0x85, 0x10, 0xa2, 0x80, 0x86, 0x11, 0xa0, 0x01, 0x84, 0x12,
    ]);
    cpu.mem_write(0x10, 0xff);
    steps(&mut cpu, 2);
    assert_eq!(cpu.mem_read(0x10), 0x00);
    assert!(cpu.flags.contains(CpuFlags::ZERO));
    steps(&mut cpu, 2);
    assert_eq!(cpu.mem_read(0x11), 0x80);
    assert!(cpu.flags.contains(CpuFlags::NEGATIV));
    steps(&mut cpu, 1);
    let before = cpu.flags.bits();
    steps(&mut cpu, 1);
    assert_eq!(cpu.mem_read(0x12), 0x01);
    assert_eq!(cpu.flags.bits(), before);
    assert_eq!(cpu.program_counter, 0x800c);
}

#[test]
fn zero_page_indexed_addresses_wrap_in_the_zero_page() {
    // LDX #$FF; LDA $80,X; LDY #$FF; LDX $81,Y
    let mut cpu = started(vec![0xa2, 0xff, 0xb5, 0x80, 0xa0, 0xff, 0xb6, 0x81]);
    cpu.mem_write(0x007f, 0x66);
    cpu.mem_write(0x0080, 0x77);
    cpu.mem_write(0x017f, 0x11);
    steps(&mut cpu, 2);
    assert_eq!(cpu.register_a, 0x66);
    steps(&mut cpu, 2);
    assert_eq!(cpu.register_x, 0x77);
}

#[test]
fn stx_zero_page_y_and_sty_zero_page_x() {
    // LDX #$07; LDY #$02; STX $10,Y; STY $10,X
    let cpu_program = vec![0xa2, 0x07, 0xa0, 0x02, 0x96, 0x10, 0x94, 0x10, 0x00];
    let mut cpu = finished(cpu_program);
    assert_eq!(cpu.mem_read(0x12), 0x07);
    assert_eq!(cpu.mem_read(0x17), 0x02);
}

#[test]
fn absolute_indexed_addresses_wrap_at_sixteen_bits() {
    // LDX #$05; LDA $0200,X; LDY #$02; LDA $FFFF,Y
    let mut cpu = started(vec![0xa2, 0x05, 0xbd, 0x00, 0x02, 0xa0, 0x02, 0xb9, 0xff, 0xff]);
    cpu.mem_write(0x0205, 0x99);
    cpu.mem_write(0x0001, 0x44);
    steps(&mut cpu, 2);
    assert_eq!(cpu.register_a, 0x99);
    assert_eq!(cpu.program_counter, 0x8005);
    steps(&mut cpu, 2);
    assert_eq!(cpu.register_a, 0x44);
    assert_eq!(cpu.program_counter, 0x800a);
}

#[test]
fn absolute_address_is_little_endian() {
    // LDA $0310
    let mut cpu = started(vec![0xad, 0x10, 0x03]);
    cpu.mem_write(0x0310, 0x21);
    cpu.mem_write(0x1003, 0x99);
    steps(&mut cpu, 1);
    assert_eq!(cpu.register_a, 0x21);
}

#[test]
fn indirect_x_reads_its_pointer_from_the_zero_page() {
    // LDX #$04; LDA ($20,X)
    let mut cpu = started(vec![0xa2, 0x04, 0xa1, 0x20]);
    cpu.mem_write(0x24, 0x74);
    cpu.mem_write(0x25, 0x02);
    cpu.mem_write(0x0274, 0x5a);
    steps(&mut cpu, 2);
    assert_eq!(cpu.register_a, 0x5a);
}

#[test]
fn indirect_x_pointer_wraps_in_the_zero_page() {
    // LDX #$01; LDA ($FE,X): the pointer is at $FF and $00
    let mut cpu = started(vec![0xa2, 0x01, 0xa1, 0xfe]);
    cpu.mem_write(0x00ff, 0x34);
    cpu.mem_write(0x0000, 0x02);
    cpu.mem_write(0x0100, 0x07);
    cpu.mem_write(0x0234, 0xa5);
    cpu.mem_write(0x0734, 0x5a);
    steps(&mut cpu, 2);
    assert_eq!(cpu.register_a, 0xa5);
}

#[test]
fn indirect_y_adds_y_after_the_pointer_is_read() {
    // LDY #$10; LDA ($86),Y
    let mut cpu = started(vec![0xa0, 0x10, 0xb1, 0x86]);
    cpu.mem_write(0x86, 0x28);
    cpu.mem_write(0x87, 0x02);
    cpu.mem_write(0x0238, 0x3c);
    steps(&mut cpu, 2);
    assert_eq!(cpu.register_a, 0x3c);
}

#[test]
fn indirect_y_pointer_wraps_in_the_zero_page_and_sum_wraps() {
    // LDY #$02; LDA ($FF),Y: pointer bytes at $FF and $00 give $FFFF
    let mut cpu = started(vec![0xa0, 0x02, 0xb1, 0xff]);
    cpu.mem_write(0x00ff, 0xff);
    cpu.mem_write(0x0000, 0xff);
    cpu.mem_write(0x0001, 0x4d);
    steps(&mut cpu, 2);
    assert_eq!(cpu.register_a, 0x4d);
}

#[test]
fn get_operand_address_follows_each_mode() {
    let mut cpu = started(vec![0x10, 0x02]);
    cpu.register_x = 0x03;
    cpu.register_y = 0x05;
    cpu.mem_write(0x0010, 0x40);
    cpu.mem_write(0x0011, 0x01);
    cpu.mem_write(0x0013, 0x50);
    cpu.mem_write(0x0014, 0x06);
    cpu.mem_write(0x0210, 0xcd);
    cpu.mem_write(0x0211, 0xab);
    assert_eq!(cpu.program_counter, 0x8000);
    assert_eq!(cpu.get_operand_address(&AddressingMode::Immediate), 0x8000);
    assert_eq!(cpu.get_operand_address(&AddressingMode::ZeroPage), 0x0010);
    assert_eq!(cpu.get_operand_address(&AddressingMode::ZeroPageX), 0x0013);
    assert_eq!(cpu.get_operand_address(&AddressingMode::ZeroPageY), 0x0015);
    assert_eq!(cpu.get_operand_address(&AddressingMode::Absolute), 0x0210);
    assert_eq!(cpu.get_operand_address(&AddressingMode::AbsoluteX), 0x0213);
    assert_eq!(cpu.get_operand_address(&AddressingMode::AbsoluteY), 0x0215);
    assert_eq!(cpu.get_operand_address(&AddressingMode::Indirect), 0xabcd);
    assert_eq!(cpu.get_operand_address(&AddressingMode::IndirectX), 0x0650);
    assert_eq!(cpu.get_operand_address(&AddressingMode::IndirectY), 0x0145);
    assert_eq!(cpu.get_absolute_address(&AddressingMode::ZeroPage, 0x8001), 0x0002);
    assert_eq!(cpu.get_absolute_address(&AddressingMode::Immediate, 0x1234), 0x1234);
    assert_eq!(cpu.program_counter, 0x8000);
}

#[test]
fn jmp_absolute_sets_the_program_counter() {
    // JMP $8005; LDA #$01 is skipped; LDX #$02
    let cpu = finished(vec![0x4c, 0x05, 0x80, 0xa9, 0x01, 0xa2, 0x02, 0x00]);
    assert_eq!(cpu.register_a, 0);
    assert_eq!(cpu.register_x, 2);
}

#[test]
fn jmp_indirect_takes_the_high_byte_from_the_same_page() {
    // JMP ($02FF)
    let mut cpu = started(vec![0x6c, 0xff, 0x02]);
    cpu.mem_write(0x02ff, 0x34);
    cpu.mem_write(0x0200, 0x12);
    cpu.mem_write(0x0300, 0x56);
    steps(&mut cpu, 1);
    assert_eq!(cpu.program_counter, 0x1234);
}

#[test]
fn jmp_indirect_away_from_the_page_end_reads_two_neighbours() {
    // JMP ($0210)
    let mut cpu = started(vec![0x6c, 0x10, 0x02]);
    cpu.mem_write(0x0210, 0x78);
    cpu.mem_write(0x0211, 0x06);
    steps(&mut cpu, 1);
    assert_eq!(cpu.program_counter, 0x0678);
}

#[test]
fn jsr_pushes_the_address_of_its_last_byte_and_rts_returns_behind_it() {
    // 8000 JSR $8006; 8003 LDX #$01; 8005 BRK; 8006 LDA #$07; 8008 RTS
    let mut cpu = started(vec![0x20, 0x06, 0x80, 0xa2, 0x01, 0x00, 0xa9, 0x07, 0x60]);
    steps(&mut cpu, 1);
    assert_eq!(cpu.program_counter, 0x8006);
    assert_eq!(cpu.stack_pointer, 0xfb);
    assert_eq!(cpu.mem_read(0x01fd), 0x80);
    assert_eq!(cpu.mem_read(0x01fc), 0x02);
    steps(&mut cpu, 2);
    assert_eq!(cpu.program_counter, 0x8003);
    assert_eq!(cpu.stack_pointer, 0xfd);
    assert_eq!(cpu.run(), Status::Halted);
    assert_eq!(cpu.register_a, 0x07);
    assert_eq!(cpu.register_x, 0x01);
    assert_eq!(cpu.program_counter, 0x8006);
}

#[test]
fn rti_pulls_status_then_program_counter() {
    // LDA #$12; PHA; LDA #$34; PHA; LDA #$D3; PHA; RTI
    let mut cpu = started(vec![0xa9, 0x12, 0x48, 0xa9, 0x34, 0x48, 0xa9, 0xd3, 0x48, 0x40]);
    steps(&mut cpu, 7);
    assert_eq!(cpu.program_counter, 0x1234);
    assert_eq!(cpu.flags.bits(), 0xe3);
    assert_eq!(cpu.stack_pointer, 0xfd);
}

#[test]
fn pha_then_pla_gives_the_byte_back() {
    // LDA #$42; PHA; LDA #$00; PLA
    let mut cpu = started(vec![0xa9, 0x42, 0x48, 0xa9, 0x00, 0x68]);
    steps(&mut cpu, 2);
    assert_eq!(cpu.stack_pointer, 0xfc);
    assert_eq!(cpu.mem_read(0x01fd), 0x42);
    steps(&mut cpu, 1);
    assert!(cpu.flags.contains(CpuFlags::ZERO));
    steps(&mut cpu, 1);
    assert_eq!(cpu.register_a, 0x42);
    assert_eq!(cpu.stack_pointer, 0xfd);
    assert!(!cpu.flags.contains(CpuFlags::ZERO));
    assert!(!cpu.flags.contains(CpuFlags::NEGATIV));
}

#[test]
fn pla_updates_zero_and_negative() {
    // LDA #$80; PHA; LDA #$00; PHA; LDA #$01; PLA; PLA
    let mut cpu = started(vec![0xa9, 0x80, 0x48, 0xa9, 0x00, 0x48, 0xa9, 0x01, 0x68, 0x68]);
    steps(&mut cpu, 6);
    assert_eq!(cpu.register_a, 0x00);
    assert!(cpu.flags.contains(CpuFlags::ZERO));
    steps(&mut cpu, 1);
    assert_eq!(cpu.register_a, 0x80);
    assert!(cpu.flags.contains(CpuFlags::NEGATIV));
    assert!(!cpu.flags.contains(CpuFlags::ZERO));
}

#[test]
fn php_pushes_status_with_break_and_unused_set() {
    // PHP
    let mut cpu = started(vec![0x08]);
    steps(&mut cpu, 1);
    assert_eq!(cpu.mem_read(0x01fd), 0x34);
    assert_eq!(cpu.flags.bits(), 0x24);
    assert_eq!(cpu.stack_pointer, 0xfc);
}

#[test]
fn plp_clears_break_and_sets_unused() {
    // LDA #$FF; PHA; PLP; LDA #$00; PHA; PLP
    let mut cpu = started(vec![0xa9, 0xff, 0x48, 0x28, 0xa9, 0x00, 0x48, 0x28]);
    steps(&mut cpu, 3);
    assert_eq!(cpu.flags.bits(), 0xef);
    steps(&mut cpu, 3);
    assert_eq!(cpu.flags.bits(), 0x20);
}

#[test]
fn stack_pointer_wraps_inside_page_one() {
    let mut cpu = CPU::default();
    cpu.stack_pointer = 0x00;
    cpu.stack_push(0xaa);
    assert_eq!(cpu.stack_pointer, 0xff);
    assert_eq!(cpu.mem_read(0x0100), 0xaa);
    cpu.stack_push(0xbb);
    assert_eq!(cpu.stack_pointer, 0xfe);
    assert_eq!(cpu.mem_read(0x01ff), 0xbb);
    assert_eq!(cpu.stack_pop(), 0xbb);
    assert_eq!(cpu.stack_pop(), 0xaa);
    assert_eq!(cpu.stack_pointer, 0x00);
}

#[test]
fn stack_words_go_high_byte_first() {
    let mut cpu = CPU::default();
    cpu.stack_push_u16(0xbeef);
    assert_eq!(cpu.stack_pointer, 0xfb);
    assert_eq!(cpu.mem_read(0x01fd), 0xbe);
    assert_eq!(cpu.mem_read(0x01fc), 0xef);
    assert_eq!(cpu.stack_pop_u16(), 0xbeef);
    assert_eq!(cpu.stack_pointer, 0xfd);
}

#[test]
fn transfers_copy_and_update_flags_except_txs() {
    // LDA #$80; TAX; TAY; LDX #$00; TXA; LDY #$7F; TYA; TSX; LDX #$00; TXS
    let mut cpu = started(vec![
        0xa9, 0x80, 0xaa, 0xa8, 0xa2, 0x00, 0x8a, 0xa0, 0x7f, 0x98, 0xba, 0xa2, 0x00, 0x9a,
    ]);
    steps(&mut cpu, 3);
    assert_eq!(cpu.register_x, 0x80);
    assert_eq!(cpu.register_y, 0x80);
    assert!(cpu.flags.contains(CpuFlags::NEGATIV));
    steps(&mut cpu, 2);
    assert_eq!(cpu.register_a, 0x00);
    assert!(cpu.flags.contains(CpuFlags::ZERO));
    steps(&mut cpu, 2);
    assert_eq!(cpu.register_a, 0x7f);
    assert!(!cpu.flags.contains(CpuFlags::ZERO));
    assert!(!cpu.flags.contains(CpuFlags::NEGATIV));
    steps(&mut cpu, 1);
    assert_eq!(cpu.register_x, 0xfd);
    assert!(cpu.flags.contains(CpuFlags::NEGATIV));
    steps(&mut cpu, 1);
    assert!(cpu.flags.contains(CpuFlags::ZERO));
    let before = cpu.flags.bits();
    steps(&mut cpu, 1);
    assert_eq!(cpu.stack_pointer, 0x00);
    assert_eq!(cpu.flags.bits(), before);
}

#[test]
fn logical_instructions_combine_a_with_the_operand() {
    // LDA #$F0; AND #$3C; EOR #$FF; ORA #$10; AND #$00
    let mut cpu = started(vec![0xa9, 0xf0, 0x29, 0x3c, 0x49, 0xff, 0x09, 0x10, 0x29, 0x00]);
    steps(&mut cpu, 2);
    assert_eq!(cpu.register_a, 0x30);
    assert!(!cpu.flags.contains(CpuFlags::NEGATIV));
    steps(&mut cpu, 1);
    assert_eq!(cpu.register_a, 0xcf);
    assert!(cpu.flags.contains(CpuFlags::NEGATIV));
    steps(&mut cpu, 1);
    assert_eq!(cpu.register_a, 0xdf);
    steps(&mut cpu, 1);
    assert_eq!(cpu.register_a, 0x00);
    assert!(cpu.flags.contains(CpuFlags::ZERO));
    assert!(!cpu.flags.contains(CpuFlags::NEGATIV));
}

#[test]
fn bit_tests_without_changing_a() {
    // LDA #$01; BIT $10; LDA #$40; BIT $0211
    let mut cpu = started(vec![0xa9, 0x01, 0x24, 0x10, 0xa9, 0x40, 0x2c, 0x11, 0x02]);
    cpu.mem_write(0x0010, 0xc0);
    cpu.mem_write(0x0211, 0x41);
    steps(&mut cpu, 2);
    assert_eq!(cpu.register_a, 0x01);
    assert!(cpu.flags.contains(CpuFlags::ZERO));
    assert!(cpu.flags.contains(CpuFlags::NEGATIV));
    assert!(cpu.flags.contains(CpuFlags::OVERFLOW));
    steps(&mut cpu, 2);
    assert_eq!(cpu.register_a, 0x40);
    assert!(!cpu.flags.contains(CpuFlags::ZERO));
    assert!(!cpu.flags.contains(CpuFlags::NEGATIV));
    assert!(cpu.flags.contains(CpuFlags::OVERFLOW));
}

#[test]
fn adc_takes_the_carry_in_and_gives_the_carry_out() {
    // SEC; LDA #$FF; ADC #$00
    let mut cpu = started(vec![0x38, 0xa9, 0xff, 0x69, 0x00]);
    steps(&mut cpu, 3);
    assert_eq!(cpu.register_a, 0x00);
    assert!(cpu.flags.contains(CpuFlags::CARRY));
    assert!(cpu.flags.contains(CpuFlags::ZERO));
    assert!(!cpu.flags.contains(CpuFlags::OVERFLOW));
    assert!(!cpu.flags.contains(CpuFlags::NEGATIV));
}

#[test]
fn adc_of_two_negatives_overflows_to_positive() {
    // CLC; LDA #$D0; ADC #$90
    let mut cpu = started(vec![0x18, 0xa9, 0xd0, 0x69, 0x90]);
    steps(&mut cpu, 3);
    assert_eq!(cpu.register_a, 0x60);
    assert!(cpu.flags.contains(CpuFlags::CARRY));
    assert!(cpu.flags.contains(CpuFlags::OVERFLOW));
    assert!(!cpu.flags.contains(CpuFlags::NEGATIV));
}

#[test]
fn adc_without_overflow_or_carry() {
    // CLC; LDA #$50; ADC #$10
    let mut cpu = started(vec![0x18, 0xa9, 0x50, 0x69, 0x10]);
    steps(&mut cpu, 3);
    assert_eq!(cpu.register_a, 0x60);
    assert!(!cpu.flags.contains(CpuFlags::CARRY));
    assert!(!cpu.flags.contains(CpuFlags::OVERFLOW));
}

#[test]
fn add_to_register_a_adds_operand_and_carry() {
    let mut cpu = CPU::default();
    cpu.register_a = 0x7f;
    cpu.flags.insert(CpuFlags::CARRY);
    cpu.add_to_register_a(0x00);
    assert_eq!(cpu.register_a, 0x80);
    assert!(!cpu.flags.contains(CpuFlags::CARRY));
    assert!(cpu.flags.contains(CpuFlags::OVERFLOW));
    assert!(cpu.flags.contains(CpuFlags::NEGATIV));
}

#[test]
fn sbc_subtracts_with_the_carry_as_inverted_borrow() {
    // SEC; LDA #$05; SBC #$03; CLC; SBC #$01
    let mut cpu = started(vec![0x38, 0xa9, 0x05, 0xe9, 0x03, 0x18, 0xe9, 0x01]);
    steps(&mut cpu, 3);
    assert_eq!(cpu.register_a, 0x02);
    assert!(cpu.flags.contains(CpuFlags::CARRY));
    assert!(!cpu.flags.contains(CpuFlags::OVERFLOW));
    steps(&mut cpu, 2);
    assert_eq!(cpu.register_a, 0x00);
    assert!(cpu.flags.contains(CpuFlags::CARRY));
    assert!(cpu.flags.contains(CpuFlags::ZERO));
}

#[test]
fn sbc_borrow_and_signed_overflow() {
    // SEC; LDA #$50; SBC #$F0; SEC; LDA #$50; SBC #$B0
    let mut cpu = started(vec![0x38, 0xa9, 0x50, 0xe9, 0xf0, 0x38, 0xa9, 0x50, 0xe9, 0xb0]);
    steps(&mut cpu, 3);
    assert_eq!(cpu.register_a, 0x60);
    assert!(!cpu.flags.contains(CpuFlags::CARRY));
    assert!(!cpu.flags.contains(CpuFlags::OVERFLOW));
    steps(&mut cpu, 3);
    assert_eq!(cpu.register_a, 0xa0);
    assert!(!cpu.flags.contains(CpuFlags::CARRY));
    assert!(cpu.flags.contains(CpuFlags::OVERFLOW));
    assert!(cpu.flags.contains(CpuFlags::NEGATIV));
}

#[test]
fn adc_then_sbc_restores_a_when_the_addition_changed_carry() {
    // CLC; LDA #$F0; ADC #$20; SBC #$20
    let mut cpu = started(vec![0x18, 0xa9, 0xf0, 0x69, 0x20, 0xe9, 0x20]);
    steps(&mut cpu, 3);
    assert_eq!(cpu.register_a, 0x10);
    assert!(cpu.flags.contains(CpuFlags::CARRY));
    steps(&mut cpu, 1);
    assert_eq!(cpu.register_a, 0xf0);
    // SEC; LDA #$10; ADC #$20; SBC #$20
    let mut cpu = started(vec![0x38, 0xa9, 0x10, 0x69, 0x20, 0xe9, 0x20]);
    steps(&mut cpu, 3);
    assert_eq!(cpu.register_a, 0x31);
    assert!(!cpu.flags.contains(CpuFlags::CARRY));
    steps(&mut cpu, 1);
    assert_eq!(cpu.register_a, 0x10);
}

#[test]
fn adc_then_sbc_is_off_by_one_when_the_addition_kept_carry() {
    // CLC; LDA #$00; ADC #$00; SBC #$00
    let mut cpu = started(vec![0x18, 0xa9, 0x00, 0x69, 0x00, 0xe9, 0x00]);
    steps(&mut cpu, 4);
    assert_eq!(cpu.register_a, 0xff);
    // SEC; LDA #$F0; ADC #$20; SBC #$20
    let mut cpu = started(vec![0x38, 0xa9, 0xf0, 0x69, 0x20, 0xe9, 0x20]);
    steps(&mut cpu, 4);
    assert_eq!(cpu.register_a, 0xf1);
}

#[test]
fn compare_sets_carry_when_operand_is_not_above_register() {
    // LDA #$10; CMP #$10; CMP #$20; CMP #$05
    let mut cpu = started(vec![0xa9, 0x10, 0xc9, 0x10, 0xc9, 0x20, 0xc9, 0x05]);
    steps(&mut cpu, 2);
    assert!(cpu.flags.contains(CpuFlags::CARRY));
    assert!(cpu.flags.contains(CpuFlags::ZERO));
    assert!(!cpu.flags.contains(CpuFlags::NEGATIV));
    steps(&mut cpu, 1);
    assert!(!cpu.flags.contains(CpuFlags::CARRY));
    assert!(!cpu.flags.contains(CpuFlags::ZERO));
    assert!(cpu.flags.contains(CpuFlags::NEGATIV));
    steps(&mut cpu, 1);
    assert!(cpu.flags.contains(CpuFlags::CARRY));
    assert!(!cpu.flags.contains(CpuFlags::ZERO));
    assert!(!cpu.flags.contains(CpuFlags::NEGATIV));
    assert_eq!(cpu.register_a, 0x10);
}

#[test]
fn cpx_and_cpy_compare_their_registers() {
    // LDX #$80; CPX #$7F; LDY #$01; CPY $10; CPY #$01
    let mut cpu = started(vec![0xa2, 0x80, 0xe0, 0x7f, 0xa0, 0x01, 0xc4, 0x10, 0xc0, 0x01]);
    cpu.mem_write(0x10, 0x02);
    steps(&mut cpu, 2);
    assert!(cpu.flags.contains(CpuFlags::CARRY));
    assert!(!cpu.flags.contains(CpuFlags::ZERO));
    assert!(!cpu.flags.contains(CpuFlags::NEGATIV));
    steps(&mut cpu, 2);
    assert!(!cpu.flags.contains(CpuFlags::CARRY));
    assert!(cpu.flags.contains(CpuFlags::NEGATIV));
    steps(&mut cpu, 1);
    assert!(cpu.flags.contains(CpuFlags::CARRY));
    assert!(cpu.flags.contains(CpuFlags::ZERO));
}

#[test]
fn compare_takes_the_register_value_as_given() {
    let mut cpu = started(vec![0x30]);
    cpu.compare(&AddressingMode::Immediate, 0x30);
    assert!(cpu.flags.contains(CpuFlags::CARRY));
    assert!(cpu.flags.contains(CpuFlags::ZERO));
    cpu.compare(&AddressingMode::Immediate, 0x2f);
    assert!(!cpu.flags.contains(CpuFlags::CARRY));
    assert!(cpu.flags.contains(CpuFlags::NEGATIV));
}

#[test]
fn inc_and_dec_wrap_memory() {
    // INC $10; DEC $10; DEC $0210; INC $0210
    let mut cpu = started(vec![0xe6, 0x10, 0xc6, 0x10, 0xce, 0x10, 0x02, 0xee, 0x10, 0x02]);
    cpu.mem_write(0x10, 0xff);
    cpu.mem_write(0x0210, 0x81);
    steps(&mut cpu, 1);
    assert_eq!(cpu.mem_read(0x10), 0x00);
    assert!(cpu.flags.contains(CpuFlags::ZERO));
    steps(&mut cpu, 1);
    assert_eq!(cpu.mem_read(0x10), 0xff);
    assert!(cpu.flags.contains(CpuFlags::NEGATIV));
    assert!(!cpu.flags.contains(CpuFlags::ZERO));
    steps(&mut cpu, 1);
    assert_eq!(cpu.mem_read(0x0210), 0x80);
    steps(&mut cpu, 1);
    assert_eq!(cpu.mem_read(0x0210), 0x81);
    assert_eq!(cpu.register_a, 0);
}

#[test]
fn dex_and_dey_wrap_below_zero() {
    // DEX; DEY; LDX #$01; DEX
    let mut cpu = started(vec![0xca, 0x88, 0xa2, 0x01, 0xca]);
    steps(&mut cpu, 2);
    assert_eq!(cpu.register_x, 0xff);
    assert_eq!(cpu.register_y, 0xff);
    assert!(cpu.flags.contains(CpuFlags::NEGATIV));
    steps(&mut cpu, 2);
    assert_eq!(cpu.register_x, 0x00);
    assert!(cpu.flags.contains(CpuFlags::ZERO));
}

#[test]
fn shifts_of_the_accumulator() {
    // LDA #$81; ASL A; LDA #$01; LSR A
    let mut cpu = started(vec![0xa9, 0x81, 0x0a, 0xa9, 0x01, 0x4a]);
    steps(&mut cpu, 2);
    assert_eq!(cpu.register_a, 0x02);
    assert!(cpu.flags.contains(CpuFlags::CARRY));
    assert!(!cpu.flags.contains(CpuFlags::NEGATIV));
    steps(&mut cpu, 2);
    assert_eq!(cpu.register_a, 0x00);
    assert!(cpu.flags.contains(CpuFlags::CARRY));
    assert!(cpu.flags.contains(CpuFlags::ZERO));
    assert_eq!(cpu.program_counter, 0x8006);
}

#[test]
fn rotates_of_the_accumulator_go_through_carry() {
    // SEC; LDA #$80; ROL A; ROR A; CLC; LDA #$40; ROL A; ROR A
    let mut cpu = started(vec![0x38, 0xa9, 0x80, 0x2a, 0x6a, 0x18, 0xa9, 0x40, 0x2a, 0x6a]);
    steps(&mut cpu, 3);
    assert_eq!(cpu.register_a, 0x01);
    assert!(cpu.flags.contains(CpuFlags::CARRY));
    steps(&mut cpu, 1);
    assert_eq!(cpu.register_a, 0x80);
    assert!(cpu.flags.contains(CpuFlags::CARRY));
    assert!(cpu.flags.contains(CpuFlags::NEGATIV));
    steps(&mut cpu, 3);
    assert_eq!(cpu.register_a, 0x80);
    assert!(!cpu.flags.contains(CpuFlags::CARRY));
    steps(&mut cpu, 1);
    assert_eq!(cpu.register_a, 0x40);
    assert!(!cpu.flags.contains(CpuFlags::CARRY));
    assert!(!cpu.flags.contains(CpuFlags::NEGATIV));
}

#[test]
fn shifts_of_memory_leave_a_alone() {
    // LDA #$FF; ASL $10; LSR $11; ASL $0212,X; LSR $13,X
    let mut cpu = started(vec![0xa9, 0xff, 0x06, 0x10, 0x46, 0x11, 0x1e, 0x12, 0x02, 0x56, 0x13]);
    cpu.mem_write(0x10, 0x40);
    cpu.mem_write(0x11, 0x03);
    cpu.mem_write(0x0212, 0x80);
    cpu.mem_write(0x13, 0x80);
    steps(&mut cpu, 2);
    assert_eq!(cpu.mem_read(0x10), 0x80);
    assert!(!cpu.flags.contains(CpuFlags::CARRY));
    assert!(cpu.flags.contains(CpuFlags::NEGATIV));
    steps(&mut cpu, 1);
    assert_eq!(cpu.mem_read(0x11), 0x01);
    assert!(cpu.flags.contains(CpuFlags::CARRY));
    assert!(!cpu.flags.contains(CpuFlags::NEGATIV));
    steps(&mut cpu, 1);
    assert_eq!(cpu.mem_read(0x0212), 0x00);
    assert!(cpu.flags.contains(CpuFlags::CARRY));
    assert!(cpu.flags.contains(CpuFlags::ZERO));
    steps(&mut cpu, 1);
    assert_eq!(cpu.mem_read(0x13), 0x40);
    assert!(!cpu.flags.contains(CpuFlags::CARRY));
    assert!(!cpu.flags.contains(CpuFlags::ZERO));
    assert_eq!(cpu.register_a, 0xff);
}

#[test]
fn rotates_of_memory_update_zero_as_well_as_negative() {
    // LDA #$01; CLC; ROL $10; ROR $11; ROR $12
    let mut cpu = started(vec![0xa9, 0x01, 0x18, 0x26, 0x10, 0x66, 0x11, 0x66, 0x12]);
    cpu.mem_write(0x10, 0x80);
    cpu.mem_write(0x11, 0x02);
    cpu.mem_write(0x12, 0x01);
    steps(&mut cpu, 3);
    assert_eq!(cpu.mem_read(0x10), 0x00);
    assert!(cpu.flags.contains(CpuFlags::CARRY));
    assert!(cpu.flags.contains(CpuFlags::ZERO));
    assert!(!cpu.flags.contains(CpuFlags::NEGATIV));
    steps(&mut cpu, 1);
    assert_eq!(cpu.mem_read(0x11), 0x81);
    assert!(!cpu.flags.contains(CpuFlags::CARRY));
    assert!(!cpu.flags.contains(CpuFlags::ZERO));
    assert!(cpu.flags.contains(CpuFlags::NEGATIV));
    steps(&mut cpu, 1);
    assert_eq!(cpu.mem_read(0x12), 0x00);
    assert!(cpu.flags.contains(CpuFlags::CARRY));
    assert!(cpu.flags.contains(CpuFlags::ZERO));
    assert!(!cpu.flags.contains(CpuFlags::NEGATIV));
    assert_eq!(cpu.register_a, 0x01);
}

#[test]
fn branch_backwards_makes_a_loop() {
    // LDX #$03; DEX; BNE -3; BRK
    let cpu = finished(vec![0xa2, 0x03, 0xca, 0xd0, 0xfd, 0x00]);
    assert_eq!(cpu.register_x, 0);
    assert_eq!(cpu.program_counter, 0x8006);
}

#[test]
fn branch_forwards_skips_and_untaken_branch_falls_through() {
    // LDA #$00; BEQ +2; LDX #$01; LDY #$02; BNE +2; LDX #$05; BRK
    let cpu = finished(vec![
        0xa9, 0x00, 0xf0, 0x02, 0xa2, 0x01, 0xa0, 0x02, 0xf0, 0x02, 0xa2, 0x05, 0x00,
    ]);
    assert_eq!(cpu.register_x, 0x05);
    assert_eq!(cpu.register_y, 0x02);
}

#[test]
fn each_branch_tests_its_flag() {
    let cases: Vec<(u8, u8, bool)> = vec![
        (0x90, 0x00, true),
        (0x90, 0x01, false),
        (0xb0, 0x01, true),
        (0xb0, 0x00, false),
        (0xf0, 0x02, true),
        (0xf0, 0x00, false),
        (0xd0, 0x00, true),
        (0xd0, 0x02, false),
        (0x30, 0x80, true),
        (0x30, 0x00, false),
        (0x10, 0x00, true),
        (0x10, 0x80, false),
        (0x70, 0x40, true),
        (0x70, 0x00, false),
        (0x50, 0x00, true),
        (0x50, 0x40, false),
    ];
    for (opcode, status, taken) in cases {
        let mut cpu = started(vec![opcode, 0x10]);
        cpu.flags = CpuFlags::from_bits_truncate(status);
        assert_eq!(cpu.step(), Status::Running);
        let expected: u16 = if taken { 0x8012 } else { 0x8002 };
        assert_eq!(cpu.program_counter, expected);
        assert_eq!(cpu.flags.bits(), status);
    }
}

#[test]
fn branch_target_wraps_at_sixteen_bits() {
    let mut cpu = CPU::default();
    cpu.mem_write(0x0000, 0x85);
    cpu.program_counter = 0x0000;
    cpu.branch(true);
    assert_eq!(cpu.program_counter, 0xff86);
    cpu.mem_write(0x0001, 0x7f);
    cpu.program_counter = 0x0001;
    cpu.branch(true);
    assert_eq!(cpu.program_counter, 0x0081);
    cpu.program_counter = 0x0001;
    cpu.branch(false);
    assert_eq!(cpu.program_counter, 0x0001);
}

#[test]
fn branch_back_onto_its_own_operand_is_advanced_like_a_fall_through() {
    // BNE -1 leaves the counter on the offset byte, where the fetch put it
    let mut cpu = started(vec![0xd0, 0xff, 0x00]);
    steps(&mut cpu, 1);
    assert_eq!(cpu.program_counter, 0x8002);
}

#[test]
fn flag_instructions_switch_one_bit() {
    // SEC; SED; SEI; CLC; CLD; CLI; CLV
    let mut cpu = started(vec![0x38, 0xf8, 0x78, 0x18, 0xd8, 0x58, 0xb8]);
    cpu.flags = CpuFlags::from_bits_truncate(0x40);
    steps(&mut cpu, 1);
    assert_eq!(cpu.flags.bits(), 0x41);
    steps(&mut cpu, 1);
    assert_eq!(cpu.flags.bits(), 0x49);
    steps(&mut cpu, 1);
    assert_eq!(cpu.flags.bits(), 0x4d);
    steps(&mut cpu, 1);
    assert_eq!(cpu.flags.bits(), 0x4c);
    steps(&mut cpu, 1);
    assert_eq!(cpu.flags.bits(), 0x44);
    steps(&mut cpu, 1);
    assert_eq!(cpu.flags.bits(), 0x40);
    steps(&mut cpu, 1);
    assert_eq!(cpu.flags.bits(), 0x00);
}

#[test]
fn nop_only_advances() {
    let mut cpu = started(vec![0xea, 0xea]);
    cpu.register_a = 9;
    steps(&mut cpu, 2);
    assert_eq!(cpu.program_counter, 0x8002);
    assert_eq!(cpu.register_a, 9);
    assert_eq!(cpu.flags.bits(), 0x24);
    assert_eq!(cpu.stack_pointer, 0xfd);
}

#[test]
fn program_counter_wraps_at_the_end_of_the_address_space() {
    let mut cpu = CPU::default();
    let mut image = vec![0xea; 0x8000];
    image[0x7ffe] = 0xa9;
    image[0x7fff] = 0x33;
    cpu.load(image);
    cpu.program_counter = 0xfffe;
    steps(&mut cpu, 1);
    assert_eq!(cpu.register_a, 0x33);
    assert_eq!(cpu.program_counter, 0x0000);
}

#[test]
fn update_flag_helpers_follow_the_value() {
    let mut cpu = CPU::default();
    cpu.update_zero_flag(0);
    assert_eq!(cpu.flags.bits(), 0x26);
    cpu.update_zero_flag(1);
    assert_eq!(cpu.flags.bits(), 0x24);
    cpu.update_negative_flag(0x80);
    assert_eq!(cpu.flags.bits(), 0xa4);
    cpu.update_negative_flag(0x7f);
    assert_eq!(cpu.flags.bits(), 0x24);
    cpu.update_zero_and_negative_flags(0xff);
    assert_eq!(cpu.flags.bits(), 0xa4);
    cpu.update_zero_and_negative_flags(0x00);
    assert_eq!(cpu.flags.bits(), 0x26);
}

#[test]
fn sum_of_a_table_in_memory() {
    // LDX #$04; LDA #$00; CLC; loop: ADC $0F,X; DEX; BNE loop; STA $20; BRK
    let mut cpu = started(vec![
        0xa2, 0x04, 0xa9, 0x00, 0x18, 0x75, 0x0f, 0xca, 0xd0, 0xfb, 0x85, 0x20, 0x00,
    ]);
    cpu.mem_write(0x10, 10);
    cpu.mem_write(0x11, 20);
    cpu.mem_write(0x12, 30);
    cpu.mem_write(0x13, 40);
    assert_eq!(cpu.run(), Status::Halted);
    assert_eq!(cpu.mem_read(0x20), 100);
    assert_eq!(cpu.register_x, 0);
}
