use rust_nes_emulator::bus::Bus;
use rust_nes_emulator::cpu::CPU;
use rust_nes_emulator::flags::CpuFlags;
use rust_nes_emulator::machine::Status;
use rust_nes_emulator::ram::Ram;
use rust_nes_emulator::rom::Rom;

#[test]
fn test_lda_immidiate_load_data() {
    let mut cpu = CPU::default();
    cpu.load_and_run(vec![0xa9, 0x05, 0x00]);
    assert_eq!(cpu.register_a, 0x05);
    assert_ne!(cpu.flags.contains(CpuFlags::ZERO), true);
    assert_ne!(cpu.flags.contains(CpuFlags::NEGATIV), true);
}

#[test]
fn test_lda_from_memory() {
    let mut cpu = CPU::default();
    cpu.mem_write(0x10, 0x55);
    cpu.load_and_run(vec![0xa5, 0x10, 0x00]);
    assert_eq!(cpu.register_a, 0x55);
}

#[test]
fn test_lda_zero_flag() {
    let mut cpu = CPU::default();
    cpu.load_and_run(vec![0xa9, 0x00, 0x00]);
    assert!(cpu.flags.contains(CpuFlags::ZERO));
}

#[test]
fn test_ldx_immidiate_load_data() {
    let mut cpu = CPU::default();
    cpu.load_and_run(vec![0xa2, 0x05, 0x00]);
    assert_eq!(cpu.register_x, 0x05);
    assert_ne!(cpu.flags.contains(CpuFlags::ZERO), true);
    assert_ne!(cpu.flags.contains(CpuFlags::NEGATIV), true);
}

#[test]
fn test_ldx_from_memory() {
    let mut cpu = CPU::default();
    cpu.mem_write(0x10, 0x55);
    cpu.load_and_run(vec![0xa6, 0x10, 0x00]);
    assert_eq!(cpu.register_x, 0x55);
}

#[test]
fn test_ldx_zero_flag() {
    let mut cpu = CPU::default();
    cpu.load_and_run(vec![0xa2, 0x00, 0x00]);
    assert!(cpu.flags.contains(CpuFlags::ZERO));
}

#[test]
fn test_ldy_immidiate_load_data() {
    let mut cpu = CPU::default();
    cpu.load_and_run(vec![0xa0, 0x05, 0x00]);
    assert_eq!(cpu.register_y, 0x05);
    assert_ne!(cpu.flags.contains(CpuFlags::ZERO), true);
    assert_ne!(cpu.flags.contains(CpuFlags::NEGATIV), true);
}

#[test]
fn test_ldy_from_memory() {
    let mut cpu = CPU::default();
    cpu.mem_write(0x10, 0x55);
    cpu.load_and_run(vec![0xa4, 0x10, 0x00]);
    assert_eq!(cpu.register_y, 0x55);
}

#[test]
fn test_ldy_zero_flag() {
    let mut cpu = CPU::default();
    cpu.load_and_run(vec![0xa0, 0x00, 0x00]);
    assert!(cpu.flags.contains(CpuFlags::ZERO));
}

#[test]
fn test_inx_overflow() {
    let mut cpu = CPU::default();
    cpu.load_and_run(vec![0xa2, 0xff, 0xe8, 0xe8, 0x00]);

    assert_eq!(cpu.register_x, 1)
}

#[test]
fn test_iny_overflow() {
    let mut cpu = CPU::default();
    cpu.load_and_run(vec![0xa0, 0xff, 0xc8, 0xc8, 0x00]);

    assert_eq!(cpu.register_y, 1)
}

#[test]
fn test_lda_tax_inx_ops_working_together() {
    let mut cpu = CPU::default();
    cpu.load_and_run(vec![0xa9, 0xc0, 0xaa, 0xe8, 0x00]);

    assert_eq!(cpu.register_x, 0xc1)
}

#[test]
fn test_lda_tay_iny_ops_working_together() {
    let mut cpu = CPU::default();
    cpu.load_and_run(vec![0xa9, 0xc0, 0xa8, 0xc8, 0x00]);

    assert_eq!(cpu.register_y, 0xc1)
}

#[test]
fn test_inx_wraps_from_preset_x() {
    let mut cpu = CPU::default();
    cpu.load(vec![0xe8, 0xe8, 0x00]);
    cpu.reset();
    cpu.register_x = 0xff;
    let status = cpu.run();
    assert_eq!(status, Status::Halted);
    assert_eq!(cpu.register_x, 0x01);
    assert!(!cpu.flags.contains(CpuFlags::ZERO));
    assert!(!cpu.flags.contains(CpuFlags::NEGATIV));
}

#[test]
fn test_inx_sets_zero_from_x_and_not_from_y() {
    let mut cpu = CPU::default();
    cpu.load(vec![0xe8, 0x00]);
    cpu.reset();
    cpu.register_x = 0xff;
    cpu.register_y = 0x80;
    cpu.run();
    assert_eq!(cpu.register_x, 0x00);
    assert!(cpu.flags.contains(CpuFlags::ZERO));
    assert!(!cpu.flags.contains(CpuFlags::NEGATIV));
}

#[test]
fn test_adc_signed_overflow() {
    let mut cpu = CPU::default();
    let status = cpu.load_and_run(vec![0xa9, 0x50, 0x69, 0x50, 0x00]);
    assert_eq!(status, Status::Halted);
    assert_eq!(cpu.register_a, 0xa0);
    assert!(cpu.flags.contains(CpuFlags::OVERFLOW));
    assert!(!cpu.flags.contains(CpuFlags::CARRY));
    assert!(cpu.flags.contains(CpuFlags::NEGATIV));
    assert!(!cpu.flags.contains(CpuFlags::ZERO));
}

#[test]
fn test_new_and_reset_state() {
    let mut cpu = CPU::default();
    assert_eq!(cpu.program_counter, 0);
    assert_eq!(cpu.stack_pointer, 0xfd);
    assert_eq!(cpu.flags.bits(), 0x24);
    cpu.load(vec![0xea]);
    cpu.register_a = 1;
    cpu.register_x = 2;
    cpu.register_y = 3;
    cpu.stack_pointer = 0x10;
    cpu.flags = CpuFlags::from_bits_truncate(0xff);
    cpu.reset();
    assert_eq!(cpu.register_a, 0);
    assert_eq!(cpu.register_x, 0);
    assert_eq!(cpu.register_y, 0);
    assert_eq!(cpu.stack_pointer, 0xfd);
    assert_eq!(cpu.flags.bits(), 0x24);
    assert_eq!(cpu.program_counter, 0x8000);
}

#[test]
fn test_load_fills_program_region_and_reset_vector() {
    let mut cpu = CPU::default();
    cpu.mem_write(0x0010, 0x77);
    cpu.load(vec![0xa9, 0x05, 0x00]);
    assert_eq!(cpu.mem_read(0x8000), 0xa9);
    assert_eq!(cpu.mem_read(0x8001), 0x05);
    assert_eq!(cpu.mem_read(0x8002), 0x00);
    assert_eq!(cpu.mem_read(0x8003), 0x00);
    assert_eq!(cpu.mem_read(0xfffc), 0x00);
    assert_eq!(cpu.mem_read(0xfffd), 0x80);
    assert_eq!(cpu.mem_read_u16(0xfffc), 0x8000);
    assert_eq!(cpu.mem_read(0x0010), 0x77);
    assert_eq!(cpu.program_counter, 0);
}

#[test]
fn test_load_full_window_keeps_reset_vector() {
    let mut cpu = CPU::default();
    cpu.load(vec![0xea; 0x8000]);
    assert_eq!(cpu.mem_read(0x8000), 0xea);
    assert_eq!(cpu.mem_read(0xfffb), 0xea);
    assert_eq!(cpu.mem_read_u16(0xfffc), 0x8000);
    assert_eq!(cpu.mem_read(0xfffe), 0xea);
    assert_eq!(cpu.mem_read(0xffff), 0xea);
}

#[test]
fn test_brk_halts_behind_its_opcode_with_break_set() {
    let mut cpu = CPU::default();
    let status = cpu.load_and_run(vec![0xea, 0x00, 0xa9, 0x01]);
    assert_eq!(status, Status::Halted);
    assert_eq!(cpu.program_counter, 0x8002);
    assert!(cpu.flags.contains(CpuFlags::BREAK));
    assert_eq!(cpu.register_a, 0);
}

#[test]
fn test_unrecognized_opcode_reports_byte_and_address() {
    let mut cpu = CPU::default();
    let status = cpu.load_and_run(vec![0xa9, 0x07, 0x02, 0x00]);
    assert_eq!(status, Status::Unrecognized { opcode: 0x02, pc: 0x8002 });
    assert_eq!(cpu.program_counter, 0x8002);
    assert_eq!(cpu.register_a, 0x07);
    assert_eq!(cpu.flags.bits(), 0x24);
}

#[test]
fn test_step_returns_running_then_halted() {
    let mut cpu = CPU::default();
    cpu.load(vec![0xa9, 0x80, 0x00]);
    cpu.reset();
    assert_eq!(cpu.step(), Status::Running);
    assert_eq!(cpu.program_counter, 0x8002);
    assert_eq!(cpu.register_a, 0x80);
    assert!(cpu.flags.contains(CpuFlags::NEGATIV));
    assert_eq!(cpu.step(), Status::Halted);
    assert_eq!(cpu.program_counter, 0x8003);
}

#[test]
fn test_run_steps_stops_at_the_limit() {
    let mut cpu = CPU::default();
    // INX; JMP $8000
    cpu.load(vec![0xe8, 0x4c, 0x00, 0x80]);
    cpu.reset();
    assert_eq!(cpu.run_steps(0), Status::Running);
    assert_eq!(cpu.program_counter, 0x8000);
    assert_eq!(cpu.register_x, 0);
    assert_eq!(cpu.run_steps(7), Status::Running);
    assert_eq!(cpu.register_x, 4);
    assert_eq!(cpu.program_counter, 0x8001);
}

#[test]
fn test_run_with_callback_sees_every_completed_instruction() {
    let mut cpu = CPU::default();
    cpu.load(vec![0xa9, 0x01, 0xaa, 0xe8, 0x00]);
    cpu.reset();
    let mut seen: Vec<(u16, u8, u8)> = Vec::new();
    let status = cpu.run_with_callback(|cpu| {
        seen.push((cpu.program_counter, cpu.register_a, cpu.register_x));
    });
    assert_eq!(status, Status::Halted);
    assert_eq!(seen, vec![(0x8002, 1, 0), (0x8003, 1, 1), (0x8004, 1, 2)]);
}

#[test]
fn test_run_with_callback_may_change_the_cpu() {
    let mut cpu = CPU::default();
    // INX; JMP $8000
    cpu.load(vec![0xe8, 0x4c, 0x00, 0x80]);
    cpu.reset();
    let status = cpu.run_with_callback(|cpu| {
        if cpu.register_x == 3 {
            // address 0x0000 holds a zero, which is BRK
            cpu.program_counter = 0x0000;
        }
    });
    assert_eq!(status, Status::Halted);
    assert_eq!(cpu.register_x, 3);
    assert_eq!(cpu.program_counter, 0x0001);
}

#[test]
fn test_pc_unchanged_by_jump_is_advanced() {
    let mut cpu = CPU::default();
    // JMP $8001 leaves the counter where the fetch put it, so the
    // interpreter moves it past the operand.
    cpu.load(vec![0x4c, 0x01, 0x80, 0x00]);
    cpu.reset();
    assert_eq!(cpu.step(), Status::Running);
    assert_eq!(cpu.program_counter, 0x8003);
}

#[test]
fn test_load_keeps_the_rest_of_a_cartridge() {
    let mut cartridge = vec![0xea; 0x8000];
    cartridge[0x0002] = 0x11;
    cartridge[0x4000] = 0x22;
    cartridge[0x7ffb] = 0x33;
    cartridge[0x7ffc] = 0x44;
    cartridge[0x7ffd] = 0x55;
    cartridge[0x7ffe] = 0x66;
    cartridge[0x7fff] = 0x77;
    let mut cpu = CPU::new(Bus::new(Rom::new(cartridge), Ram::new(vec![0; 0x0800])));
    cpu.mem_write(0x0010, 0x99);
    cpu.register_a = 1;
    cpu.register_x = 2;
    cpu.register_y = 3;
    cpu.program_counter = 0x1234;
    cpu.load(vec![0xa9, 0x05]);
    assert_eq!(cpu.mem_read(0x8000), 0xa9);
    assert_eq!(cpu.mem_read(0x8001), 0x05);
    assert_eq!(cpu.mem_read(0x8002), 0x11);
    assert_eq!(cpu.mem_read(0x8003), 0xea);
    assert_eq!(cpu.mem_read(0xc000), 0x22);
    assert_eq!(cpu.mem_read(0xfffb), 0x33);
    assert_eq!(cpu.mem_read_u16(0xfffc), 0x8000);
    assert_eq!(cpu.mem_read(0xfffe), 0x66);
    assert_eq!(cpu.mem_read(0xffff), 0x77);
    assert_eq!(cpu.mem_read(0x0010), 0x99);
    assert_eq!(cpu.register_a, 1);
    assert_eq!(cpu.register_x, 2);
    assert_eq!(cpu.register_y, 3);
    assert_eq!(cpu.program_counter, 0x1234);
    assert_eq!(cpu.stack_pointer, 0xfd);
    assert_eq!(cpu.flags.bits(), 0x24);
}

#[test]
fn test_load_keeps_both_halves_of_a_mirrored_cartridge() {
    let mut cartridge = vec![0x00; 0x4000];
    cartridge[0x0005] = 0x12;
    cartridge[0x3ffc] = 0x34;
    cartridge[0x3ffe] = 0x56;
    let mut cpu = CPU::new(Bus::new(Rom::new(cartridge), Ram::new(vec![0; 0x0800])));
    cpu.load(vec![0xe8]);
    assert_eq!(cpu.mem_read(0x8000), 0xe8);
    assert_eq!(cpu.mem_read(0x8005), 0x12);
    assert_eq!(cpu.mem_read(0xbffc), 0x34);
    assert_eq!(cpu.mem_read(0xbffe), 0x56);
    assert_eq!(cpu.mem_read(0xc000), 0x00);
    assert_eq!(cpu.mem_read(0xc005), 0x12);
    assert_eq!(cpu.mem_read_u16(0xfffc), 0x8000);
    assert_eq!(cpu.mem_read(0xfffe), 0x56);
}

#[test]
fn test_load_twice_keeps_the_tail_of_the_longer_program() {
    let mut cpu = CPU::default();
    cpu.load(vec![0xa9, 0x01, 0xaa, 0xe8]);
    cpu.load(vec![0xa2, 0x07]);
    assert_eq!(cpu.mem_read(0x8000), 0xa2);
    assert_eq!(cpu.mem_read(0x8001), 0x07);
    assert_eq!(cpu.mem_read(0x8002), 0xaa);
    assert_eq!(cpu.mem_read(0x8003), 0xe8);
    assert_eq!(cpu.mem_read(0x8004), 0x00);
    assert_eq!(cpu.mem_read_u16(0xfffc), 0x8000);
}

#[test]
fn test_run_with_callback_first_sees_the_state_after_the_first_instruction() {
    let mut cpu = CPU::default();
    cpu.load(vec![0xa9, 0x05, 0x00]);
    cpu.reset();
    let mut log: Vec<(u8, u16)> = Vec::new();
    let status = cpu.run_with_callback(|cpu| {
        log.push((cpu.register_a, cpu.program_counter));
    });
    assert_eq!(status, Status::Halted);
    assert_eq!(log[0], (0x05, 0x8002));
    assert_eq!(log.len(), 1);
}

#[test]
fn test_run_with_callback_is_not_called_when_brk_comes_first() {
    let mut cpu = CPU::default();
    cpu.load(vec![0x00, 0xa9, 0x05]);
    cpu.reset();
    cpu.register_a = 0x11;
    cpu.register_x = 0x22;
    cpu.register_y = 0x33;
    cpu.flags = CpuFlags::from_bits_truncate(0xef);
    cpu.mem_write(0x0040, 0x5a);
    let mut calls = 0;
    let status = cpu.run_with_callback(|cpu| {
        calls += 1;
        cpu.register_a = 0xff;
    });
    assert_eq!(status, Status::Halted);
    assert_eq!(calls, 0);
    assert_eq!(cpu.program_counter, 0x8001);
    assert_eq!(cpu.register_a, 0x11);
    assert_eq!(cpu.register_x, 0x22);
    assert_eq!(cpu.register_y, 0x33);
    assert_eq!(cpu.stack_pointer, 0xfd);
    assert_eq!(cpu.flags.bits(), 0xff);
    assert_eq!(cpu.mem_read(0x0040), 0x5a);
}

#[test]
fn test_run_with_callback_is_not_called_when_an_unknown_byte_comes_first() {
    let mut cpu = CPU::default();
    cpu.load(vec![0x02]);
    cpu.reset();
    let mut calls = 0;
    let status = cpu.run_with_callback(|_| {
        calls += 1;
    });
    assert_eq!(status, Status::Unrecognized { opcode: 0x02, pc: 0x8000 });
    assert_eq!(calls, 0);
    assert_eq!(cpu.program_counter, 0x8000);
    assert_eq!(cpu.register_a, 0);
    assert_eq!(cpu.flags.bits(), 0x24);
    assert_eq!(cpu.stack_pointer, 0xfd);
}
