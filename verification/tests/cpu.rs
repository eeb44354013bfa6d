use gbcore::cartridge::Cartridge;
use gbcore::cpu::{CpuError, CPU};
use gbcore::interrupts::InterruptState;
use gbcore::mmu::MmuError;

fn machine(program: &[u8]) -> CPU {
    let mut rom = vec![0u8; 0x8000];
    for (i, byte) in program.iter().enumerate() {
        rom[0x100 + i] = *byte;
    }
    let cartridge = match Cartridge::new(rom, &[]) {
        Ok(c) => c,
        Err(_) => panic!("plain cartridge refused"),
    };
    let boot = [0u8; 0x100];
    let mut cpu = match CPU::new(&boot, cartridge, true) {
        Ok(c) => c,
        Err(_) => panic!("boot image refused"),
    };
    cpu.mmu.write_byte(0xff50, 1);
    cpu.pc = 0x0100;
    cpu
}

fn run(cpu: &mut CPU, cycles: usize) {
    for _ in 0..cycles {
        assert!(cpu.execute_cycle().is_ok());
    }
}

#[test]
fn power_on_fetches_cartridge_byte() {
    let mut cpu = machine(&[0x3c, 0x00]);
    assert_eq!(cpu.opcode1, 0x00);
    run(&mut cpu, 1);
    assert_eq!(cpu.opcode1, 0x3c);
    assert_eq!(cpu.pc, 0x0101);
}

#[test]
fn boot_image_is_fetched_while_overlaid() {
    let mut rom = vec![0u8; 0x8000];
    rom[0] = 0x11;
    let cartridge = match Cartridge::new(rom, &[]) {
        Ok(c) => c,
        Err(_) => panic!("plain cartridge refused"),
    };
    let mut boot = [0u8; 0x100];
    boot[0] = 0x3e;
    let mut cpu = match CPU::new(&boot, cartridge, true) {
        Ok(c) => c,
        Err(_) => panic!("boot image refused"),
    };
    run(&mut cpu, 1);
    assert_eq!(cpu.opcode1, 0x3e);
}

#[test]
fn short_boot_image_is_missing() {
    let rom = vec![0u8; 0x8000];
    let cartridge = match Cartridge::new(rom, &[]) {
        Ok(c) => c,
        Err(_) => panic!("plain cartridge refused"),
    };
    let boot = [0u8; 0xff];
    match CPU::new(&boot, cartridge, true) {
        Ok(_) => panic!("short boot image accepted"),
        Err(e) => assert_eq!(e, MmuError::MissingBootRom),
    }
}

#[test]
fn colour_machine_needs_the_long_boot_image() {
    let rom = vec![0u8; 0x8000];
    let cartridge = match Cartridge::new(rom, &[]) {
        Ok(c) => c,
        Err(_) => panic!("plain cartridge refused"),
    };
    let boot = [0u8; 0x100];
    match CPU::new(&boot, cartridge, false) {
        Ok(_) => panic!("short boot image accepted"),
        Err(e) => assert_eq!(e, MmuError::MissingBootRom),
    }
}

#[test]
fn add_then_decimal_adjust() {
    // ADD A,0xc6 ; DAA
    let mut cpu = machine(&[0xc6, 0xc6, 0x27, 0x00]);
    cpu.registers.a = 0x3a;
    run(&mut cpu, 3);
    assert_eq!(cpu.registers.a, 0x00);
    assert!(cpu.registers.f.z);
    assert!(cpu.registers.f.h);
    assert!(cpu.registers.f.c);
    assert!(!cpu.registers.f.n);
    assert_eq!(cpu.opcode1, 0x27);
    run(&mut cpu, 1);
    assert_eq!(cpu.registers.a, 0x66);
    assert!(!cpu.registers.f.z);
    assert!(!cpu.registers.f.h);
    assert!(cpu.registers.f.c);
}

#[test]
fn decimal_adjust_of_a_packed_sum() {
    // 0x45 + 0x38 = 0x7d, which is 83 in packed decimal
    let mut cpu = machine(&[0xc6, 0x38, 0x27, 0x00]);
    cpu.registers.a = 0x45;
    run(&mut cpu, 4);
    assert_eq!(cpu.registers.a, 0x83);
    assert!(!cpu.registers.f.c);
    assert!(!cpu.registers.f.z);
}

#[test]
fn decimal_adjust_after_subtraction() {
    // 0x83 - 0x38 = 0x4b with a half borrow, which is 45 in packed decimal
    let mut cpu = machine(&[0xd6, 0x38, 0x27, 0x00]);
    cpu.registers.a = 0x83;
    run(&mut cpu, 4);
    assert_eq!(cpu.registers.a, 0x45);
    assert!(cpu.registers.f.n);
}

#[test]
fn invalid_opcode_stops_the_cpu() {
    let mut cpu = machine(&[0xd3]);
    run(&mut cpu, 1);
    assert_eq!(cpu.opcode1, 0xd3);
    let pc = cpu.pc;
    assert_eq!(cpu.execute_cycle(), Err(CpuError::InvalidOpcode(0xd3)));
    assert_eq!(cpu.pc, pc);
    assert_eq!(cpu.execute_cycle(), Err(CpuError::InvalidOpcode(0xd3)));
}

#[test]
fn load_immediate_and_register_moves() {
    // LD B,0x12 ; LD C,B ; LD (HL),C ; LD A,(HL)
    let mut cpu = machine(&[0x06, 0x12, 0x48, 0x71, 0x7e, 0x00]);
    cpu.registers.set_hl(0xc000);
    run(&mut cpu, 1 + 2 + 1 + 2 + 2);
    assert_eq!(cpu.registers.b, 0x12);
    assert_eq!(cpu.registers.c, 0x12);
    assert_eq!(cpu.mmu.read_byte(0xc000), 0x12);
    assert_eq!(cpu.registers.a, 0x12);
}

#[test]
fn sixteen_bit_loads_and_stack() {
    // LD SP,0xd000 ; LD BC,0x1234 ; PUSH BC ; POP DE
    let mut cpu = machine(&[0x31, 0x00, 0xd0, 0x01, 0x34, 0x12, 0xc5, 0xd1, 0x00]);
    run(&mut cpu, 1 + 3 + 3);
    assert_eq!(cpu.sp, 0xd000);
    assert_eq!(cpu.registers.get_bc(), 0x1234);
    run(&mut cpu, 4);
    assert_eq!(cpu.sp, 0xcffe);
    assert_eq!(cpu.mmu.read_byte(0xcfff), 0x12);
    assert_eq!(cpu.mmu.read_byte(0xcffe), 0x34);
    run(&mut cpu, 3);
    assert_eq!(cpu.sp, 0xd000);
    assert_eq!(cpu.registers.get_de(), 0x1234);
}

#[test]
fn pop_af_keeps_only_the_flag_nibble() {
    // LD SP,0xd000 ; LD BC,0x12ff ; PUSH BC ; POP AF
    let mut cpu = machine(&[0x31, 0x00, 0xd0, 0x01, 0xff, 0x12, 0xc5, 0xf1, 0x00]);
    run(&mut cpu, 1 + 3 + 3 + 4 + 3);
    assert_eq!(cpu.registers.get_af(), 0x12f0);
}

#[test]
fn taken_and_untaken_relative_jumps() {
    // JR NZ,+2 with Z set: not taken, two cycles.
    let mut cpu = machine(&[0x20, 0x02, 0x00, 0x00, 0x00]);
    cpu.registers.f.z = true;
    run(&mut cpu, 1);
    run(&mut cpu, 1);
    assert_eq!(cpu.cycles, 1);
    assert_eq!(cpu.pc, 0x0102);
    // JR NZ,+2 with Z clear: taken, three cycles.
    let mut cpu = machine(&[0x20, 0x02, 0x00, 0x00, 0x00]);
    run(&mut cpu, 1);
    run(&mut cpu, 1);
    assert_eq!(cpu.cycles, 2);
    assert_eq!(cpu.pc, 0x0104);
}

#[test]
fn backward_relative_jump() {
    // JR -2 jumps to itself.
    let mut cpu = machine(&[0x18, 0xfe]);
    run(&mut cpu, 1 + 3);
    assert_eq!(cpu.opcode1, 0x18);
    assert_eq!(cpu.pc, 0x0101);
}

#[test]
fn call_and_return() {
    // LD SP,0xd000 ; CALL 0x0110 ; ... at 0x0110: RET
    let mut program = vec![0u8; 0x20];
    program[0] = 0x31;
    program[1] = 0x00;
    program[2] = 0xd0;
    program[3] = 0xcd;
    program[4] = 0x10;
    program[5] = 0x01;
    program[6] = 0x3c;
    program[0x10] = 0xc9;
    let mut cpu = machine(&program);
    run(&mut cpu, 1 + 3);
    run(&mut cpu, 6);
    assert_eq!(cpu.opcode1, 0xc9);
    assert_eq!(cpu.pc, 0x0111);
    assert_eq!(cpu.sp, 0xcffe);
    assert_eq!(cpu.mmu.read_byte(0xcfff), 0x01);
    assert_eq!(cpu.mmu.read_byte(0xcffe), 0x06);
    run(&mut cpu, 4);
    assert_eq!(cpu.opcode1, 0x3c);
    assert_eq!(cpu.pc, 0x0107);
    assert_eq!(cpu.sp, 0xd000);
}

#[test]
fn untaken_call_takes_three_cycles() {
    // CALL Z,0x0110 with Z clear
    let mut cpu = machine(&[0xcc, 0x10, 0x01, 0x3c]);
    run(&mut cpu, 1 + 3);
    assert_eq!(cpu.opcode1, 0x3c);
    assert_eq!(cpu.pc, 0x0104);
}

#[test]
fn restart_pushes_and_jumps() {
    // LD SP,0xd000 ; RST 0x28
    let mut cpu = machine(&[0x31, 0x00, 0xd0, 0xef]);
    run(&mut cpu, 1 + 3 + 1);
    assert_eq!(cpu.pc, 0x0028);
    assert_eq!(cpu.sp, 0xcffe);
    assert_eq!(cpu.mmu.read_byte(0xcfff), 0x01);
    assert_eq!(cpu.mmu.read_byte(0xcffe), 0x04);
}

#[test]
fn increment_keeps_carry() {
    // SCF ; INC A
    let mut cpu = machine(&[0x37, 0x3c, 0x00]);
    cpu.registers.a = 0x0f;
    run(&mut cpu, 1 + 1 + 1);
    assert_eq!(cpu.registers.a, 0x10);
    assert!(cpu.registers.f.c);
    assert!(cpu.registers.f.h);
    assert!(!cpu.registers.f.z);
    assert!(!cpu.registers.f.n);
}

#[test]
fn decrement_memory() {
    // DEC (HL)
    let mut cpu = machine(&[0x35, 0x00]);
    cpu.registers.set_hl(0xc010);
    cpu.mmu.write_byte(0xc010, 0x01);
    run(&mut cpu, 1 + 3);
    assert_eq!(cpu.mmu.read_byte(0xc010), 0x00);
    assert!(cpu.registers.f.z);
    assert!(cpu.registers.f.n);
}

#[test]
fn add_hl_keeps_zero_flag() {
    // ADD HL,BC
    let mut cpu = machine(&[0x09, 0x00]);
    cpu.registers.set_hl(0x8a23);
    cpu.registers.set_bc(0x0605);
    cpu.registers.f.z = true;
    run(&mut cpu, 1 + 2);
    assert_eq!(cpu.registers.get_hl(), 0x9028);
    assert!(cpu.registers.f.z);
    assert!(cpu.registers.f.h);
    assert!(!cpu.registers.f.c);
    assert!(!cpu.registers.f.n);
}

#[test]
fn add_sp_uses_low_byte_carries() {
    // ADD SP,-1 with SP = 0x0001: low byte 0x01 + 0xff carries out of bits 3 and 7.
    let mut cpu = machine(&[0xe8, 0xff, 0x00]);
    cpu.sp = 0x0001;
    run(&mut cpu, 1 + 4);
    assert_eq!(cpu.sp, 0x0000);
    assert!(!cpu.registers.f.z);
    assert!(!cpu.registers.f.n);
    assert!(cpu.registers.f.h);
    assert!(cpu.registers.f.c);
}

#[test]
fn ldhl_sp_offset() {
    // LD HL,SP+2
    let mut cpu = machine(&[0xf8, 0x02, 0x00]);
    cpu.sp = 0xfff8;
    run(&mut cpu, 1 + 3);
    assert_eq!(cpu.registers.get_hl(), 0xfffa);
    assert!(!cpu.registers.f.h);
    assert!(!cpu.registers.f.c);
}

#[test]
fn store_stack_pointer() {
    // LD (0xc100),SP
    let mut cpu = machine(&[0x08, 0x00, 0xc1, 0x00]);
    cpu.sp = 0xfff8;
    run(&mut cpu, 1 + 5);
    assert_eq!(cpu.mmu.read_byte(0xc100), 0xf8);
    assert_eq!(cpu.mmu.read_byte(0xc101), 0xff);
}

#[test]
fn high_page_loads() {
    // LDH (0x80),A ; LD A,0 ; LDH A,(0x80) ; LD C,0x81 ; LD (C),A ; LD A,(0xff81)
    let mut cpu = machine(&[0xe0, 0x80, 0x3e, 0x00, 0xf0, 0x80, 0x0e, 0x81, 0xe2, 0xfa, 0x81, 0xff, 0x00]);
    cpu.registers.a = 0x5a;
    run(&mut cpu, 1 + 3 + 2);
    assert_eq!(cpu.registers.a, 0x00);
    assert_eq!(cpu.mmu.read_byte(0xff80), 0x5a);
    run(&mut cpu, 3);
    assert_eq!(cpu.registers.a, 0x5a);
    run(&mut cpu, 2 + 2);
    assert_eq!(cpu.mmu.read_byte(0xff81), 0x5a);
    cpu.registers.a = 0;
    run(&mut cpu, 4);
    assert_eq!(cpu.registers.a, 0x5a);
}

#[test]
fn rotate_accumulator_clears_zero() {
    // RLCA on zero leaves Z reset; RLC A sets it.
    let mut cpu = machine(&[0x07, 0xcb, 0x07, 0x00]);
    cpu.registers.a = 0x00;
    run(&mut cpu, 1 + 1);
    assert_eq!(cpu.registers.a, 0);
    assert!(!cpu.registers.f.z);
    run(&mut cpu, 2);
    assert!(cpu.registers.f.z);
}

#[test]
fn prefixed_rotations_and_shifts() {
    // RLC B ; SWAP B ; SRL B ; SRA C ; SLA D
    let mut cpu = machine(&[0xcb, 0x00, 0xcb, 0x30, 0xcb, 0x38, 0xcb, 0x29, 0xcb, 0x22, 0x00]);
    cpu.registers.b = 0x85;
    cpu.registers.c = 0x81;
    cpu.registers.d = 0xc0;
    run(&mut cpu, 1 + 2);
    assert_eq!(cpu.registers.b, 0x0b);
    assert!(cpu.registers.f.c);
    run(&mut cpu, 2);
    assert_eq!(cpu.registers.b, 0xb0);
    assert!(!cpu.registers.f.c);
    run(&mut cpu, 2);
    assert_eq!(cpu.registers.b, 0x58);
    run(&mut cpu, 2);
    assert_eq!(cpu.registers.c, 0xc0);
    assert!(cpu.registers.f.c);
    run(&mut cpu, 2);
    assert_eq!(cpu.registers.d, 0x80);
    assert!(cpu.registers.f.c);
}

#[test]
fn bit_test_set_and_reset() {
    // BIT 7,H ; SET 0,(HL) ; RES 7,(HL) ; BIT 0,(HL)
    let mut cpu = machine(&[0xcb, 0x7c, 0xcb, 0xc6, 0xcb, 0xbe, 0xcb, 0x46, 0x00]);
    cpu.registers.set_hl(0xc020);
    cpu.mmu.write_byte(0xc020, 0x80);
    cpu.registers.f.c = true;
    run(&mut cpu, 1 + 2);
    assert!(!cpu.registers.f.z);
    assert!(cpu.registers.f.h);
    assert!(cpu.registers.f.c);
    run(&mut cpu, 4);
    assert_eq!(cpu.mmu.read_byte(0xc020), 0x81);
    run(&mut cpu, 4);
    assert_eq!(cpu.mmu.read_byte(0xc020), 0x01);
    run(&mut cpu, 3);
    assert!(!cpu.registers.f.z);
}

#[test]
fn logic_operations_set_flags() {
    // AND 0x0f ; OR 0xf0 ; XOR 0xff ; CP 0x00
    let mut cpu = machine(&[0xe6, 0x0f, 0xf6, 0xf0, 0xee, 0xff, 0xfe, 0x00, 0x00]);
    cpu.registers.a = 0x35;
    run(&mut cpu, 1 + 2);
    assert_eq!(cpu.registers.a, 0x05);
    assert!(cpu.registers.f.h);
    run(&mut cpu, 2);
    assert_eq!(cpu.registers.a, 0xf5);
    assert!(!cpu.registers.f.h);
    run(&mut cpu, 2);
    assert_eq!(cpu.registers.a, 0x0a);
    run(&mut cpu, 2);
    assert_eq!(cpu.registers.a, 0x0a);
    assert!(cpu.registers.f.n);
    assert!(!cpu.registers.f.z);
    assert!(!cpu.registers.f.c);
}

#[test]
fn enable_interrupts_takes_effect_after_one_instruction() {
    // EI ; NOP ; NOP
    let mut cpu = machine(&[0xfb, 0x00, 0x00, 0x00]);
    run(&mut cpu, 1);
    assert!(cpu.mmu.interrupt_controller.state == InterruptState::Disabled);
    run(&mut cpu, 1);
    assert!(cpu.mmu.interrupt_controller.state == InterruptState::Enabled);
}

#[test]
fn interrupt_is_served_in_five_cycles() {
    let mut program = vec![0u8; 0x10];
    program[0] = 0x31;
    program[1] = 0x00;
    program[2] = 0xd0;
    program[3] = 0xfb;
    let mut cpu = machine(&program);
    run(&mut cpu, 1 + 3);
    cpu.mmu.write_byte(0xffff, 0x04);
    cpu.mmu.write_byte(0xff0f, 0x04);
    // EI runs; the enable is still only scheduled when it ends.
    run(&mut cpu, 1);
    assert!(!cpu.pending_interrupt);
    // The next instruction (NOP) ends, and the interrupt is taken.
    run(&mut cpu, 1);
    assert!(cpu.pending_interrupt);
    assert_eq!(cpu.cycles, 5);
    assert_eq!(cpu.mmu.read_byte(0xff0f) & 0x04, 0);
    assert!(cpu.mmu.interrupt_controller.state == InterruptState::Disabled);
    let return_address = cpu.pc;
    run(&mut cpu, 4);
    assert_eq!(cpu.pc, 0x0050);
    assert_eq!(cpu.sp, 0xcffe);
    let low = cpu.mmu.read_byte(0xcffe) as u16;
    let high = cpu.mmu.read_byte(0xcfff) as u16;
    assert_eq!(high << 8 | low, return_address);
    run(&mut cpu, 1);
    assert!(!cpu.pending_interrupt);
    assert_eq!(cpu.pc, 0x0051);
}

#[test]
fn halt_wakes_on_a_pending_interrupt_even_when_disabled() {
    // HALT ; INC A
    let mut cpu = machine(&[0x76, 0x3c, 0x00]);
    run(&mut cpu, 1 + 1);
    assert!(cpu.halt);
    let pc = cpu.pc;
    run(&mut cpu, 5);
    assert!(cpu.halt);
    assert_eq!(cpu.pc, pc);
    cpu.mmu.write_byte(0xffff, 0x01);
    cpu.mmu.write_byte(0xff0f, 0x01);
    run(&mut cpu, 1);
    assert!(!cpu.halt);
    assert!(!cpu.pending_interrupt);
    assert_eq!(cpu.opcode1, 0x3c);
}

#[test]
fn return_from_interrupt_enables_at_once() {
    // LD SP,0xd000 ; LD BC,0x0120 ; PUSH BC ; RETI
    let mut cpu = machine(&[0x31, 0x00, 0xd0, 0x01, 0x20, 0x01, 0xc5, 0xd9]);
    run(&mut cpu, 1 + 3 + 3 + 4);
    run(&mut cpu, 1);
    assert!(cpu.mmu.interrupt_controller.state == InterruptState::Enabled);
    run(&mut cpu, 3);
    assert_eq!(cpu.pc, 0x0121);
}

#[test]
fn program_counter_wraps_at_sixteen_bits() {
    let mut cpu = machine(&[0x00]);
    cpu.pc = 0xffff;
    run(&mut cpu, 1);
    assert_eq!(cpu.pc, 0x0000);
}

#[test]
fn stop_switches_speed_when_armed() {
    // STOP
    let mut cpu = machine(&[0x10, 0x00]);
    cpu.mmu.write_byte(0xff4d, 0x01);
    assert_eq!(cpu.mmu.read_byte(0xff4d), 0x7f);
    run(&mut cpu, 1 + 1);
    assert!(cpu.mmu.double_speed);
    assert_eq!(cpu.mmu.read_byte(0xff4d), 0xfe);
}

#[test]
fn general_purpose_dma_halts_the_cpu() {
    // INC A ; INC A ; INC A ...
    let rom = {
        let mut rom = vec![0x3cu8; 0x8000];
        rom[0x147] = 0;
        rom
    };
    let cartridge = match Cartridge::new(rom, &[]) {
        Ok(c) => c,
        Err(_) => panic!("plain cartridge refused"),
    };
    let boot = [0u8; 0x900];
    let mut cpu = match CPU::new(&boot, cartridge, false) {
        Ok(c) => c,
        Err(_) => panic!("boot image refused"),
    };
    cpu.mmu.write_byte(0xff50, 1);
    cpu.pc = 0x0100;
    run(&mut cpu, 3);
    assert_eq!(cpu.registers.a, 2);
    cpu.mmu.write_byte(0xff55, 0x00);
    run(&mut cpu, 10);
    assert_eq!(cpu.registers.a, 2);
    for _ in 0..17 {
        cpu.mmu.execute_cycle();
    }
    run(&mut cpu, 2);
    assert_eq!(cpu.registers.a, 4);
    // the sprite-table transfer does not stop the CPU
    cpu.mmu.write_byte(0xff46, 0xc0);
    cpu.mmu.execute_cycle();
    cpu.mmu.execute_cycle();
    run(&mut cpu, 2);
    assert_eq!(cpu.registers.a, 6);
}

#[test]
fn stop_halts_when_the_switch_is_not_armed() {
    // STOP ; INC A
    let mut cpu = machine(&[0x10, 0x3c, 0x00]);
    run(&mut cpu, 1 + 1);
    assert!(cpu.halt);
    assert!(!cpu.mmu.double_speed);
    let pc = cpu.pc;
    run(&mut cpu, 5);
    assert!(cpu.halt);
    assert_eq!(cpu.pc, pc);
    assert_eq!(cpu.registers.a, 0);
    cpu.mmu.write_byte(0xffff, 0x10);
    cpu.mmu.write_byte(0xff0f, 0x10);
    run(&mut cpu, 1);
    assert!(!cpu.halt);
    assert_eq!(cpu.opcode1, 0x3c);
    run(&mut cpu, 1);
    assert_eq!(cpu.registers.a, 1);
}
