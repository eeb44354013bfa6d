use gbcore::cartridge::{Cartridge, Controller};
use gbcore::cpu::CpuError;
use gbcore::gameboy::GameBoy;

fn machine(program: &[u8], kind: u8) -> GameBoy {
    let mut rom = vec![0u8; 0x8000];
    rom[0x147] = kind;
    let mut boot = [0u8; 0x100];
    for (i, byte) in program.iter().enumerate() {
        boot[i] = *byte;
    }
    let cartridge = match Cartridge::new(rom, &[]) {
        Ok(c) => c,
        Err(_) => panic!("cartridge refused"),
    };
    match GameBoy::new(&boot, cartridge, true) {
        Ok(m) => m,
        Err(_) => panic!("boot image refused"),
    }
}

fn run(machine: &mut GameBoy, cycles: u32) -> u32 {
    let mut frames = 0;
    for _ in 0..cycles {
        match machine.execute_cycle(false) {
            Ok(true) => frames += 1,
            Ok(false) => {}
            Err(_) => panic!("the CPU is stuck"),
        }
    }
    frames
}

#[test]
fn input_is_due_every_4096_cycles() {
    let mut machine = machine(&[0x18, 0xfe], 0);
    assert!(machine.input_due());
    run(&mut machine, 1);
    assert!(!machine.input_due());
    run(&mut machine, 4094);
    assert!(!machine.input_due());
    run(&mut machine, 1);
    assert!(machine.input_due());
    assert_eq!(machine.cycle_count, 4096);
}

#[test]
fn cpu_runs_every_fourth_master_cycle() {
    // INC A ; INC A ; INC A ; JR -2
    let mut machine = machine(&[0x3c, 0x3c, 0x3c, 0x18, 0xfe], 0);
    run(&mut machine, 1);
    assert_eq!(machine.cpu.opcode1, 0x3c);
    assert_eq!(machine.cpu.registers.a, 0);
    run(&mut machine, 3);
    assert_eq!(machine.cpu.registers.a, 0);
    run(&mut machine, 1);
    assert_eq!(machine.cpu.registers.a, 1);
    run(&mut machine, 8);
    assert_eq!(machine.cpu.registers.a, 3);
}

#[test]
fn timer_ticks_every_master_cycle() {
    let mut machine = machine(&[0x18, 0xfe], 0);
    run(&mut machine, 0x200);
    assert_eq!(machine.cpu.mmu.read_byte(0xff04), 0x02);
}

#[test]
fn first_frame_is_the_white_frame() {
    let mut machine = machine(&[0x18, 0xfe], 0);
    assert_eq!(machine.execute_cycle(false), Ok(true));
    assert!(machine.cpu.mmu.ppu.frame_buffer.iter().all(|b| *b == 0xff));
    assert_eq!(run(&mut machine, 100_000), 0);
}

#[test]
fn frames_come_every_70224_cycles() {
    // LD A,0x91 ; LDH (0x40),A ; JR -2
    let mut machine = machine(&[0x3e, 0x91, 0xe0, 0x40, 0x18, 0xfe], 0);
    // the white frame of the display that is still off
    assert_eq!(run(&mut machine, 100), 1);
    assert_eq!(run(&mut machine, 70224), 1);
    assert_eq!(run(&mut machine, 70224), 1);
    assert_eq!(run(&mut machine, 70224 * 3), 3);
    assert_eq!(machine.cpu.mmu.read_byte(0xff0f) & 0x01, 0x01);
}

fn clock_micros(machine: &GameBoy) -> u32 {
    match &machine.cpu.mmu.cartridge.mbc {
        Controller::Three(mbc) => mbc.rtc.live_time.micros,
        _ => panic!("no clock"),
    }
}

#[test]
fn cartridge_clock_follows_the_master_clock() {
    let mut machine = machine(&[0x18, 0xfe], 0x0f);
    run(&mut machine, 1);
    assert_eq!(clock_micros(&machine), 15_625);
    run(&mut machine, 65535);
    assert_eq!(clock_micros(&machine), 15_625);
    run(&mut machine, 1);
    assert_eq!(clock_micros(&machine), 31_250);
    run(&mut machine, 65536 * 2);
    assert_eq!(clock_micros(&machine), 62_500);
}

#[test]
fn turbo_halves_the_clock_rate() {
    let mut machine = machine(&[0x18, 0xfe], 0x0f);
    for _ in 0..65536 + 1 {
        assert!(machine.execute_cycle(true).is_ok());
    }
    assert_eq!(clock_micros(&machine), 15_625);
    for _ in 0..65536 {
        assert!(machine.execute_cycle(true).is_ok());
    }
    assert_eq!(clock_micros(&machine), 31_250);
}

#[test]
fn audio_samples_come_every_45_cycles() {
    let mut machine = machine(&[0x18, 0xfe], 0);
    run(&mut machine, 45 * 100);
    assert_eq!(machine.cpu.mmu.sound_controller.buffer_size, 200);
    assert!(machine.cpu.mmu.sound_controller.queue_audio(0).is_none());
    run(&mut machine, 45 * 156);
    assert!(machine.cpu.mmu.sound_controller.queue_audio(0).is_some());
}

#[test]
fn sprite_table_dma_through_the_schedule() {
    // LD A,0xc0 ; LDH (0x46),A ; JR -2
    let mut machine = machine(&[0x3e, 0xc0, 0xe0, 0x46, 0x18, 0xfe], 0);
    for i in 0..0xa0usize {
        machine.cpu.mmu.write_byte(0xc000 + i, i as u8);
    }
    // fetch, LD (2), LDH (2 up to the write): the transfer starts
    run(&mut machine, 4 * 4 + 1);
    assert!(machine.cpu.mmu.dma_config.active);
    assert_eq!(machine.cpu.mmu.read_byte(0xfe00), 0xff);
    // it takes 161 machine cycles, the first in the cycle of the write
    run(&mut machine, 4 * 159);
    assert!(machine.cpu.mmu.dma_config.active);
    assert_eq!(machine.cpu.mmu.read_byte(0xfe00), 0xff);
    run(&mut machine, 4);
    assert!(!machine.cpu.mmu.dma_config.active);
    for i in 0..0xa0usize {
        assert_eq!(machine.cpu.mmu.read_byte(0xfe00 + i), i as u8);
    }
}

#[test]
fn cpu_runs_every_second_master_cycle_at_double_speed() {
    // LD A,1 ; LDH (0x4d),A ; STOP ; INC A ; INC A ; INC A ; INC A ; JR -2
    let mut machine = machine(&[0x3e, 0x01, 0xe0, 0x4d, 0x10, 0x3c, 0x3c, 0x3c, 0x3c, 0x18, 0xfe], 0);
    run(&mut machine, 25);
    assert!(machine.cpu.mmu.double_speed);
    assert_eq!(machine.cpu.registers.a, 1);
    run(&mut machine, 1);
    assert_eq!(machine.cpu.registers.a, 1);
    run(&mut machine, 1);
    assert_eq!(machine.cpu.registers.a, 2);
    run(&mut machine, 2);
    assert_eq!(machine.cpu.registers.a, 3);
    run(&mut machine, 4);
    assert_eq!(machine.cpu.registers.a, 5);
}

#[test]
fn double_speed_halves_the_base_clock() {
    // LD A,1 ; LDH (0x4d),A ; STOP ; JR -2
    let mut machine = machine(&[0x3e, 0x01, 0xe0, 0x4d, 0x10, 0x18, 0xfe], 0);
    run(&mut machine, 4 * 8);
    assert!(machine.cpu.mmu.double_speed);
    let samples = machine.cpu.mmu.sound_controller.buffer_size;
    let before = machine.cycle_count;
    run(&mut machine, 900);
    assert_eq!(machine.cycle_count, before + 900);
    assert_eq!(machine.cpu.mmu.sound_controller.buffer_size, samples + 2 * 10);
}

#[test]
fn stuck_cpu_is_reported() {
    let mut machine = machine(&[0xdd], 0);
    assert!(machine.execute_cycle(false).is_ok());
    for _ in 0..3 {
        assert!(machine.execute_cycle(false).is_ok());
    }
    assert_eq!(machine.execute_cycle(false), Err(CpuError::InvalidOpcode(0xdd)));
    assert_eq!(machine.cycle_count, 4);
}
