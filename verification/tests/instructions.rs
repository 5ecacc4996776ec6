use z80e::{Cpu, IoDevice, StopReason};

struct Recorder {
    next: u8,
    seen: Vec<u8>,
}

impl IoDevice for Recorder {
    fn input(&self) -> u8 {
        self.next
    }

    fn after_output(&self, value: u8) -> Recorder {
        let mut seen = self.seen.clone();
        seen.push(value);
        Recorder { next: self.next, seen }
    }

    fn read_in(&self) -> u8 {
        self.next
    }

    fn write_out(&mut self, value: u8) {
        self.seen.push(value);
    }
}

fn boot(program: &[u8]) -> Cpu<Vec<u8>, Recorder> {
    let mut memory: Vec<u8> = vec![0; 0x10000];
    memory[..program.len()].copy_from_slice(program);
    Cpu::new(memory)
}

/// Runs until the processor hangs on a HALT and returns the cycles consumed.
fn run_to_halt(cpu: &mut Cpu<Vec<u8>, Recorder>) -> i32 {
    let (cycles, reason) = cpu.execute(100_000);
    assert!(matches!(reason, StopReason::Hung(_)));
    cycles
}

#[test]
fn eight_bit_loads_between_registers_and_memory() {
    // LD HL,0x4000; LD (HL),0x5A; LD B,(HL); LD C,B; LD A,C; HALT
    let mut cpu = boot(&[0x21, 0x00, 0x40, 0x36, 0x5A, 0x46, 0x48, 0x79, 0x76]);
    let cycles = run_to_halt(&mut cpu);
    assert_eq!(cycles, 10 + 10 + 7 + 4 + 4 + 4);
    let r = cpu.state().registers;
    assert_eq!(r.bc, 0x5A5A);
    assert_eq!(r.a(), 0x5A);
    assert_eq!(cpu.memory()[0x4000], 0x5A);
}

#[test]
fn arithmetic_on_the_accumulator() {
    // LD A,0x7F; ADD A,0x01; LD B,A; SUB B; HALT
    let mut cpu = boot(&[0x3E, 0x7F, 0xC6, 0x01, 0x47, 0x90, 0x76]);
    cpu.execute(14);
    assert_eq!(cpu.state().registers.af, 0x8094);
    run_to_halt(&mut cpu);
    assert_eq!(cpu.state().registers.af, 0x0042);
    assert_eq!(cpu.state().registers.bc >> 8, 0x80);
}

#[test]
fn conditional_jumps_follow_the_zero_flag() {
    // XOR A; JP Z,0x0008; HALT ... 0x0008: LD A,1; JR NZ,+1; HALT; INC A (skipped); HALT
    let mut program = vec![0u8; 0x20];
    program[..5].copy_from_slice(&[0xAF, 0xCA, 0x08, 0x00, 0x76]);
    program[8..15].copy_from_slice(&[0x3E, 0x01, 0xB7, 0x20, 0x01, 0x76, 0x76]);
    let mut cpu = boot(&program);
    let cycles = run_to_halt(&mut cpu);
    assert_eq!(cycles, 4 + 10 + 7 + 4 + 12 + 4);
    assert_eq!(cpu.state().registers.pc, 15);
    assert_eq!(cpu.state().registers.a(), 1);
}

#[test]
fn push_pop_and_exchange() {
    // LD SP,0x9000; LD BC,0x1234; PUSH BC; POP DE; EX DE,HL; EXX; LD HL,0x0001; EXX; HALT
    let mut cpu = boot(&[0x31, 0x00, 0x90, 0x01, 0x34, 0x12, 0xC5, 0xD1, 0xEB, 0xD9, 0x21, 0x01, 0x00, 0xD9, 0x76]);
    run_to_halt(&mut cpu);
    let r = cpu.state().registers;
    assert_eq!(r.sp, 0x9000);
    assert_eq!(r.hl, 0x1234);
    assert_eq!(r.de, 0);
    assert_eq!(r.hl_alt, 0x0001);
    assert_eq!(r.bc, 0x1234);
    assert_eq!(cpu.memory()[0x8FFE], 0x34);
    assert_eq!(cpu.memory()[0x8FFF], 0x12);
}

#[test]
fn block_move_repeats_until_the_count_is_zero() {
    // LD HL,0x0040; LD DE,0x0050; LD BC,3; LDIR; HALT
    let mut program = vec![0u8; 0x60];
    program[..12].copy_from_slice(&[0x21, 0x40, 0x00, 0x11, 0x50, 0x00, 0x01, 0x03, 0x00, 0xED, 0xB0, 0x76]);
    program[0x40..0x43].copy_from_slice(&[7, 8, 9]);
    let mut cpu = boot(&program);
    let cycles = run_to_halt(&mut cpu);
    assert_eq!(cycles, 30 + 21 + 21 + 16 + 4);
    let r = cpu.state().registers;
    assert_eq!(r.bc, 0);
    assert_eq!(r.hl, 0x0043);
    assert_eq!(r.de, 0x0053);
    assert_eq!(&cpu.memory()[0x50..0x53], &[7, 8, 9]);
    assert_eq!(r.f() & 0x04, 0);
}

#[test]
fn block_compare_stops_at_a_match() {
    // LD HL,0x0040; LD BC,5; LD A,8; CPIR; HALT
    let mut program = vec![0u8; 0x60];
    program[..11].copy_from_slice(&[0x21, 0x40, 0x00, 0x01, 0x05, 0x00, 0x3E, 0x08, 0xED, 0xB1, 0x76]);
    program[0x40..0x43].copy_from_slice(&[7, 8, 9]);
    let mut cpu = boot(&program);
    let cycles = run_to_halt(&mut cpu);
    assert_eq!(cycles, 27 + 21 + 16 + 4);
    let r = cpu.state().registers;
    assert_eq!(r.hl, 0x0042);
    assert_eq!(r.bc, 3);
    assert_eq!(r.f() & 0x40, 0x40);
    assert_eq!(r.f() & 0x04, 0x04);
}

#[test]
fn block_output_writes_each_byte_to_the_port() {
    // LD HL,0x0040; LD BC,0x0307; OTIR; HALT
    let mut program = vec![0u8; 0x60];
    program[..9].copy_from_slice(&[0x21, 0x40, 0x00, 0x01, 0x07, 0x03, 0xED, 0xB3, 0x76]);
    program[0x40..0x43].copy_from_slice(&[1, 2, 3]);
    let mut cpu = boot(&program);
    cpu.install_device(7, Recorder { next: 0, seen: Vec::new() });
    let cycles = run_to_halt(&mut cpu);
    assert_eq!(cycles, 20 + 21 + 21 + 16 + 4);
    assert_eq!(cpu.port(7).device.as_ref().unwrap().seen, vec![1, 2, 3]);
    assert_eq!(cpu.state().registers.bc, 0x0007);
    assert_eq!(cpu.state().registers.f() & 0x40, 0x40);
}

#[test]
fn port_input_through_c_sets_the_flags() {
    // LD BC,0x0009; IN D,(C); HALT
    let mut cpu = boot(&[0x01, 0x09, 0x00, 0xED, 0x50, 0x76]);
    cpu.install_device(9, Recorder { next: 0x81, seen: Vec::new() });
    run_to_halt(&mut cpu);
    let r = cpu.state().registers;
    assert_eq!(r.de >> 8, 0x81);
    assert_eq!(r.f(), 0x84);
}

#[test]
fn sixteen_bit_arithmetic_with_carry() {
    // LD HL,0x7FFF; LD BC,1; SCF; ADC HL,BC; HALT
    let mut cpu = boot(&[0x21, 0xFF, 0x7F, 0x01, 0x01, 0x00, 0x37, 0xED, 0x4A, 0x76]);
    let cycles = run_to_halt(&mut cpu);
    assert_eq!(cycles, 10 + 10 + 4 + 15 + 4);
    let r = cpu.state().registers;
    assert_eq!(r.hl, 0x8001);
    assert_eq!(r.f(), 0x80 | 0x10 | 0x04);

    // LD HL,0x0000; LD DE,1; SBC HL,DE; HALT
    let mut cpu = boot(&[0x21, 0x00, 0x00, 0x11, 0x01, 0x00, 0xED, 0x52, 0x76]);
    run_to_halt(&mut cpu);
    let r = cpu.state().registers;
    assert_eq!(r.hl, 0xFFFF);
    assert_eq!(r.f(), 0x80 | 0x10 | 0x02 | 0x01);
}

#[test]
fn sixteen_bit_loads_through_an_address() {
    // LD BC,0xBEEF; LD (0x0080),BC; LD DE,(0x0080); LD SP,(0x0080); HALT
    let mut cpu = boot(&[0x01, 0xEF, 0xBE, 0xED, 0x43, 0x80, 0x00, 0xED, 0x5B, 0x80, 0x00, 0xED, 0x7B, 0x80, 0x00, 0x76]);
    let cycles = run_to_halt(&mut cpu);
    assert_eq!(cycles, 10 + 20 + 20 + 20 + 4);
    assert_eq!(cpu.memory()[0x80], 0xEF);
    assert_eq!(cpu.memory()[0x81], 0xBE);
    assert_eq!(cpu.state().registers.de, 0xBEEF);
    assert_eq!(cpu.state().registers.sp, 0xBEEF);
}

#[test]
fn digit_rotation_through_memory() {
    // LD HL,0x0040; LD A,0x12; RLD; HALT
    let mut program = vec![0u8; 0x60];
    program[..8].copy_from_slice(&[0x21, 0x40, 0x00, 0x3E, 0x12, 0xED, 0x6F, 0x76]);
    program[0x40] = 0x34;
    let mut cpu = boot(&program);
    run_to_halt(&mut cpu);
    assert_eq!(cpu.state().registers.a(), 0x13);
    assert_eq!(cpu.memory()[0x40], 0x42);

    // the same with RRD
    program[6] = 0x67;
    let mut cpu = boot(&program);
    run_to_halt(&mut cpu);
    assert_eq!(cpu.state().registers.a(), 0x14);
    assert_eq!(cpu.memory()[0x40], 0x23);
}

#[test]
fn negate_and_interrupt_mode() {
    // LD A,1; NEG; IM 2; HALT
    let mut cpu = boot(&[0x3E, 0x01, 0xED, 0x44, 0xED, 0x5E, 0x76]);
    run_to_halt(&mut cpu);
    assert_eq!(cpu.state().registers.a(), 0xFF);
    assert_eq!(cpu.state().registers.f(), 0x80 | 0x10 | 0x02 | 0x01);
    assert_eq!(cpu.state().int_mode, 2);
}

#[test]
fn bit_instructions_on_registers_and_memory() {
    // LD HL,0x0040; LD B,0x81; RLC B; SET 3,(HL); BIT 3,(HL); RES 0,B; HALT
    let mut cpu = boot(&[0x21, 0x40, 0x00, 0x06, 0x81, 0xCB, 0x00, 0xCB, 0xDE, 0xCB, 0x5E, 0xCB, 0x80, 0x76]);
    let cycles = run_to_halt(&mut cpu);
    assert_eq!(cycles, 10 + 7 + 8 + 15 + 12 + 8 + 4);
    assert_eq!(cpu.state().registers.bc >> 8, 0x02);
    assert_eq!(cpu.memory()[0x40], 0x08);
    assert_eq!(cpu.state().registers.f() & 0x40, 0);
}

#[test]
fn index_registers_take_the_place_of_hl() {
    // LD IX,0x0040; LD IY,0x0050; ADD IX,IX; INC IY; PUSH IX; POP BC; LD SP,IY; HALT
    let mut cpu = boot(&[
        0xDD, 0x21, 0x40, 0x00, 0xFD, 0x21, 0x50, 0x00, 0xDD, 0x29, 0xFD, 0x23, 0xDD, 0xE5, 0xC1, 0xFD, 0xF9, 0x76,
    ]);
    let cycles = run_to_halt(&mut cpu);
    assert_eq!(cycles, 14 + 14 + 15 + 10 + 15 + 10 + 10 + 4);
    let r = cpu.state().registers;
    assert_eq!(r.ix, 0x0080);
    assert_eq!(r.iy, 0x0051);
    assert_eq!(r.bc, 0x0080);
    assert_eq!(r.sp, 0x0051);
    assert_eq!(r.hl, 0);
}

#[test]
fn indexed_memory_operands_use_the_displacement() {
    // LD IX,0x0042; LD (IX-2),0x10; INC (IX-2); LD H,(IX-2); LD A,5; ADD A,(IX-2); SET 7,(IX-2); HALT
    let mut cpu = boot(&[
        0xDD, 0x21, 0x42, 0x00, 0xDD, 0x36, 0xFE, 0x10, 0xDD, 0x34, 0xFE, 0xDD, 0x66, 0xFE, 0x3E, 0x05, 0xDD, 0x86,
        0xFE, 0xDD, 0xCB, 0xFE, 0xFE, 0x76,
    ]);
    let cycles = run_to_halt(&mut cpu);
    assert_eq!(cycles, 14 + 19 + 23 + 19 + 7 + 19 + 23 + 4);
    let r = cpu.state().registers;
    assert_eq!(r.ix, 0x0042);
    assert_eq!(r.hl, 0x1100);
    assert_eq!(r.a(), 0x16);
    assert_eq!(cpu.memory()[0x40], 0x91);
}

#[test]
fn exchange_of_de_and_hl_ignores_the_index_prefix() {
    // LD HL,0x1111; LD DE,0x2222; DD EB; HALT
    let mut cpu = boot(&[0x21, 0x11, 0x11, 0x11, 0x22, 0x22, 0xDD, 0xEB, 0x76]);
    run_to_halt(&mut cpu);
    let r = cpu.state().registers;
    assert_eq!(r.hl, 0x2222);
    assert_eq!(r.de, 0x1111);
    assert_eq!(r.ix, 0);
}

#[test]
fn index_prefix_before_a_prefix_is_a_nop() {
    // DD FD 21 34 12: the DD is passed over and LD IY,0x1234 executes.
    let mut cpu = boot(&[0xDD, 0xFD, 0x21, 0x34, 0x12, 0x76]);
    let (cycles, _) = cpu.execute(1);
    assert_eq!(cycles, 4);
    assert_eq!(cpu.state().registers.pc, 1);
    run_to_halt(&mut cpu);
    assert_eq!(cpu.state().registers.iy, 0x1234);
    assert_eq!(cpu.state().registers.ix, 0);
}

#[test]
fn restart_and_conditional_call() {
    // LD SP,0x9000; SCF; CALL NC,0x0030 (not taken); CALL C,0x0030; at 0x30: RST 28h; at 0x28: HALT
    let mut program = vec![0u8; 0x40];
    program[..10].copy_from_slice(&[0x31, 0x00, 0x90, 0x37, 0xD4, 0x30, 0x00, 0xDC, 0x30, 0x00]);
    program[0x30] = 0xEF;
    program[0x28] = 0x76;
    let mut cpu = boot(&program);
    let cycles = run_to_halt(&mut cpu);
    assert_eq!(cycles, 10 + 4 + 10 + 17 + 11 + 4);
    let r = cpu.state().registers;
    assert_eq!(r.pc, 0x29);
    assert_eq!(r.sp, 0x8FFC);
    assert_eq!(cpu.memory()[0x8FFE], 10);
    assert_eq!(cpu.memory()[0x8FFC], 0x31);
}
