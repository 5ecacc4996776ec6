use z80e::{BusLock, Cpu, Error, IoDevice, Memory, StopReason};

struct Latch {
    value: u8,
    reads: std::cell::Cell<u32>,
    written: Vec<u8>,
}

impl Latch {
    fn new(value: u8) -> Latch {
        Latch { value, reads: std::cell::Cell::new(0), written: Vec::new() }
    }
}

impl IoDevice for Latch {
    fn input(&self) -> u8 {
        self.value
    }

    fn after_output(&self, value: u8) -> Latch {
        let mut written = self.written.clone();
        written.push(value);
        Latch { value: self.value, reads: std::cell::Cell::new(self.reads.get()), written }
    }

    fn read_in(&self) -> u8 {
        self.reads.set(self.reads.get() + 1);
        self.value
    }

    fn write_out(&mut self, value: u8) {
        self.written.push(value);
    }
}

fn machine(program: &[u8]) -> Cpu<Vec<u8>, Latch> {
    let mut memory: Vec<u8> = vec![0; 0x10000];
    memory[..program.len()].copy_from_slice(program);
    Cpu::new(memory)
}

#[test]
fn it_works() {
}

#[test]
fn reset_state_is_zeroed_and_running() {
    let cpu = machine(&[]);
    let state = cpu.state();
    assert_eq!(state.registers.pc, 0);
    assert_eq!(state.registers.sp, 0);
    assert_eq!(state.registers.af, 0);
    assert!(!state.iff1 && !state.iff2 && !state.halted && !state.interrupt);
    assert_eq!(state.int_mode, 0);
    assert!(matches!(state.bus_lock, BusLock::Free));
    assert!(cpu.port(5).device.is_none());
}

#[test]
fn nops_advance_pc_and_cost_four_each() {
    let mut cpu = machine(&[0, 0, 0, 0, 0, 0, 0]);
    let (cycles, reason) = cpu.execute(28);
    assert_eq!(cycles, 28);
    assert!(matches!(reason, StopReason::Done));
    assert_eq!(cpu.state().registers.pc, 7);
}

#[test]
fn budget_is_tested_between_instructions() {
    // LD BC,0x1234 costs 10 T-states: a budget of 1 is overdrawn by 9.
    let mut cpu = machine(&[0x01, 0x34, 0x12]);
    let (cycles, reason) = cpu.execute(1);
    assert_eq!(cycles, 10);
    assert!(matches!(reason, StopReason::Done));
    assert_eq!(cpu.state().registers.bc, 0x1234);
    assert_eq!(cpu.state().registers.pc, 3);
}

#[test]
fn budget_that_is_not_positive_runs_nothing() {
    let mut cpu = machine(&[0x3E, 0x05]);
    let (cycles, reason) = cpu.execute(0);
    assert_eq!(cycles, 0);
    assert!(matches!(reason, StopReason::Done));
    assert_eq!(cpu.state().registers.pc, 0);
    let (cycles, _) = cpu.execute(-7);
    assert_eq!(cycles, 0);
    assert_eq!(cpu.state().registers.pc, 0);
}

#[test]
fn halt_with_interrupts_disabled_hangs() {
    let mut cpu = machine(&[0x00, 0x76, 0x00]);
    let (cycles, reason) = cpu.execute(100);
    assert_eq!(cycles, 8);
    assert!(matches!(reason, StopReason::Hung(8)));
    let pc = cpu.state().registers.pc;
    assert_eq!(pc, 2);
    let (cycles, reason) = cpu.execute(100);
    assert_eq!(cycles, 0);
    assert!(matches!(reason, StopReason::Hung(0)));
    assert_eq!(cpu.state().registers.pc, pc);
}

#[test]
fn hung_processor_ignores_a_posted_interrupt() {
    let mut cpu = machine(&[0x76]);
    cpu.execute(4);
    assert!(cpu.interrupt(0xFF).is_ok());
    let (cycles, reason) = cpu.execute(50);
    assert_eq!(cycles, 0);
    assert!(matches!(reason, StopReason::Hung(0)));
    assert!(cpu.state().interrupt);
}

#[test]
fn halt_is_released_by_an_interrupt_and_resumes_after_it() {
    // IM 1; EI; HALT; NOP  and a handler at 0x38 that returns.
    let mut program = vec![0u8; 0x40];
    program[..5].copy_from_slice(&[0xED, 0x56, 0xFB, 0x76, 0x00]);
    program[0x38] = 0xC9;
    let mut cpu = machine(&program);
    let (cycles, reason) = cpu.execute(16);
    assert_eq!(cycles, 16);
    assert!(matches!(reason, StopReason::Halted(16)));
    assert_eq!(cpu.state().registers.pc, 4);

    // Halted and releasable: each step idles for 4 T-states.
    let (cycles, reason) = cpu.execute(8);
    assert_eq!(cycles, 8);
    assert!(matches!(reason, StopReason::Halted(8)));
    assert_eq!(cpu.state().registers.pc, 4);

    assert!(cpu.interrupt(0xFF).is_ok());
    let (cycles, reason) = cpu.execute(13);
    assert_eq!(cycles, 13);
    assert!(matches!(reason, StopReason::Done));
    let state = cpu.state();
    assert_eq!(state.registers.pc, 0x38);
    assert_eq!(state.registers.sp, 0xFFFE);
    assert!(!state.iff1 && !state.iff2 && !state.halted && !state.interrupt);
    assert_eq!(cpu.memory()[0xFFFE], 4);
    assert_eq!(cpu.memory()[0xFFFF], 0);

    let (cycles, _) = cpu.execute(10);
    assert_eq!(cycles, 10);
    assert_eq!(cpu.state().registers.pc, 4);
    assert_eq!(cpu.state().registers.sp, 0);
}

#[test]
fn ei_delays_the_interrupt_by_one_instruction() {
    // EI; NOP; NOP with an interrupt already pending, mode 1.
    let mut cpu = machine(&[0xFB, 0x00, 0x00]);
    let mut state = cpu.state();
    state.int_mode = 1;
    cpu.set_state(state);
    assert!(cpu.interrupt(0).is_ok());
    cpu.execute(4);
    assert_eq!(cpu.state().registers.pc, 1);
    assert!(cpu.state().iff1 && cpu.state().iff_wait);
    cpu.execute(4);
    assert_eq!(cpu.state().registers.pc, 2);
    let (cycles, _) = cpu.execute(1);
    assert_eq!(cycles, 13);
    assert_eq!(cpu.state().registers.pc, 0x38);
    assert_eq!(cpu.memory()[0xFFFE], 2);
}

#[test]
fn mode_two_fetches_its_target_from_the_vector_table() {
    let mut program = vec![0u8; 0x3000];
    program[0x2004] = 0x34;
    program[0x2005] = 0x12;
    let mut cpu = machine(&program);
    let mut state = cpu.state();
    state.registers.i = 0x20;
    state.registers.pc = 0x0100;
    state.registers.sp = 0x8000;
    state.int_mode = 2;
    state.iff1 = true;
    state.iff2 = true;
    cpu.set_state(state);
    assert!(cpu.try_interrupt(0x04).is_ok());
    let (cycles, reason) = cpu.execute(1);
    assert_eq!(cycles, 19);
    assert!(matches!(reason, StopReason::Done));
    let state = cpu.state();
    assert_eq!(state.registers.pc, 0x1234);
    assert_eq!(state.registers.sp, 0x7FFE);
    assert_eq!(cpu.memory()[0x7FFE], 0x00);
    assert_eq!(cpu.memory()[0x7FFF], 0x01);
    assert!(!state.interrupt);
}

#[test]
fn mode_zero_executes_the_bus_byte() {
    // RST 10h on the bus: a call to 0x0010 at two T-states over its cost.
    let mut cpu = machine(&[0x00]);
    let mut state = cpu.state();
    state.iff1 = true;
    state.iff2 = true;
    state.registers.pc = 0x0200;
    cpu.set_state(state);
    assert!(cpu.interrupt(0xD7).is_ok());
    let (cycles, _) = cpu.execute(1);
    assert_eq!(cycles, 13);
    assert_eq!(cpu.state().registers.pc, 0x0010);
    assert_eq!(cpu.memory()[0xFFFE], 0x00);
    assert_eq!(cpu.memory()[0xFFFF], 0x02);
}

#[test]
fn port_io_reaches_the_installed_device_once() {
    // IN A,(5); OUT (5),A
    let mut cpu = machine(&[0xDB, 0x05, 0xD3, 0x05]);
    cpu.install_device(5, Latch::new(0xA7));
    let (cycles, _) = cpu.execute(11);
    assert_eq!(cycles, 11);
    assert_eq!(cpu.state().registers.af >> 8, 0xA7);
    {
        let device = cpu.port(5).device.as_ref().unwrap();
        assert_eq!(device.reads.get(), 1);
        assert!(device.written.is_empty());
    }
    let (cycles, _) = cpu.execute(11);
    assert_eq!(cycles, 11);
    let device = cpu.port(5).device.as_ref().unwrap();
    assert_eq!(device.reads.get(), 1);
    assert_eq!(device.written, vec![0xA7]);
}

#[test]
fn port_without_a_device_reads_zero_and_discards_writes() {
    // LD A,0x55; OUT (9),A; IN A,(9)
    let mut cpu = machine(&[0x3E, 0x55, 0xD3, 0x09, 0xDB, 0x09]);
    cpu.install_device(5, Latch::new(1));
    let (cycles, _) = cpu.execute(29);
    assert_eq!(cycles, 29);
    assert_eq!(cpu.state().registers.af >> 8, 0);
    assert!(cpu.port(9).device.is_none());
    assert!(cpu.port(5).device.as_ref().unwrap().written.is_empty());
}

#[test]
fn post_and_clear_move_the_line() {
    let mut cpu = machine(&[]);
    assert!(cpu.interrupt(7).is_ok());
    assert!(cpu.state().interrupt);
    assert_eq!(cpu.state().bus, 7);
    // A second post is rejected and leaves the pending byte.
    assert!(matches!(cpu.try_interrupt(9), Err(Error::Other("interrupt already pending"))));
    assert!(matches!(cpu.interrupt(9), Err(Error::Other("interrupt already pending"))));
    assert!(cpu.state().interrupt);
    assert_eq!(cpu.state().bus, 7);
    assert!(cpu.clear_interrupt().is_ok());
    assert!(!cpu.state().interrupt);
    assert!(cpu.try_interrupt(9).is_ok());
    assert_eq!(cpu.state().bus, 9);
    assert!(cpu.try_clear_interrupt().is_ok());
    assert!(!cpu.state().interrupt);
}

#[test]
fn held_lock_gives_deadlock_or_would_block() {
    let mut cpu = machine(&[]);
    let mut state = cpu.state();
    state.bus_lock = BusLock::Held;
    cpu.set_state(state);
    assert!(matches!(cpu.interrupt(1), Err(Error::Deadlock)));
    assert!(matches!(cpu.clear_interrupt(), Err(Error::Deadlock)));
    assert!(matches!(cpu.try_interrupt(1), Err(Error::WouldBlock)));
    assert!(matches!(cpu.try_clear_interrupt(), Err(Error::WouldBlock)));
    assert!(!cpu.state().interrupt);
    let (cycles, reason) = cpu.execute(10);
    assert_eq!(cycles, 0);
    assert!(matches!(reason, StopReason::Error(Error::Deadlock)));
}

#[test]
fn invalid_lock_is_reported_and_stops_a_run() {
    let mut cpu = machine(&[0x00, 0x00]);
    let mut state = cpu.state();
    state.bus_lock = BusLock::Invalid;
    cpu.set_state(state);
    assert!(matches!(cpu.interrupt(1), Err(Error::InvalidMutex)));
    assert!(matches!(cpu.try_interrupt(1), Err(Error::InvalidMutex)));
    assert!(matches!(cpu.clear_interrupt(), Err(Error::InvalidMutex)));
    assert!(matches!(cpu.try_clear_interrupt(), Err(Error::InvalidMutex)));
    let (cycles, reason) = cpu.execute(10);
    assert_eq!(cycles, 0);
    assert!(matches!(reason, StopReason::Error(Error::InvalidMutex)));
    assert_eq!(cpu.state().registers.pc, 0);
}

#[test]
fn vector_memory_reads_zero_and_ignores_writes_past_its_end() {
    let mut memory: Vec<u8> = vec![1, 2, 3, 4];
    memory.write_byte(2, 9);
    assert_eq!(memory.read_byte(2), 9);
    assert_eq!(memory.read_byte(4), 0);
    memory.write_byte(0x8000, 5);
    assert_eq!(memory, vec![1, 2, 9, 4]);
    assert_eq!(memory.read_byte(0x8000), 0);
}

#[test]
fn call_and_return_use_the_stack() {
    // LD SP,0x0100; CALL 0x0010; HALT ... at 0x10: LD A,0x42; RET
    let mut program = vec![0u8; 0x20];
    program[..7].copy_from_slice(&[0x31, 0x00, 0x01, 0xCD, 0x10, 0x00, 0x76]);
    program[0x10..0x13].copy_from_slice(&[0x3E, 0x42, 0xC9]);
    let mut cpu = machine(&program);
    let (cycles, reason) = cpu.execute(1000);
    assert_eq!(cycles, 10 + 17 + 7 + 10 + 4);
    assert!(matches!(reason, StopReason::Hung(48)));
    let state = cpu.state();
    assert_eq!(state.registers.af >> 8, 0x42);
    assert_eq!(state.registers.sp, 0x0100);
    assert_eq!(state.registers.pc, 7);
    assert_eq!(cpu.memory()[0x00FE], 6);
    assert_eq!(cpu.memory()[0x00FF], 0);
}

#[test]
fn djnz_loops_until_b_is_zero() {
    // LD B,3; loop: INC A; DJNZ loop; HALT
    let mut cpu = machine(&[0x06, 0x03, 0x3C, 0x10, 0xFD, 0x76]);
    let (cycles, _) = cpu.execute(1000);
    assert_eq!(cycles, 7 + 3 * 4 + 2 * 13 + 8 + 4);
    assert_eq!(cpu.state().registers.af >> 8, 3);
    assert_eq!(cpu.state().registers.bc >> 8, 0);
}

#[test]
fn undefined_extended_opcode_is_a_nop_of_eight_cycles() {
    let mut cpu = machine(&[0xED, 0x00, 0x76]);
    let before = cpu.state().registers;
    let (cycles, _) = cpu.execute(8);
    assert_eq!(cycles, 8);
    let after = cpu.state().registers;
    assert_eq!(after.pc, 2);
    assert_eq!(after.af, before.af);
    assert_eq!(after.hl, before.hl);
}

#[test]
fn array_memory_backs_every_address() {
    let mut memory = [0u8; 0x10000];
    memory.write_byte(0xFFFF, 0x5A);
    memory.write_byte(0, 1);
    assert_eq!(memory.read_byte(0xFFFF), 0x5A);
    assert_eq!(memory.read_byte(0), 1);
    assert_eq!(memory.read_byte(0x8000), 0);
}

#[test]
fn short_memory_reads_as_nops_past_its_end() {
    // Two bytes of memory: LD A,n reads its operand, then every fetch past the end is a NOP.
    let memory: Vec<u8> = vec![0x3E, 0x09];
    let mut cpu: Cpu<Vec<u8>, Latch> = Cpu::new(memory);
    let (cycles, reason) = cpu.execute(15);
    assert_eq!(cycles, 7 + 4 + 4);
    assert!(matches!(reason, StopReason::Done));
    assert_eq!(cpu.state().registers.pc, 4);
    assert_eq!(cpu.state().registers.af >> 8, 9);
    // A push goes nowhere.
    assert_eq!(cpu.memory().len(), 2);
}

#[test]
fn halted_processor_idles_in_steps_of_four() {
    let mut cpu = machine(&[0x76]);
    let mut state = cpu.state();
    state.iff2 = true;
    cpu.set_state(state);
    let (cycles, reason) = cpu.execute(4);
    assert_eq!(cycles, 4);
    assert!(matches!(reason, StopReason::Halted(4)));
    let (cycles, reason) = cpu.execute(5);
    assert_eq!(cycles, 8);
    assert!(matches!(reason, StopReason::Halted(8)));
    assert_eq!(cpu.state().registers.pc, 1);
}

#[test]
fn single_steps_report_their_cost() {
    // NOP; LD BC,nn; PUSH BC
    let mut cpu = machine(&[0x00, 0x01, 0x02, 0x03, 0xC5]);
    assert_eq!(cpu.step(), 4);
    assert_eq!(cpu.step(), 10);
    assert_eq!(cpu.step(), 11);
    assert_eq!(cpu.state().registers.pc, 5);
    assert_eq!(cpu.memory()[0xFFFE], 0x02);
    assert_eq!(cpu.memory()[0xFFFF], 0x03);
}

#[test]
fn stop_reasons_by_halt_state() {
    assert!(matches!(z80e::cpu::stop_reason(false, false, 5), StopReason::Done));
    assert!(matches!(z80e::cpu::stop_reason(false, true, 5), StopReason::Done));
    assert!(matches!(z80e::cpu::stop_reason(true, true, 5), StopReason::Halted(5)));
    assert!(matches!(z80e::cpu::stop_reason(true, false, 5), StopReason::Hung(5)));
}

#[test]
fn empty_port_slot_reads_zero() {
    let mut slot: z80e::IoPort<Latch> = z80e::IoPort::empty();
    assert_eq!(slot.read_in(), 0);
    slot.write_out(3);
    assert!(slot.device.is_none());
    let mut slot = z80e::IoPort { device: Some(Latch::new(4)) };
    assert_eq!(slot.read_in(), 4);
    slot.write_out(6);
    assert_eq!(slot.device.unwrap().written, vec![6]);
}

#[test]
fn lock_outcomes_of_the_state() {
    let mut state = z80e::engine::Cpu::new();
    assert!(state.acquire(true).is_ok());
    assert!(state.acquire(false).is_ok());
    state.bus_lock = BusLock::Held;
    assert!(matches!(state.acquire(true), Err(Error::Deadlock)));
    assert!(matches!(state.acquire(false), Err(Error::WouldBlock)));
    state.bus_lock = BusLock::Invalid;
    assert!(matches!(state.acquire(true), Err(Error::InvalidMutex)));
    state.bus_lock = BusLock::Free;
    assert!(state.post_status(false).is_ok());
    let posted = state.posted(5);
    assert!(matches!(posted.post_status(true), Err(Error::Other("interrupt already pending"))));
    assert!(posted.interrupt && posted.bus == 5);
    let again = posted.posted(6);
    assert!(again.interrupt && again.bus == 5);
    assert!(!again.cleared().interrupt);
}
