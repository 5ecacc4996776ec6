//! The processor with its memory and its ports: instruction execution under
//! a cycle budget, and the operations on the interrupt line.

use vstd::prelude::*;
use crate::alu::{adc16, add16, digit_rotate, sbc16, adjust, alu, bit_op, dec8, inc8, logic_flags, rotate, sub8};
use crate::engine::{BusLock, IoPort};
use crate::error::{Error, StopReason};
use crate::machine::Machine;
use crate::memory::{IoDevice, Memory};
use crate::registers::{condition, flags, high, low, offset, signed, word, Registers};

verus! {

/// Z80 CPU implementation: the processor's state, the memory it executes
/// from and the table of its 256 I/O ports.
pub struct Cpu<M: Memory, D: IoDevice> {
    state: crate::engine::Cpu,
    memory: M,
    devices: Vec<IoPort<D>>,
}

impl<M: Memory, D: IoDevice> View for Cpu<M, D> {
    type V = Machine<D>;

    closed spec fn view(&self) -> Machine<D> {
        Machine { cpu: self.state, memory: self.memory.image(), ports: self.devices@ }
    }
}

/// What a run leaves: the machine, the T-states consumed, and the failure
/// that ended the run early, if one did.
pub struct Run<D> {
    pub machine: Machine<D>,
    pub consumed: int,
    pub failure: Option<Error>,
}

/// The run of a machine under a budget of `remaining` T-states, with
/// `consumed` of them spent before. It ends when the budget is used up or
/// the processor hangs. Each step first takes the lock of the interrupt line
/// and the run fails if it cannot. The budget is tested between
/// instructions only, so the last one may overdraw it.
pub open spec fn run_for<D: IoDevice>(machine: Machine<D>, remaining: int, consumed: int) -> Run<D>
    decreases (if remaining > 0 { remaining } else { 0 }),
{
    if remaining <= 0 || machine.cpu.hung() {
        Run { machine: machine, consumed: consumed, failure: None }
    } else if machine.cpu.spec_acquire(true) is Err {
        Run { machine: machine, consumed: consumed, failure: machine.cpu.spec_acquire(true).err() }
    } else {
        run_for(machine.step().0, remaining - charged(machine), consumed + charged(machine))
    }
}

/// The T-states that a run charges for the next step: the step's cost,
/// which is never below 4 (`laws::lemma_step_cost`).
pub open spec fn charged<D: IoDevice>(machine: Machine<D>) -> int {
    if machine.step().1 < 4 { 4 } else { machine.step().1 }
}

/// The count of cycles as reported: `consumed`, or the largest `i32` where
/// it is above that.
pub open spec fn reported(consumed: int) -> i32 {
    if consumed > i32::MAX { i32::MAX } else { consumed as i32 }
}

/// How a run that did not fail is reported.
pub open spec fn spec_stop_reason(halted: bool, iff2: bool, cycles: i32) -> StopReason {
    if halted {
        if iff2 { StopReason::Halted(cycles) } else { StopReason::Hung(cycles) }
    } else {
        StopReason::Done
    }
}

/// How a run that did not fail is reported: `Done` for a running processor,
/// `Halted` for a halted one that an interrupt can release, `Hung` for a
/// halted one with interrupts disabled.
#[verifier::when_used_as_spec(spec_stop_reason)]
pub fn stop_reason(halted: bool, iff2: bool, cycles: i32) -> (reason: StopReason)
    ensures
        reason == spec_stop_reason(halted, iff2, cycles),
{
    if halted {
        if iff2 { StopReason::Halted(cycles) } else { StopReason::Hung(cycles) }
    } else {
        StopReason::Done
    }
}

impl<M: Memory, D: IoDevice> Cpu<M, D> {
    /// The port table has its 256 slots.
    pub open spec fn wf(&self) -> bool {
        self@.wf()
    }

    /// A processor at reset that executes from `memory`, with no device on
    /// any port.
    pub fn new(memory: M) -> (cpu: Self)
        ensures
            cpu.wf(),
            cpu@.cpu == crate::engine::Cpu::reset(),
            cpu@.memory == memory.image(),
            forall|port: int| 0 <= port < 256 ==> (#[trigger] cpu@.ports[port]).device is None,
    {
        let mut devices: Vec<IoPort<D>> = Vec::new();
        let mut count: usize = 0;
        while count < 256
            invariant
                count <= 256,
                devices@.len() == count,
                forall|port: int| 0 <= port < count ==> (#[trigger] devices@[port]).device is None,
            decreases 256 - count,
        {
            devices.push(IoPort::empty());
            count = count + 1;
        }
        Cpu { state: crate::engine::Cpu::new(), memory: memory, devices: devices }
    }

    /// Install a device on a Z80 I/O port, in place of the one that was there.
    pub fn install_device(&mut self, port: u8, device: D)
        requires
            old(self).wf(),
        ensures
            final(self).wf(),
            final(self)@ == (Machine {
                ports: old(self)@.ports.update(port as int, IoPort { device: Some(device) }),
                ..old(self)@
            }),
    {
        self.devices.set(port as usize, IoPort { device: Some(device) });
    }

    /// The processor's state.
    pub fn state(&self) -> (state: crate::engine::Cpu)
        ensures
            state == self@.cpu,
    {
        self.state
    }

    /// Replaces the processor's state.
    pub fn set_state(&mut self, state: crate::engine::Cpu)
        ensures
            final(self)@ == old(self)@.with_cpu(state),
    {
        self.state = state;
    }

    /// The memory.
    pub fn memory(&self) -> (memory: &M)
        ensures
            memory.image() == self@.memory,
    {
        &self.memory
    }

    /// The slot of one port.
    pub fn port(&self, port: u8) -> (slot: &IoPort<D>)
        requires
            self.wf(),
        ensures
            *slot == self@.ports[port as int],
    {
        &self.devices[port as usize]
    }

    /// The register file.
    fn regs(&self) -> (registers: Registers)
        ensures
            registers == self@.regs(),
    {
        self.state.registers
    }

    /// Replaces the register file.
    fn set_regs(&mut self, registers: Registers)
        ensures
            final(self)@ == old(self)@.with_regs(registers),
            final(self)@.ports.len() == old(self)@.ports.len(),
    {
        self.state.registers = registers;
    }

    /// Replaces the accumulator and the flags.
    fn set_af(&mut self, out: (u8, u8))
        ensures
            final(self)@ == old(self)@.with_af(out),
            final(self)@.ports.len() == old(self)@.ports.len(),
    {
        self.state.registers = self.state.registers.with_af(out.0, out.1);
    }

    /// Replaces the program counter.
    fn set_pc(&mut self, pc: u16)
        ensures
            final(self)@ == old(self)@.with_pc(pc),
            final(self)@.ports.len() == old(self)@.ports.len(),
    {
        self.state.registers.pc = pc;
    }

    /// Moves the program counter by `count` bytes.
    fn advance(&mut self, count: i32)
        requires
            -2 <= count <= 2,
        ensures
            final(self)@ == old(self)@.advance(count),
            final(self)@.ports.len() == old(self)@.ports.len(),
    {
        self.state.registers.pc = offset(self.state.registers.pc, count);
    }

    /// Reads one byte of memory.
    fn read(&self, address: u16) -> (value: u8)
        ensures
            value == self@.read(address),
    {
        self.memory.read_byte(address)
    }

    /// Reads a word of memory, low byte first.
    fn read_word(&self, address: u16) -> (value: u16)
        ensures
            value == self@.read_word(address),
    {
        let low_byte = self.memory.read_byte(address);
        let high_byte = self.memory.read_byte(offset(address, 1));
        word(high_byte, low_byte)
    }

    /// Writes one byte to memory.
    fn write(&mut self, address: u16, value: u8)
        ensures
            final(self)@ == old(self)@.write(address, value),
            final(self)@.ports.len() == old(self)@.ports.len(),
    {
        self.memory.write_byte(address, value);
    }

    /// Writes a word to memory, low byte first.
    fn write_word(&mut self, address: u16, value: u16)
        ensures
            final(self)@ == old(self)@.write_word(address, value),
            final(self)@.ports.len() == old(self)@.ports.len(),
    {
        self.write(address, low(value));
        self.write(offset(address, 1), high(value));
    }

    /// The byte at the program counter.
    fn operand_byte(&self) -> (value: u8)
        ensures
            value == self@.operand_byte(),
    {
        self.read(self.state.registers.pc)
    }

    /// The word at the program counter.
    fn operand_word(&self) -> (value: u16)
        ensures
            value == self@.operand_word(),
    {
        self.read_word(self.state.registers.pc)
    }

    /// Pushes a word on the stack.
    fn push(&mut self, value: u16)
        ensures
            final(self)@ == old(self)@.push(value),
            final(self)@.ports.len() == old(self)@.ports.len(),
    {
        let sp = offset(self.state.registers.sp, -2);
        self.write_word(sp, value);
        self.state.registers.sp = sp;
    }

    /// The word on top of the stack.
    fn top(&self) -> (value: u16)
        ensures
            value == self@.top(),
    {
        self.read_word(self.state.registers.sp)
    }

    /// Moves the stack pointer past the word on top.
    fn drop_top(&mut self)
        ensures
            final(self)@ == old(self)@.drop_top(),
            final(self)@.ports.len() == old(self)@.ports.len(),
    {
        self.state.registers.sp = offset(self.state.registers.sp, 2);
    }

    /// The 8-bit operand selected by a 3-bit field.
    fn operand(&self, code: u8) -> (value: u8)
        ensures
            value == self@.operand(code),
    {
        if code == 6 {
            self.read(self.state.registers.hl)
        } else {
            self.state.registers.reg8(code)
        }
    }

    /// Stores to the 8-bit operand selected by a 3-bit field.
    fn store(&mut self, code: u8, value: u8)
        ensures
            final(self)@ == old(self)@.store(code, value),
            final(self)@.ports.len() == old(self)@.ports.len(),
    {
        if code == 6 {
            self.write(self.state.registers.hl, value);
        } else {
            self.state.registers = self.state.registers.with_reg8(code, value);
        }
    }

    /// The register pair that a PUSH selects.
    fn stack_pair(&self, code: u8) -> (value: u16)
        ensures
            value == self@.stack_pair(code),
    {
        if code == 3 {
            self.state.registers.af
        } else {
            self.state.registers.pair(code)
        }
    }

    /// Replaces the register pair that a POP selects.
    fn set_stack_pair(&mut self, code: u8, value: u16)
        ensures
            final(self)@ == old(self)@.with_stack_pair(code, value),
            final(self)@.ports.len() == old(self)@.ports.len(),
    {
        if code == 3 {
            self.state.registers.af = value;
        } else {
            self.state.registers = self.state.registers.with_pair(code, value);
        }
    }

    /// Reads a port.
    fn port_in(&self, port: u8) -> (value: u8)
        requires
            self@.wf(),
        ensures
            value == self@.port_in(port),
    {
        self.devices[port as usize].read_in()
    }

    /// Writes to a port.
    fn port_out(&mut self, port: u8, value: u8)
        requires
            old(self)@.wf(),
        ensures
            final(self)@ == old(self)@.port_out(port, value),
            final(self)@.ports.len() == old(self)@.ports.len(),
    {
        let slot = &mut self.devices[port as usize];
        slot.write_out(value);
        assert(self.devices@ =~= old(self).devices@.update(
            port as int,
            old(self).devices@[port as int].after_output(value),
        ));
    }

    /// Jumps relative to the program counter.
    fn jump_by(&mut self, distance: u8)
        ensures
            final(self)@ == old(self)@.jump_by(distance),
            final(self)@.ports.len() == old(self)@.ports.len(),
    {
        self.state.registers.pc = offset(self.state.registers.pc, signed(distance));
    }

    /// Pushes the program counter and jumps to `target`.
    fn call(&mut self, target: u16)
        ensures
            final(self)@ == old(self)@.call(target),
            final(self)@.ports.len() == old(self)@.ports.len(),
    {
        let pc = self.state.registers.pc;
        self.push(pc);
        self.set_pc(target);
    }

    /// Pops the program counter.
    fn ret(&mut self)
        ensures
            final(self)@ == old(self)@.ret(),
            final(self)@.ports.len() == old(self)@.ports.len(),
    {
        let target = self.top();
        self.drop_top();
        self.set_pc(target);
    }
}

impl<M: Memory, D: IoDevice> Cpu<M, D> {
    /// Executes one of the opcodes 0x00 to 0x3F.
    fn run_low(&mut self, op: u8) -> (cost: i32)
        requires
            op < 64,
        ensures
            final(self)@ == old(self)@.run_low(op).0,
            final(self)@.ports.len() == old(self)@.ports.len(),
            cost == old(self)@.run_low(op).1,
            4 <= cost <= 19,
    {
        let y: u8 = op / 8;
        let z: u8 = op % 8;
        let p: u8 = y / 2;
        let r = self.regs();
        if z == 0 {
            if y == 0 {
                4
            } else if y == 1 {
                self.set_regs(Registers { af: r.af_alt, af_alt: r.af, ..r });
                4
            } else if y == 2 {
                let b: u8 = if high(r.bc) == 0 { 255u8 } else { high(r.bc) - 1 };
                let distance = self.operand_byte();
                self.advance(1);
                self.store(0, b);
                if b != 0 {
                    self.jump_by(distance);
                    13
                } else {
                    8
                }
            } else if y == 3 || condition(r.f(), y - 4) {
                let distance = self.operand_byte();
                self.advance(1);
                self.jump_by(distance);
                12
            } else {
                self.advance(1);
                7
            }
        } else if z == 1 {
            if y % 2 == 0 {
                let value = self.operand_word();
                self.advance(2);
                let moved = self.regs();
                self.set_regs(moved.with_pair(p, value));
                10
            } else {
                let out = add16(r.hl, r.pair(p), r.f());
                self.set_regs(Registers { hl: out.0, af: word(r.a(), out.1), ..r });
                11
            }
        } else if z == 2 {
            if y == 0 {
                self.write(r.bc, r.a());
                7
            } else if y == 1 {
                let value = self.read(r.bc);
                self.set_regs(r.with_af(value, r.f()));
                7
            } else if y == 2 {
                self.write(r.de, r.a());
                7
            } else if y == 3 {
                let value = self.read(r.de);
                self.set_regs(r.with_af(value, r.f()));
                7
            } else if y == 4 {
                let address = self.operand_word();
                self.advance(2);
                self.write_word(address, r.hl);
                16
            } else if y == 5 {
                let value = self.read_word(self.operand_word());
                self.advance(2);
                let moved = self.regs();
                self.set_regs(Registers { hl: value, ..moved });
                16
            } else if y == 6 {
                let address = self.operand_word();
                self.advance(2);
                self.write(address, r.a());
                13
            } else {
                let value = self.read(self.operand_word());
                self.advance(2);
                let moved = self.regs();
                self.set_regs(moved.with_af(value, r.f()));
                13
            }
        } else if z == 3 {
            let delta: i32 = if y % 2 == 0 { 1i32 } else { -1i32 };
            self.set_regs(r.with_pair(p, offset(r.pair(p), delta)));
            6
        } else if z == 4 {
            let out = inc8(self.operand(y), r.f());
            self.store(y, out.0);
            let a = self.regs().a();
            self.set_af((a, out.1));
            if y == 6 { 11 } else { 4 }
        } else if z == 5 {
            let out = dec8(self.operand(y), r.f());
            self.store(y, out.0);
            let a = self.regs().a();
            self.set_af((a, out.1));
            if y == 6 { 11 } else { 4 }
        } else if z == 6 {
            let value = self.operand_byte();
            self.advance(1);
            self.store(y, value);
            if y == 6 { 10 } else { 7 }
        } else {
            self.set_af(adjust(y, r.a(), r.f()));
            4
        }
    }

    /// Executes one of the opcodes 0x40 to 0x7F.
    fn run_load(&mut self, op: u8) -> (cost: i32)
        ensures
            final(self)@ == old(self)@.run_load(op).0,
            final(self)@.ports.len() == old(self)@.ports.len(),
            cost == old(self)@.run_load(op).1,
            4 <= cost <= 19,
    {
        let y: u8 = (op / 8) % 8;
        let z: u8 = op % 8;
        if op == 0x76 {
            self.state.halted = true;
            4
        } else {
            let value = self.operand(z);
            self.store(y, value);
            if y == 6 || z == 6 { 7 } else { 4 }
        }
    }

    /// Executes one of the opcodes 0x80 to 0xBF.
    fn run_alu(&mut self, op: u8) -> (cost: i32)
        ensures
            final(self)@ == old(self)@.run_alu(op).0,
            final(self)@.ports.len() == old(self)@.ports.len(),
            cost == old(self)@.run_alu(op).1,
            4 <= cost <= 19,
    {
        let y: u8 = (op / 8) % 8;
        let z: u8 = op % 8;
        let r = self.regs();
        let out = alu(y, r.a(), self.operand(z), r.f());
        self.set_af(out);
        if z == 6 { 7 } else { 4 }
    }

    /// Executes one of the opcodes 0xC0 to 0xFF whose low field is below 4.
    fn run_flow(&mut self, op: u8) -> (cost: i32)
        requires
            old(self)@.wf(),
        ensures
            final(self)@ == old(self)@.run_flow(op).0,
            final(self)@.ports.len() == old(self)@.ports.len(),
            cost == old(self)@.run_flow(op).1,
            4 <= cost <= 19,
    {
        let y: u8 = (op / 8) % 8;
        let z: u8 = op % 8;
        let p: u8 = y / 2;
        let r = self.regs();
        if z == 0 {
            if condition(r.f(), y) {
                self.ret();
                11
            } else {
                5
            }
        } else if z == 1 {
            if y % 2 == 0 {
                let value = self.top();
                self.drop_top();
                self.set_stack_pair(p, value);
                10
            } else if p == 0 {
                self.ret();
                10
            } else if p == 1 {
                self.set_regs(
                    Registers {
                        bc: r.bc_alt,
                        de: r.de_alt,
                        hl: r.hl_alt,
                        bc_alt: r.bc,
                        de_alt: r.de,
                        hl_alt: r.hl,
                        ..r
                    },
                );
                4
            } else if p == 2 {
                self.set_pc(r.hl);
                4
            } else {
                self.set_regs(Registers { sp: r.hl, ..r });
                6
            }
        } else if z == 2 {
            if condition(r.f(), y) {
                let target = self.operand_word();
                self.set_pc(target);
                10
            } else {
                self.advance(2);
                10
            }
        } else {
            if y == 0 {
                let target = self.operand_word();
                self.set_pc(target);
                10
            } else if y == 1 {
                let next = self.operand_byte();
                self.advance(1);
                self.run_bits(next)
            } else if y == 2 {
                let port = self.operand_byte();
                self.advance(1);
                self.port_out(port, r.a());
                11
            } else if y == 3 {
                let value = self.port_in(self.operand_byte());
                self.advance(1);
                self.set_af((value, r.f()));
                11
            } else if y == 4 {
                let value = self.top();
                self.write_word(r.sp, r.hl);
                self.set_regs(Registers { hl: value, ..r });
                19
            } else if y == 5 {
                self.set_regs(Registers { de: r.hl, hl: r.de, ..r });
                4
            } else if y == 6 {
                self.state.iff1 = false;
                self.state.iff2 = false;
                4
            } else {
                self.state.iff1 = true;
                self.state.iff2 = true;
                self.state.iff_wait = true;
                4
            }
        }
    }

    /// Executes one of the opcodes 0xC0 to 0xFF whose low field is 4 or more.
    fn run_calls(&mut self, op: u8) -> (cost: i32)
        requires
            old(self)@.wf(),
        ensures
            final(self)@ == old(self)@.run_calls(op).0,
            final(self)@.ports.len() == old(self)@.ports.len(),
            cost == old(self)@.run_calls(op).1,
            4 <= cost <= 19,
    {
        let y: u8 = (op / 8) % 8;
        let z: u8 = op % 8;
        let p: u8 = y / 2;
        let r = self.regs();
        if z == 4 {
            if condition(r.f(), y) {
                let target = self.operand_word();
                self.advance(2);
                self.call(target);
                17
            } else {
                self.advance(2);
                10
            }
        } else if z == 5 {
            if y % 2 == 0 {
                let value = self.stack_pair(p);
                self.push(value);
                11
            } else if p == 0 {
                let target = self.operand_word();
                self.advance(2);
                self.call(target);
                17
            } else {
                4
            }
        } else if z == 6 {
            let value = self.operand_byte();
            self.advance(1);
            self.set_af(alu(y, r.a(), value, r.f()));
            7
        } else {
            self.call((y as u16) * 8);
            11
        }
    }

    /// Executes an opcode after the CB prefix.
    fn run_bits(&mut self, op: u8) -> (cost: i32)
        ensures
            final(self)@ == old(self)@.run_bits(op).0,
            final(self)@.ports.len() == old(self)@.ports.len(),
            cost == old(self)@.run_bits(op).1,
            4 <= cost <= 23,
    {
        let x: u8 = op / 64;
        let y: u8 = (op / 8) % 8;
        let z: u8 = op % 8;
        let f = self.regs().f();
        let out = if x == 0 {
            rotate(y, self.operand(z), f)
        } else {
            bit_op(x, y, self.operand(z), f)
        };
        if x != 1 {
            self.store(z, out.0);
        }
        let a = self.regs().a();
        self.set_af((a, out.1));
        if z != 6 {
            8
        } else if x == 1 {
            12
        } else {
            15
        }
    }

    /// Executes an opcode after the ED prefix.
    fn run_extended(&mut self, op: u8) -> (cost: i32)
        requires
            old(self)@.wf(),
        ensures
            final(self)@ == old(self)@.run_extended(op).0,
            final(self)@.ports.len() == old(self)@.ports.len(),
            cost == old(self)@.run_extended(op).1,
            4 <= cost <= 23,
    {
        let x: u8 = op / 64;
        let y: u8 = (op / 8) % 8;
        let z: u8 = op % 8;
        let r = self.regs();
        if x == 2 && y >= 4 && z < 4 {
            self.run_block(op)
        } else if x != 1 {
            8
        } else if z == 2 {
            let out = if y % 2 == 0 {
                sbc16(r.hl, r.pair(y / 2), r.f() % 2 == 1)
            } else {
                adc16(r.hl, r.pair(y / 2), r.f() % 2 == 1)
            };
            self.set_regs(Registers { hl: out.0, af: word(r.a(), out.1), ..r });
            15
        } else if z == 3 {
            if y % 2 == 0 {
                let address = self.operand_word();
                self.advance(2);
                self.write_word(address, r.pair(y / 2));
                20
            } else {
                let value = self.read_word(self.operand_word());
                self.advance(2);
                let moved = self.regs();
                self.set_regs(moved.with_pair(y / 2, value));
                20
            }
        } else if z == 0 {
            let value = self.port_in(low(r.bc));
            let f = logic_flags(value, false);
            let kept: u8 = f - f % 2 + r.f() % 2;
            if y != 6 {
                self.set_regs(r.with_reg8(y, value));
            }
            let a = self.regs().a();
            self.set_af((a, kept));
            12
        } else if z == 1 {
            self.port_out(low(r.bc), if y == 6 { 0u8 } else { r.reg8(y) });
            12
        } else if z == 4 {
            self.set_af(sub8(0, r.a(), false));
            8
        } else if z == 5 {
            let enabled = self.state.iff2;
            self.ret();
            self.state.iff1 = enabled;
            14
        } else if z == 6 {
            self.state.int_mode = if y % 4 == 2 { 1u8 } else if y % 4 == 3 { 2u8 } else { 0u8 };
            8
        } else if z == 7 {
            if y == 0 {
                self.set_regs(Registers { i: r.a(), ..r });
                9
            } else if y == 1 {
                self.set_regs(Registers { r: r.a(), ..r });
                9
            } else if y == 2 {
                let f = self.transfer_flags(r.i);
                self.set_af((r.i, f));
                9
            } else if y == 3 {
                let f = self.transfer_flags(r.r);
                self.set_af((r.r, f));
                9
            } else if y == 4 || y == 5 {
                let out = digit_rotate(y == 5, r.a(), self.read(r.hl), r.f());
                self.write(r.hl, out.1);
                self.set_af((out.0, out.2));
                18
            } else {
                8
            }
        } else {
            8
        }
    }

    /// Executes a block instruction.
    fn run_block(&mut self, op: u8) -> (cost: i32)
        requires
            old(self)@.wf(),
        ensures
            final(self)@ == old(self)@.run_block(op).0,
            final(self)@.ports.len() == old(self)@.ports.len(),
            cost == old(self)@.run_block(op).1,
            4 <= cost <= 23,
    {
        if op % 8 < 2 {
            self.run_block_memory(op)
        } else {
            self.run_block_ports(op)
        }
    }

    /// Executes a block move or a block compare.
    fn run_block_memory(&mut self, op: u8) -> (cost: i32)
        requires
            op % 8 < 2,
        ensures
            final(self)@ == old(self)@.run_block(op).0,
            final(self)@.ports.len() == old(self)@.ports.len(),
            cost == old(self)@.run_block(op).1,
            4 <= cost <= 23,
    {
        let y: u8 = (op / 8) % 8;
        let z: u8 = op % 8;
        let r = self.regs();
        let f = r.f();
        let delta: i32 = if y % 2 == 0 { 1i32 } else { -1i32 };
        let bc = offset(r.bc, -1i32);
        let hl = offset(r.hl, delta);
        if z == 0 {
            let value = self.read(r.hl);
            self.write(r.de, value);
            self.set_regs(
                Registers {
                    bc: bc,
                    de: offset(r.de, delta),
                    hl: hl,
                    af: word(r.a(), flags(f >= 128, (f / 64) % 2 == 1, false, bc != 0, false, f % 2 == 1)),
                    ..r
                },
            );
            if y >= 6 && bc != 0 {
                self.advance(-2i32);
                21
            } else {
                16
            }
        } else {
            let out = sub8(r.a(), self.read(r.hl), false);
            self.set_regs(
                Registers {
                    bc: bc,
                    hl: hl,
                    af: word(r.a(), flags(out.0 >= 128, out.0 == 0, (out.1 / 16) % 2 == 1, bc != 0, true, f % 2 == 1)),
                    ..r
                },
            );
            if y >= 6 && bc != 0 && out.0 != 0 {
                self.advance(-2i32);
                21
            } else {
                16
            }
        }
    }

    /// Executes a block input or a block output.
    fn run_block_ports(&mut self, op: u8) -> (cost: i32)
        requires
            old(self)@.wf(),
            op % 8 >= 2,
        ensures
            final(self)@ == old(self)@.run_block(op).0,
            final(self)@.ports.len() == old(self)@.ports.len(),
            cost == old(self)@.run_block(op).1,
            4 <= cost <= 23,
    {
        let y: u8 = (op / 8) % 8;
        let z: u8 = op % 8;
        let r = self.regs();
        let f = r.f();
        let delta: i32 = if y % 2 == 0 { 1i32 } else { -1i32 };
        let hl = offset(r.hl, delta);
        let b: u8 = if high(r.bc) == 0 { 255u8 } else { high(r.bc) - 1 };
        let counted = flags(f >= 128, b == 0, (f / 16) % 2 == 1, (f / 4) % 2 == 1, true, f % 2 == 1);
        if z == 2 {
            let value = self.port_in(low(r.bc));
            self.write(r.hl, value);
        } else {
            let value = self.read(r.hl);
            self.port_out(low(r.bc), value);
        }
        self.set_regs(Registers { bc: word(b, low(r.bc)), hl: hl, af: word(r.a(), counted), ..r });
        if y >= 6 && b != 0 {
            self.advance(-2i32);
            21
        } else {
            16
        }
    }

    /// The flags after LD A,I and LD A,R.
    fn transfer_flags(&self, value: u8) -> (f: u8)
        ensures
            f == self@.transfer_flags(value),
    {
        flags(value >= 128, value == 0, false, self.state.iff2, false, self.state.registers.f() % 2 == 1)
    }

    /// Executes an instruction without a prefix.
    fn run_plain(&mut self, op: u8) -> (cost: i32)
        requires
            old(self)@.wf(),
        ensures
            final(self)@ == old(self)@.run_plain(op).0,
            final(self)@.ports.len() == old(self)@.ports.len(),
            cost == old(self)@.run_plain(op).1,
            4 <= cost <= 19,
    {
        let x: u8 = op / 64;
        if x == 0 {
            self.run_low(op)
        } else if x == 1 {
            self.run_load(op)
        } else if x == 2 {
            self.run_alu(op)
        } else if op % 8 < 4 {
            self.run_flow(op)
        } else {
            self.run_calls(op)
        }
    }

    /// Exchanges HL with IX, or with IY.
    fn swap_index(&mut self, iy: bool)
        ensures
            final(self)@ == old(self)@.swapped(iy),
            final(self)@.ports.len() == old(self)@.ports.len(),
    {
        let r = self.state.registers;
        if iy {
            self.state.registers = Registers { hl: r.iy, iy: r.hl, ..r };
        } else {
            self.state.registers = Registers { hl: r.ix, ix: r.hl, ..r };
        }
    }

    /// Whether an opcode addresses the byte at HL.
    fn uses_cell(op: u8) -> (uses: bool)
        ensures
            uses == Machine::<D>::spec_uses_cell(op),
    {
        let x: u8 = op / 64;
        let y: u8 = (op / 8) % 8;
        let z: u8 = op % 8;
        op == 0xCB || (x == 1 && op != 0x76 && (y == 6 || z == 6)) || (x == 2 && z == 6) || (x == 0 && y == 6
            && 4 <= z && z <= 6)
    }

    /// Executes an opcode after DD or FD that addresses memory.
    fn run_cell(&mut self, iy: bool, op: u8) -> (cost: i32)
        ensures
            final(self)@ == old(self)@.run_cell(iy, op).0,
            final(self)@.ports.len() == old(self)@.ports.len(),
            cost == old(self)@.run_cell(iy, op).1,
            4 <= cost <= 23,
    {
        let x: u8 = op / 64;
        let y: u8 = (op / 8) % 8;
        let z: u8 = op % 8;
        let r = self.regs();
        let address = offset(if iy { r.iy } else { r.ix }, signed(self.operand_byte()));
        let cell = self.read(address);
        self.advance(1);
        if op == 0xCB {
            let next = self.operand_byte();
            let group: u8 = next / 64;
            let out = if group == 0 {
                rotate((next / 8) % 8, cell, r.f())
            } else {
                bit_op(group, (next / 8) % 8, cell, r.f())
            };
            self.advance(1);
            if group == 1 {
                self.set_af((r.a(), out.1));
                20
            } else {
                self.write(address, out.0);
                self.set_af((r.a(), out.1));
                23
            }
        } else if x == 1 {
            if y == 6 {
                self.write(address, r.reg8(z));
                19
            } else {
                let moved = self.regs();
                self.set_regs(moved.with_reg8(y, cell));
                19
            }
        } else if x == 2 {
            self.set_af(alu(y, r.a(), cell, r.f()));
            19
        } else if z == 4 {
            let out = inc8(cell, r.f());
            self.write(address, out.0);
            self.set_af((r.a(), out.1));
            23
        } else if z == 5 {
            let out = dec8(cell, r.f());
            self.write(address, out.0);
            self.set_af((r.a(), out.1));
            23
        } else {
            let value = self.operand_byte();
            self.advance(1);
            self.write(address, value);
            19
        }
    }

    /// Executes an opcode after DD or FD.
    fn run_indexed(&mut self, iy: bool, op: u8) -> (cost: i32)
        requires
            old(self)@.wf(),
        ensures
            final(self)@ == old(self)@.run_indexed(iy, op).0,
            final(self)@.ports.len() == old(self)@.ports.len(),
            cost == old(self)@.run_indexed(iy, op).1,
            4 <= cost <= 23,
    {
        if Self::uses_cell(op) {
            self.run_cell(iy, op)
        } else if op == 0xEB || op == 0xD9 {
            let cost = self.run_plain(op);
            cost + 4
        } else {
            self.swap_index(iy);
            let cost = self.run_plain(op);
            self.swap_index(iy);
            cost + 4
        }
    }

    /// Executes one instruction whose first byte was fetched.
    fn run(&mut self, op: u8) -> (cost: i32)
        requires
            old(self)@.wf(),
        ensures
            final(self)@ == old(self)@.run(op).0,
            final(self)@.ports.len() == old(self)@.ports.len(),
            cost == old(self)@.run(op).1,
            4 <= cost <= 23,
    {
        if op == 0xDD || op == 0xFD {
            let next = self.operand_byte();
            if next == 0xDD || next == 0xED || next == 0xFD {
                4
            } else {
                self.advance(1);
                self.run_indexed(op == 0xFD, next)
            }
        } else if op == 0xED {
            let next = self.operand_byte();
            self.advance(1);
            self.run_extended(next)
        } else {
            self.run_plain(op)
        }
    }

    /// Accepts the pending interrupt.
    fn accept(&mut self) -> (cost: i32)
        requires
            old(self)@.wf(),
        ensures
            final(self)@ == old(self)@.accept().0,
            final(self)@.ports.len() == old(self)@.ports.len(),
            cost == old(self)@.accept().1,
            4 <= cost <= 25,
    {
        let mode = self.state.int_mode;
        let bus = self.state.bus;
        self.state.iff1 = false;
        self.state.iff2 = false;
        self.state.iff_wait = false;
        self.state.halted = false;
        self.state.interrupt = false;
        if mode == 0 {
            let cost = self.run(bus);
            cost + 2
        } else if mode == 2 {
            let target = self.read_word(word(self.state.registers.i, bus));
            self.call(target);
            19
        } else {
            self.call(0x38);
            13
        }
    }

    /// Executes one step at an instruction boundary and returns its cost in
    /// T-states. The step reads the interrupt line without taking its lock:
    /// `execute` takes the lock before each step.
    pub fn step(&mut self) -> (cost: i32)
        requires
            old(self).wf(),
        ensures
            final(self).wf(),
            final(self)@ == old(self)@.step().0,
            cost == old(self)@.step().1,
            4 <= cost <= 25,
    {
        proof {
            reveal(Machine::step);
        }
        let cost = if self.state.iff1 && !self.state.iff_wait && self.state.interrupt {
            self.accept()
        } else if self.state.halted {
            self.state.iff_wait = false;
            4
        } else {
            let op = self.operand_byte();
            self.state.iff_wait = false;
            self.advance(1);
            self.run(op)
        };
        cost
    }
}

/// How a run is reported: the failure that ended it, or else the state in
/// which the processor was left.
pub open spec fn outcome<D: IoDevice>(run: Run<D>) -> StopReason {
    match run.failure {
        Some(e) => StopReason::Error(e),
        None => spec_stop_reason(run.machine.cpu.halted, run.machine.cpu.iff2, reported(run.consumed)),
    }
}

impl<M: Memory, D: IoDevice> Cpu<M, D> {
    /// Runs the processor under a budget of `cycles` T-states and returns
    /// the cycles consumed with the reason for stopping. The budget is
    /// tested between instructions, so the count may pass it by less than
    /// one instruction's cost. A processor that is hung, or a budget that is
    /// not positive, consumes nothing and changes nothing. A run that
    /// cannot take the lock of the interrupt line stops there and reports
    /// the error.
    pub fn execute(&mut self, cycles: i32) -> (out: (i32, StopReason))
        requires
            old(self).wf(),
        ensures
            final(self).wf(),
            final(self)@ == run_for(old(self)@, cycles as int, 0).machine,
            out.0 == reported(run_for(old(self)@, cycles as int, 0).consumed),
            out.1 == outcome(run_for(old(self)@, cycles as int, 0)),
    {
        let mut remaining: i32 = cycles;
        let mut consumed: i64 = 0;
        while remaining > 0 && !(self.state.halted && !self.state.iff2)
            invariant
                self.wf(),
                run_for(old(self)@, cycles as int, 0) == run_for(self@, remaining as int, consumed as int),
                consumed + remaining == cycles,
                0 <= consumed,
                consumed == 0 || remaining > -25,
            decreases (if remaining > 0 { remaining as int } else { 0 }),
        {
            match self.state.acquire(true) {
                Err(e) => {
                    return (clamp(consumed), StopReason::Error(e));
                },
                Ok(_) => {},
            }
            let cost = self.step();
            remaining = remaining - cost;
            consumed = consumed + (cost as i64);
        }
        let total = clamp(consumed);
        (total, stop_reason(self.state.halted, self.state.iff2, total))
    }

    /// Posts an interrupt, as a caller that waits for the lock or one that does not.
    fn post(&mut self, bus: u8, blocking: bool) -> (status: Result<(), Error>)
        ensures
            status == old(self)@.cpu.spec_post_status(blocking),
            final(self)@ == (if status is Ok {
                old(self)@.with_cpu(old(self)@.cpu.spec_posted(bus))
            } else {
                old(self)@
            }),
    {
        let status = self.state.post_status(blocking);
        if status.is_ok() {
            self.state = self.state.posted(bus);
        }
        status
    }

    /// Clears the line, as a caller that waits for the lock or one that does not.
    fn clear(&mut self, blocking: bool) -> (status: Result<(), Error>)
        ensures
            status == old(self)@.cpu.spec_acquire(blocking),
            final(self)@ == (if status is Ok {
                old(self)@.with_cpu(old(self)@.cpu.spec_cleared())
            } else {
                old(self)@
            }),
    {
        let status = self.state.acquire(blocking);
        if status.is_ok() {
            self.state = self.state.cleared();
        }
        status
    }

    /// Posts an interrupt with `bus` as the byte on the data bus, as a
    /// caller that waits for the lock of the line. On a free lock an idle
    /// line becomes pending; a line that is pending already rejects the
    /// post with `Other`. A lock that is held gives `Deadlock` and an
    /// unusable one `InvalidMutex`. Every failure leaves the line as it is.
    pub fn interrupt(&mut self, bus: u8) -> (status: Result<(), Error>)
        ensures
            status == old(self)@.cpu.spec_post_status(true),
            final(self)@ == (if status is Ok {
                old(self)@.with_cpu(old(self)@.cpu.spec_posted(bus))
            } else {
                old(self)@
            }),
    {
        self.post(bus, true)
    }

    /// Clears the interrupt line, as a caller that waits for the lock: a
    /// pending line becomes idle and an idle one stays so. A lock that is
    /// held gives `Deadlock` and an unusable one `InvalidMutex`, and the line
    /// is then left as it is.
    pub fn clear_interrupt(&mut self) -> (status: Result<(), Error>)
        ensures
            status == old(self)@.cpu.spec_acquire(true),
            final(self)@ == (if status is Ok {
                old(self)@.with_cpu(old(self)@.cpu.spec_cleared())
            } else {
                old(self)@
            }),
    {
        self.clear(true)
    }

    /// Posts an interrupt as a caller that does not wait: a lock that is
    /// held gives `WouldBlock`. Otherwise as `interrupt`.
    pub fn try_interrupt(&mut self, bus: u8) -> (status: Result<(), Error>)
        ensures
            status == old(self)@.cpu.spec_post_status(false),
            final(self)@ == (if status is Ok {
                old(self)@.with_cpu(old(self)@.cpu.spec_posted(bus))
            } else {
                old(self)@
            }),
    {
        self.post(bus, false)
    }

    /// Clears the interrupt line as a caller that does not wait: a lock that
    /// is held gives `WouldBlock`. Otherwise as `clear_interrupt`.
    pub fn try_clear_interrupt(&mut self) -> (status: Result<(), Error>)
        ensures
            status == old(self)@.cpu.spec_acquire(false),
            final(self)@ == (if status is Ok {
                old(self)@.with_cpu(old(self)@.cpu.spec_cleared())
            } else {
                old(self)@
            }),
    {
        self.clear(false)
    }
}

/// The count of cycles as an `i32`, held at the largest one.
fn clamp(consumed: i64) -> (cycles: i32)
    requires
        consumed >= 0,
    ensures
        cycles == reported(consumed as int),
{
    if consumed > 0x7FFF_FFFF { 0x7FFF_FFFF } else { consumed as i32 }
}

} // verus!
