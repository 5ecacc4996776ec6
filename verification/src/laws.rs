//! Laws of the machine that follow from the semantics of a step and a run.

use vstd::prelude::*;
use crate::cpu::{charged, outcome, reported, run_for, Run};
use crate::engine::Cpu;
use crate::error::StopReason;
use crate::machine::Machine;
use crate::memory::IoDevice;
use crate::registers::{spec_offset, Registers};

verus! {

/// A running processor with no interrupt due executes the instruction at
/// the program counter.
pub open spec fn executes(machine: Machine<impl IoDevice>) -> bool {
    !machine.cpu.halted && !machine.cpu.interrupt_due() && machine.cpu.bus_lock is Free
}

/// NOP moves the program counter by one byte, costs 4 T-states and changes
/// nothing else but the delay left by an EI.
pub proof fn lemma_nop_step<D: IoDevice>(machine: Machine<D>)
    requires
        !machine.cpu.halted,
        !machine.cpu.interrupt_due(),
        machine.operand_byte() == 0,
    ensures
        machine.step().0 == machine.with_cpu(Cpu { iff_wait: false, ..machine.cpu }).advance(1),
        machine.step().1 == 4,
{
    reveal(Machine::step);
}

/// Moving an address by one and then by `k` moves it by `k + 1`.
pub proof fn lemma_offset_step(address: u16, k: i32)
    requires
        0 <= k < 0x10000,
    ensures
        spec_offset(spec_offset(address, 1), k) == spec_offset(address, (k + 1) as i32),
{
}

/// With `count` NOP opcodes at the program counter, interrupts disabled and
/// a budget that lasts into the last of them, a run continues as the run of
/// the machine moved past them, with four T-states charged for each.
pub proof fn lemma_nops_prefix<D: IoDevice>(machine: Machine<D>, count: nat, remaining: int, consumed: int)
    requires
        !machine.cpu.halted,
        !machine.cpu.iff1,
        !machine.cpu.iff_wait,
        machine.cpu.bus_lock is Free,
        count <= 0x10000,
        forall|k: i32| 0 <= k < count ==> machine.read(#[trigger] spec_offset(machine.regs().pc, k)) == 0,
        count > 0 ==> remaining > 4 * (count - 1),
    ensures
        run_for(machine, remaining, consumed) == run_for(
            machine.advance(count as i32),
            remaining - 4 * count,
            consumed + 4 * count,
        ),
    decreases count,
{
    if count == 0 {
        assert(spec_offset(machine.regs().pc, 0) == machine.regs().pc);
        assert(machine.advance(0) == machine);
    } else {
        assert(machine.read(spec_offset(machine.regs().pc, 0i32)) == 0);
        assert(spec_offset(machine.regs().pc, 0) == machine.regs().pc);
        lemma_nop_step(machine);
        let next = machine.advance(1);
        assert(machine.with_cpu(Cpu { iff_wait: false, ..machine.cpu }) == machine);
        assert(machine.step().0 == next);
        assert forall|k: i32| 0 <= k < count - 1 implies next.read(
            #[trigger] spec_offset(next.regs().pc, k),
        ) == 0 by {
            lemma_offset_step(machine.regs().pc, k);
            assert(machine.read(spec_offset(machine.regs().pc, (k + 1) as i32)) == 0);
        }
        lemma_nops_prefix(next, (count - 1) as nat, remaining - 4, consumed + 4);
        lemma_offset_step(machine.regs().pc, (count - 1) as i32);
        assert(next.advance((count - 1) as i32) == machine.advance(count as i32));
    }
}

/// From a running processor with interrupts disabled, `count` consecutive
/// NOP opcodes and a budget that ends within the last of them leave the
/// program counter advanced by `count` bytes and everything else unchanged,
/// consume `4 * count` T-states, and the run is reported as done.
pub proof fn lemma_nops<D: IoDevice>(machine: Machine<D>, count: nat, budget: int)
    requires
        !machine.cpu.halted,
        !machine.cpu.iff1,
        !machine.cpu.iff_wait,
        machine.cpu.bus_lock is Free,
        0 < count <= 0x10000,
        forall|k: i32| 0 <= k < count ==> machine.read(#[trigger] spec_offset(machine.regs().pc, k)) == 0,
        4 * (count - 1) < budget <= 4 * count,
    ensures
        run_for(machine, budget, 0) == (Run {
            machine: machine.advance(count as i32),
            consumed: 4 * (count as int),
            failure: None,
        }),
        outcome(run_for(machine, budget, 0)) == StopReason::Done,
{
    lemma_nops_prefix(machine, count, budget, 0);
}

/// A hung processor stays as it is: a run of any budget changes nothing,
/// consumes nothing and is reported as hung again.
pub proof fn lemma_hung_is_final<D: IoDevice>(machine: Machine<D>, budget: int)
    requires
        machine.cpu.hung(),
    ensures
        run_for(machine, budget, 0) == (Run { machine: machine, consumed: 0, failure: None }),
        outcome(run_for(machine, budget, 0)) == StopReason::Hung(0),
{
}

/// HALT with interrupts disabled hangs the processor: the run stops after
/// the four T-states of the HALT, with the program counter behind it, and
/// is reported as hung.
pub proof fn lemma_halt_hangs<D: IoDevice>(machine: Machine<D>, budget: int)
    requires
        executes(machine),
        !machine.cpu.iff2,
        machine.operand_byte() == 0x76,
        budget > 0,
    ensures
        run_for(machine, budget, 0).machine == machine.with_cpu(
            Cpu { iff_wait: false, halted: true, ..machine.cpu },
        ).advance(1),
        run_for(machine, budget, 0).consumed == 4,
        outcome(run_for(machine, budget, 0)) == StopReason::Hung(4),
{
    reveal(Machine::step);
    let after = machine.step().0;
    assert(machine.step().1 == 4);
    assert(after.cpu.hung());
    assert(run_for(machine, budget, 0) == run_for(after, budget - 4, 4));
}

/// In interrupt mode 2 an accepted interrupt calls the address stored, low
/// byte first, at the vector whose high byte is register I and whose low
/// byte is the bus byte. It costs 19 T-states, clears both flip-flops,
/// leaves the line idle and ends a halt.
pub proof fn lemma_mode_two_vector<D: IoDevice>(machine: Machine<D>)
    requires
        machine.cpu.interrupt_due(),
        machine.cpu.int_mode == 2,
    ensures
        machine.step().1 == 19,
        machine.step().0.regs().pc == machine.read(
            (machine.regs().i * 256 + machine.cpu.bus) as u16,
        ) + 256 * machine.read(
            spec_offset((machine.regs().i * 256 + machine.cpu.bus) as u16, 1),
        ),
        machine.step().0.regs().sp == spec_offset(machine.regs().sp, -2i32),
        machine.step().0.cpu == (Cpu {
            iff1: false,
            iff2: false,
            iff_wait: false,
            halted: false,
            interrupt: false,
            registers: Registers {
                pc: machine.step().0.regs().pc,
                sp: machine.step().0.regs().sp,
                ..machine.regs()
            },
            ..machine.cpu
        }),
        machine.step().0.memory == machine.memory.write(
            spec_offset(machine.regs().sp, -2i32),
            crate::registers::spec_low(machine.regs().pc),
        ).write(
            spec_offset(spec_offset(machine.regs().sp, -2i32), 1),
            crate::registers::spec_high(machine.regs().pc),
        ),
{
    reveal(Machine::step);
}

/// In interrupt mode 1 an accepted interrupt calls 0x0038 in 13 T-states
/// and ends a halt.
pub proof fn lemma_mode_one_vector<D: IoDevice>(machine: Machine<D>)
    requires
        machine.cpu.interrupt_due(),
        machine.cpu.int_mode != 0,
        machine.cpu.int_mode != 2,
    ensures
        machine.step().1 == 13,
        machine.step().0.regs().pc == 0x38,
        !machine.step().0.cpu.halted,
        !machine.step().0.cpu.iff1,
        !machine.step().0.cpu.interrupt,
        machine.step().0.top() == machine.push(machine.regs().pc).top(),
{
    reveal(Machine::step);
}

/// IN A,(n) reads the port once: the accumulator takes the byte that the
/// port's device presents, and no port or memory cell changes.
pub proof fn lemma_port_input<D: IoDevice>(machine: Machine<D>, port: u8)
    requires
        !machine.cpu.halted,
        !machine.cpu.interrupt_due(),
        machine.operand_byte() == 0xDB,
        machine.read(spec_offset(machine.regs().pc, 1)) == port,
    ensures
        machine.step().1 == 11,
        machine.step().0.regs().spec_a() == machine.ports[port as int].input(),
        machine.step().0.ports == machine.ports,
        machine.step().0.memory == machine.memory,
{
    reveal(Machine::step);
    crate::alu::lemma_word_halves(machine.ports[port as int].input(), machine.regs().spec_f());
}

/// OUT (n),A writes the accumulator to the port once: that port's slot is
/// the one after the write, and no other port, register but the program
/// counter, or memory cell changes.
pub proof fn lemma_port_output<D: IoDevice>(machine: Machine<D>, port: u8)
    requires
        !machine.cpu.halted,
        !machine.cpu.interrupt_due(),
        machine.operand_byte() == 0xD3,
        machine.read(spec_offset(machine.regs().pc, 1)) == port,
    ensures
        machine.step().1 == 11,
        machine.step().0.ports == machine.ports.update(
            port as int,
            machine.ports[port as int].after_output(machine.regs().spec_a()),
        ),
        machine.step().0.memory == machine.memory,
        machine.step().0.regs() == (Registers {
            pc: spec_offset(machine.regs().pc, 2),
            ..machine.regs()
        }),
{
    reveal(Machine::step);
    assert(spec_offset(spec_offset(machine.regs().pc, 1), 1) == spec_offset(machine.regs().pc, 2));
}

/// An instruction without a prefix costs between 4 and 19 T-states.
pub proof fn lemma_plain_cost<D: IoDevice>(machine: Machine<D>, op: u8)
    ensures
        4 <= machine.run_plain(op).1 <= 19,
{
    assert(4 <= machine.run_low(op).1 <= 16);
    assert(4 <= machine.run_load(op).1 <= 7);
    assert(4 <= machine.run_alu(op).1 <= 7);
    assert(4 <= machine.run_bits(machine.operand_byte()).1 <= 15);
    assert(4 <= machine.advance(1).run_bits(machine.operand_byte()).1 <= 15);
    assert(4 <= machine.run_flow(op).1 <= 19);
    assert(4 <= machine.run_calls(op).1 <= 17);
}

/// An instruction on a cell addressed through an index register costs
/// between 19 and 23 T-states.
pub proof fn lemma_cell_cost<D: IoDevice>(machine: Machine<D>, iy: bool, op: u8)
    ensures
        19 <= machine.run_cell(iy, op).1 <= 23,
{
}

/// An instruction after DD or FD costs between 8 and 23 T-states.
pub proof fn lemma_indexed_cost<D: IoDevice>(machine: Machine<D>, iy: bool, op: u8)
    ensures
        8 <= machine.run_indexed(iy, op).1 <= 23,
{
    lemma_plain_cost(machine, op);
    lemma_plain_cost(machine.swapped(iy), op);
    lemma_cell_cost(machine, iy, op);
}

/// A block instruction costs 16 or 21 T-states.
pub proof fn lemma_block_cost<D: IoDevice>(machine: Machine<D>, op: u8)
    ensures
        machine.run_block(op).1 == 16 || machine.run_block(op).1 == 21,
{
}

/// An instruction after ED costs between 8 and 21 T-states.
pub proof fn lemma_extended_cost<D: IoDevice>(machine: Machine<D>, op: u8)
    ensures
        8 <= machine.run_extended(op).1 <= 21,
{
    lemma_block_cost(machine, op);
}

/// Every instruction costs between 4 and 23 T-states.
pub proof fn lemma_run_cost<D: IoDevice>(machine: Machine<D>, op: u8)
    ensures
        4 <= machine.run(op).1 <= 23,
{
    lemma_indexed_cost(machine.advance(1), op == 0xFD, machine.operand_byte());
    lemma_extended_cost(machine.advance(1), machine.operand_byte());
    lemma_plain_cost(machine, op);
}

/// Every step costs between 4 and 25 T-states, so a run charges each step
/// its own cost.
pub proof fn lemma_step_cost<D: IoDevice>(machine: Machine<D>)
    ensures
        4 <= machine.step().1 <= 25,
        charged(machine) == machine.step().1,
{
    reveal(Machine::step);
    let cleared = machine.with_cpu(
        Cpu { iff1: false, iff2: false, iff_wait: false, halted: false, interrupt: false, ..machine.cpu },
    );
    lemma_run_cost(cleared, machine.cpu.bus);
    lemma_run_cost(
        machine.with_cpu(Cpu { iff_wait: false, ..machine.cpu }).advance(1),
        machine.operand_byte(),
    );
}

/// A halted processor that an interrupt can release idles while none is
/// due: a run changes nothing but the delay left by an EI, consumes four
/// T-states for each step until the budget is used up, and is reported as
/// halted.
pub proof fn lemma_halted_idles<D: IoDevice>(machine: Machine<D>, remaining: int, consumed: int)
    requires
        machine.cpu.halted,
        machine.cpu.iff2,
        !machine.cpu.interrupt_due(),
        !machine.cpu.iff_wait || !machine.cpu.interrupt || !machine.cpu.iff1,
        machine.cpu.bus_lock is Free,
        consumed >= 0,
    ensures
        run_for(machine, remaining, consumed).failure is None,
        run_for(machine, remaining, consumed).machine.cpu.halted,
        run_for(machine, remaining, consumed).machine.cpu.iff2,
        run_for(machine, remaining, consumed).machine.regs() == machine.regs(),
        run_for(machine, remaining, consumed).machine.memory == machine.memory,
        run_for(machine, remaining, consumed).machine.ports == machine.ports,
        remaining <= 0 ==> run_for(machine, remaining, consumed).consumed == consumed,
        remaining > 0 ==> run_for(machine, remaining, consumed).consumed == consumed + 4 * ((remaining + 3) / 4),
        outcome(run_for(machine, remaining, consumed)) == StopReason::Halted(
            reported(run_for(machine, remaining, consumed).consumed),
        ),
    decreases (if remaining > 0 { remaining } else { 0 }),
{
    reveal(Machine::step);
    if remaining > 0 {
        let next = machine.with_cpu(Cpu { iff_wait: false, ..machine.cpu });
        assert(machine.step().0 == next);
        assert(machine.step().1 == 4);
        if next.cpu.interrupt_due() {
            // the delay of an EI was all that held the interrupt back
            assert(machine.cpu.iff_wait && machine.cpu.interrupt && machine.cpu.iff1);
        } else {
            lemma_halted_idles(next, remaining - 4, consumed + 4);
        }
    }
}

/// Of two posts on an idle line with a free lock exactly the first
/// succeeds: it makes the line pending with its byte, and the second is
/// rejected and leaves the line so, whichever of the two kinds of caller
/// makes each. A clear makes room for the next post.
pub proof fn lemma_one_post_succeeds(cpu: Cpu, first: u8, second: u8, waits_first: bool, waits_second: bool)
    requires
        !cpu.interrupt,
        cpu.bus_lock is Free,
    ensures
        cpu.spec_post_status(waits_first) is Ok,
        cpu.spec_posted(first).interrupt,
        cpu.spec_posted(first).bus == first,
        cpu.spec_posted(first).spec_post_status(waits_second) is Err,
        cpu.spec_posted(first).spec_posted(second) == cpu.spec_posted(first),
        cpu.spec_posted(first).spec_cleared().spec_post_status(waits_second) is Ok,
{
}

/// A word pushed on a stack that memory stores is the word on top of it,
/// and dropping it restores the stack pointer.
pub proof fn lemma_push_then_top<D: IoDevice>(machine: Machine<D>, value: u16)
    requires
        machine.memory.writable.contains(spec_offset(machine.regs().sp, -2i32)),
        machine.memory.writable.contains(spec_offset(machine.regs().sp, -1i32)),
    ensures
        machine.push(value).top() == value,
        machine.push(value).drop_top().regs().sp == machine.regs().sp,
{
    let sp = spec_offset(machine.regs().sp, -2i32);
    assert(spec_offset(sp, 1i32) == spec_offset(machine.regs().sp, -1i32));
    assert(spec_offset(sp, 1i32) != sp);
    assert(spec_offset(sp, 2i32) == machine.regs().sp);
    crate::alu::lemma_halves_word(value);
}

/// An interrupt accepted in mode 1 or 2 on a stack that memory stores
/// keeps the way back: a return from the handler resumes at the program
/// counter at which the interrupt was accepted, which after a HALT is the
/// address behind it, with the stack pointer as it was.
pub proof fn lemma_interrupt_returns<D: IoDevice>(machine: Machine<D>)
    requires
        machine.cpu.interrupt_due(),
        machine.cpu.int_mode != 0,
        machine.memory.writable.contains(spec_offset(machine.regs().sp, -2i32)),
        machine.memory.writable.contains(spec_offset(machine.regs().sp, -1i32)),
    ensures
        !machine.step().0.cpu.halted,
        machine.step().0.ret().regs().pc == machine.regs().pc,
        machine.step().0.ret().regs().sp == machine.regs().sp,
{
    reveal(Machine::step);
    let cleared = machine.with_cpu(
        Cpu { iff1: false, iff2: false, iff_wait: false, halted: false, interrupt: false, ..machine.cpu },
    );
    lemma_push_then_top(cleared, machine.regs().pc);
}

/// A run never consumes less than nothing, and overdraws a positive budget
/// by less than the cost of one step. A run that neither failed nor left
/// the processor hung has used its budget up.
pub proof fn lemma_run_bounds<D: IoDevice>(machine: Machine<D>, remaining: int, consumed: int)
    ensures
        remaining <= 0 ==> run_for(machine, remaining, consumed).consumed == consumed,
        remaining > 0 ==> consumed <= run_for(machine, remaining, consumed).consumed < consumed + remaining
            + 25,
        run_for(machine, remaining, consumed).failure is None && !run_for(
            machine,
            remaining,
            consumed,
        ).machine.cpu.hung() ==> run_for(machine, remaining, consumed).consumed >= consumed + remaining,
    decreases (if remaining > 0 { remaining } else { 0 }),
{
    if remaining > 0 && !machine.cpu.hung() && machine.cpu.spec_acquire(true) is Ok {
        lemma_step_cost(machine);
        lemma_run_bounds(machine.step().0, remaining - charged(machine), consumed + charged(machine));
    }
}

} // verus!
