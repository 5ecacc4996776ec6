//! What an instruction does, stated on a mathematical model of the whole
//! machine: the processor's state, the memory image and the port table.
//!
//! Opcodes are decoded by their fields: `x` is bits 7-6, `y` bits 5-3 and
//! `z` bits 2-0. Every opcode without an entry of its own executes as NOP:
//! an ED opcode without an entry costs 8 T-states, and a DD or FD prefix
//! that stands before another DD, ED or FD costs 4 and leaves that byte to
//! be decoded on its own. After DD or FD, an opcode that does not address
//! memory through HL works on IX or IY, and on their halves, wherever it
//! would work on HL, H or L; EX DE,HL and EXX are not affected.

use vstd::prelude::*;
use crate::alu::{spec_adc16, spec_add16, spec_digit_rotate, spec_sbc16, spec_adjust, spec_alu, spec_bit_op, spec_dec8, spec_inc8, spec_rotate, spec_sub8};
use crate::engine::{Cpu, IoPort};
use crate::memory::{Image, IoDevice};
use crate::registers::{spec_condition, spec_flags, spec_high, spec_low, spec_offset, spec_signed, spec_word, Registers};

verus! {

/// The machine as an instruction sees it.
pub struct Machine<D> {
    pub cpu: Cpu,
    pub memory: Image,
    pub ports: Seq<IoPort<D>>,
}

impl<D: IoDevice> Machine<D> {
    /// The port table has its 256 slots.
    pub open spec fn wf(self) -> bool {
        self.ports.len() == 256
    }

    pub open spec fn regs(self) -> Registers {
        self.cpu.registers
    }

    pub open spec fn with_cpu(self, cpu: Cpu) -> Self {
        Machine { cpu: cpu, ..self }
    }

    pub open spec fn with_regs(self, registers: Registers) -> Self {
        Machine { cpu: Cpu { registers: registers, ..self.cpu }, ..self }
    }

    pub open spec fn with_pc(self, pc: u16) -> Self {
        self.with_regs(Registers { pc: pc, ..self.regs() })
    }

    pub open spec fn with_af(self, out: (u8, u8)) -> Self {
        self.with_regs(self.regs().spec_with_af(out.0, out.1))
    }

    /// The program counter moved past `count` bytes.
    pub open spec fn advance(self, count: i32) -> Self {
        self.with_pc(spec_offset(self.regs().pc, count))
    }

    pub open spec fn read(self, address: u16) -> u8 {
        self.memory.read(address)
    }

    pub open spec fn read_word(self, address: u16) -> u16 {
        self.memory.read_word(address)
    }

    pub open spec fn write(self, address: u16, value: u8) -> Self {
        Machine { memory: self.memory.write(address, value), ..self }
    }

    /// A 16-bit store: the low byte at `address`, the high byte after it.
    pub open spec fn write_word(self, address: u16, value: u16) -> Self {
        self.write(address, spec_low(value)).write(spec_offset(address, 1i32), spec_high(value))
    }

    /// The byte at the program counter.
    pub open spec fn operand_byte(self) -> u8 {
        self.read(self.regs().pc)
    }

    /// The word at the program counter, low byte first.
    pub open spec fn operand_word(self) -> u16 {
        self.read_word(self.regs().pc)
    }

    /// `value` pushed: the stack pointer drops by two and the word is stored
    /// at it.
    pub open spec fn push(self, value: u16) -> Self {
        let sp = spec_offset(self.regs().sp, -2i32);
        self.write_word(sp, value).with_regs(Registers { sp: sp, ..self.regs() })
    }

    /// The word on top of the stack.
    pub open spec fn top(self) -> u16 {
        self.read_word(self.regs().sp)
    }

    /// The stack pointer moved past the word on top.
    pub open spec fn drop_top(self) -> Self {
        self.with_regs(Registers { sp: spec_offset(self.regs().sp, 2i32), ..self.regs() })
    }

    /// The 8-bit operand that a 3-bit field selects: code 6 is the byte at
    /// the address in HL, every other code a register.
    pub open spec fn operand(self, code: u8) -> u8 {
        if code == 6 {
            self.read(self.regs().hl)
        } else {
            self.regs().spec_reg8(code)
        }
    }

    pub open spec fn store(self, code: u8, value: u8) -> Self {
        if code == 6 {
            self.write(self.regs().hl, value)
        } else {
            self.with_regs(self.regs().spec_with_reg8(code, value))
        }
    }

    /// The pair that a PUSH or POP selects: as `pair`, with AF in place of SP.
    pub open spec fn stack_pair(self, code: u8) -> u16 {
        if code == 3 {
            self.regs().af
        } else {
            self.regs().spec_pair(code)
        }
    }

    pub open spec fn with_stack_pair(self, code: u8, value: u16) -> Self {
        if code == 3 {
            self.with_regs(Registers { af: value, ..self.regs() })
        } else {
            self.with_regs(self.regs().spec_with_pair(code, value))
        }
    }

    pub open spec fn port_in(self, port: u8) -> u8 {
        self.ports[port as int].input()
    }

    pub open spec fn port_out(self, port: u8, value: u8) -> Self {
        Machine {
            ports: self.ports.update(port as int, self.ports[port as int].after_output(value)),
            ..self
        }
    }

    /// A jump relative to the program counter by the signed byte `distance`.
    pub open spec fn jump_by(self, distance: u8) -> Self {
        self.with_pc(spec_offset(self.regs().pc, spec_signed(distance)))
    }

    /// A call: the program counter is pushed and replaced by `target`.
    pub open spec fn call(self, target: u16) -> Self {
        self.push(self.regs().pc).with_pc(target)
    }

    /// A return: the program counter is popped.
    pub open spec fn ret(self) -> Self {
        self.drop_top().with_pc(self.top())
    }

    /// The opcodes 0x00 to 0x3F, after the opcode byte was fetched.
    pub open spec fn run_low(self, op: u8) -> (Self, int) {
        let y: u8 = op / 8;
        let z: u8 = op % 8;
        let p: u8 = y / 2;
        let r = self.regs();
        if z == 0 {
            if y == 0 {
                (self, 4)
            } else if y == 1 {
                (self.with_regs(Registers { af: r.af_alt, af_alt: r.af, ..r }), 4)
            } else if y == 2 {
                let b: u8 = if spec_high(r.bc) == 0 { 255u8 } else { (spec_high(r.bc) - 1) as u8 };
                let m = self.advance(1).store(0, b);
                if b != 0 {
                    (m.jump_by(self.operand_byte()), 13)
                } else {
                    (m, 8)
                }
            } else if y == 3 {
                (self.advance(1).jump_by(self.operand_byte()), 12)
            } else if spec_condition(r.spec_f(), (y - 4) as u8) {
                (self.advance(1).jump_by(self.operand_byte()), 12)
            } else {
                (self.advance(1), 7)
            }
        } else if z == 1 {
            if y % 2 == 0 {
                (self.advance(2).with_regs(self.advance(2).regs().spec_with_pair(p, self.operand_word())), 10)
            } else {
                let out = spec_add16(r.hl, r.spec_pair(p), r.spec_f());
                (self.with_regs(Registers { hl: out.0, af: spec_word(r.spec_a(), out.1), ..r }), 11)
            }
        } else if z == 2 {
            if y == 0 {
                (self.write(r.bc, r.spec_a()), 7)
            } else if y == 1 {
                (self.with_regs(r.spec_with_af(self.read(r.bc), r.spec_f())), 7)
            } else if y == 2 {
                (self.write(r.de, r.spec_a()), 7)
            } else if y == 3 {
                (self.with_regs(r.spec_with_af(self.read(r.de), r.spec_f())), 7)
            } else if y == 4 {
                (self.advance(2).write_word(self.operand_word(), r.hl), 16)
            } else if y == 5 {
                (self.advance(2).with_regs(Registers { hl: self.read_word(self.operand_word()), ..self.advance(2).regs() }), 16)
            } else if y == 6 {
                (self.advance(2).write(self.operand_word(), r.spec_a()), 13)
            } else {
                (self.advance(2).with_regs(self.advance(2).regs().spec_with_af(self.read(self.operand_word()), r.spec_f())), 13)
            }
        } else if z == 3 {
            (self.with_regs(r.spec_with_pair(p, spec_offset(r.spec_pair(p), if y % 2 == 0 { 1i32 } else { -1i32 }))), 6)
        } else if z == 4 {
            let out = spec_inc8(self.operand(y), r.spec_f());
            (self.store(y, out.0).with_af((self.store(y, out.0).regs().spec_a(), out.1)), if y == 6 { 11 } else { 4 })
        } else if z == 5 {
            let out = spec_dec8(self.operand(y), r.spec_f());
            (self.store(y, out.0).with_af((self.store(y, out.0).regs().spec_a(), out.1)), if y == 6 { 11 } else { 4 })
        } else if z == 6 {
            (self.advance(1).store(y, self.operand_byte()), if y == 6 { 10 } else { 7 })
        } else {
            (self.with_af(spec_adjust(y, r.spec_a(), r.spec_f())), 4)
        }
    }

    /// The opcodes 0x40 to 0x7F: HALT at 0x76, which stops the processor,
    /// and the 8-bit loads between registers and the byte at HL.
    pub open spec fn run_load(self, op: u8) -> (Self, int) {
        let y: u8 = (op / 8) % 8;
        let z: u8 = op % 8;
        if op == 0x76 {
            (self.with_cpu(Cpu { halted: true, ..self.cpu }), 4)
        } else {
            (self.store(y, self.operand(z)), if y == 6 || z == 6 { 7 } else { 4 })
        }
    }

    /// The opcodes 0x80 to 0xBF: an operation on the accumulator and an
    /// 8-bit operand.
    pub open spec fn run_alu(self, op: u8) -> (Self, int) {
        let y: u8 = (op / 8) % 8;
        let z: u8 = op % 8;
        (
            self.with_af(spec_alu(y, self.regs().spec_a(), self.operand(z), self.regs().spec_f())),
            if z == 6 { 7 } else { 4 },
        )
    }

    /// The opcodes 0xC0 to 0xFF whose field `z` is below 4: conditional
    /// returns, POP, RET, EXX, JP (HL), LD SP,HL, jumps, port I/O, the
    /// exchanges, DI and EI, and the CB prefix.
    pub open spec fn run_flow(self, op: u8) -> (Self, int) {
        let y: u8 = (op / 8) % 8;
        let z: u8 = op % 8;
        let p: u8 = y / 2;
        let r = self.regs();
        if z == 0 {
            if spec_condition(r.spec_f(), y) {
                (self.ret(), 11)
            } else {
                (self, 5)
            }
        } else if z == 1 {
            if y % 2 == 0 {
                (self.drop_top().with_stack_pair(p, self.top()), 10)
            } else if p == 0 {
                (self.ret(), 10)
            } else if p == 1 {
                (
                    self.with_regs(
                        Registers {
                            bc: r.bc_alt,
                            de: r.de_alt,
                            hl: r.hl_alt,
                            bc_alt: r.bc,
                            de_alt: r.de,
                            hl_alt: r.hl,
                            ..r
                        },
                    ),
                    4,
                )
            } else if p == 2 {
                (self.with_pc(r.hl), 4)
            } else {
                (self.with_regs(Registers { sp: r.hl, ..r }), 6)
            }
        } else if z == 2 {
            if spec_condition(r.spec_f(), y) {
                (self.with_pc(self.operand_word()), 10)
            } else {
                (self.advance(2), 10)
            }
        } else {
            if y == 0 {
                (self.with_pc(self.operand_word()), 10)
            } else if y == 1 {
                self.advance(1).run_bits(self.operand_byte())
            } else if y == 2 {
                (self.advance(1).port_out(self.operand_byte(), r.spec_a()), 11)
            } else if y == 3 {
                (self.advance(1).with_af((self.port_in(self.operand_byte()), r.spec_f())), 11)
            } else if y == 4 {
                (self.write_word(r.sp, r.hl).with_regs(Registers { hl: self.top(), ..r }), 19)
            } else if y == 5 {
                (self.with_regs(Registers { de: r.hl, hl: r.de, ..r }), 4)
            } else if y == 6 {
                (self.with_cpu(Cpu { iff1: false, iff2: false, ..self.cpu }), 4)
            } else {
                (self.with_cpu(Cpu { iff1: true, iff2: true, iff_wait: true, ..self.cpu }), 4)
            }
        }
    }

    /// The opcodes 0xC0 to 0xFF whose field `z` is 4 or more: calls, PUSH,
    /// the operations on the accumulator and an immediate byte, and the
    /// restarts. The prefixes DD, ED and FD are decoded before this table
    /// is reached, and count as NOP in it.
    pub open spec fn run_calls(self, op: u8) -> (Self, int) {
        let y: u8 = (op / 8) % 8;
        let z: u8 = op % 8;
        let p: u8 = y / 2;
        let r = self.regs();
        if z == 4 {
            if spec_condition(r.spec_f(), y) {
                (self.advance(2).call(self.operand_word()), 17)
            } else {
                (self.advance(2), 10)
            }
        } else if z == 5 {
            if y % 2 == 0 {
                (self.push(self.stack_pair(p)), 11)
            } else if p == 0 {
                (self.advance(2).call(self.operand_word()), 17)
            } else {
                (self, 4)
            }
        } else if z == 6 {
            (self.advance(1).with_af(spec_alu(y, r.spec_a(), self.operand_byte(), r.spec_f())), 7)
        } else {
            (self.call((y * 8) as u16), 11)
        }
    }

    /// The opcodes after the CB prefix: shifts and rotations, BIT, RES and
    /// SET on a register or the byte at HL.
    pub open spec fn run_bits(self, op: u8) -> (Self, int) {
        let x: u8 = op / 64;
        let y: u8 = (op / 8) % 8;
        let z: u8 = op % 8;
        let f = self.regs().spec_f();
        let out = if x == 0 {
            spec_rotate(y, self.operand(z), f)
        } else {
            spec_bit_op(x, y, self.operand(z), f)
        };
        let m = if x == 1 { self } else { self.store(z, out.0) };
        (m.with_af((m.regs().spec_a(), out.1)), if z != 6 { 8int } else if x == 1 { 12int } else { 15int })
    }

    /// The block instructions after the ED prefix: LDI, CPI, INI, OUTI, the
    /// forms that count down, and the forms that repeat. One step moves or
    /// compares one byte; a repeating form that is not done moves the
    /// program counter back onto itself and costs 21 T-states in place of 16.
    pub open spec fn run_block(self, op: u8) -> (Self, int) {
        let y: u8 = (op / 8) % 8;
        let z: u8 = op % 8;
        let r = self.regs();
        let f = r.spec_f();
        let delta: i32 = if y % 2 == 0 { 1i32 } else { -1i32 };
        let bc = spec_offset(r.bc, -1i32);
        let hl = spec_offset(r.hl, delta);
        let b: u8 = if spec_high(r.bc) == 0 { 255u8 } else { (spec_high(r.bc) - 1) as u8 };
        let counted = spec_flags(f >= 128, b == 0, (f / 16) % 2 == 1, (f / 4) % 2 == 1, true, f % 2 == 1);
        if z == 0 {
            let m = self.write(r.de, self.read(r.hl)).with_regs(
                Registers {
                    bc: bc,
                    de: spec_offset(r.de, delta),
                    hl: hl,
                    af: spec_word(r.spec_a(), spec_flags(f >= 128, (f / 64) % 2 == 1, false, bc != 0, false, f % 2 == 1)),
                    ..r
                },
            );
            if y >= 6 && bc != 0 {
                (m.advance(-2i32), 21)
            } else {
                (m, 16)
            }
        } else if z == 1 {
            let out = spec_sub8(r.spec_a(), self.read(r.hl), false);
            let m = self.with_regs(
                Registers {
                    bc: bc,
                    hl: hl,
                    af: spec_word(r.spec_a(), spec_flags(out.0 >= 128, out.0 == 0, (out.1 / 16) % 2 == 1, bc != 0, true, f % 2 == 1)),
                    ..r
                },
            );
            if y >= 6 && bc != 0 && out.0 != 0 {
                (m.advance(-2i32), 21)
            } else {
                (m, 16)
            }
        } else if z == 2 {
            let m = self.write(r.hl, self.port_in(spec_low(r.bc))).with_regs(
                Registers { bc: spec_word(b, spec_low(r.bc)), hl: hl, af: spec_word(r.spec_a(), counted), ..r },
            );
            if y >= 6 && b != 0 {
                (m.advance(-2i32), 21)
            } else {
                (m, 16)
            }
        } else {
            let m = self.port_out(spec_low(r.bc), self.read(r.hl)).with_regs(
                Registers { bc: spec_word(b, spec_low(r.bc)), hl: hl, af: spec_word(r.spec_a(), counted), ..r },
            );
            if y >= 6 && b != 0 {
                (m.advance(-2i32), 21)
            } else {
                (m, 16)
            }
        }
    }

    /// The opcodes after the ED prefix that have an entry: 16-bit ADC and
    /// SBC, the 16-bit loads through an address, port I/O through register
    /// C, NEG, RETN and RETI, IM, the loads between A and I or R, RRD and
    /// RLD, and the block instructions.
    pub open spec fn run_extended(self, op: u8) -> (Self, int) {
        let x: u8 = op / 64;
        let y: u8 = (op / 8) % 8;
        let z: u8 = op % 8;
        let r = self.regs();
        if x == 2 && y >= 4 && z < 4 {
            self.run_block(op)
        } else if x != 1 {
            (self, 8)
        } else if z == 2 {
            let out = if y % 2 == 0 {
                spec_sbc16(r.hl, r.spec_pair(y / 2), r.spec_f() % 2 == 1)
            } else {
                spec_adc16(r.hl, r.spec_pair(y / 2), r.spec_f() % 2 == 1)
            };
            (self.with_regs(Registers { hl: out.0, af: spec_word(r.spec_a(), out.1), ..r }), 15)
        } else if z == 3 {
            if y % 2 == 0 {
                (self.advance(2).write_word(self.operand_word(), r.spec_pair(y / 2)), 20)
            } else {
                (
                    self.advance(2).with_regs(
                        self.advance(2).regs().spec_with_pair(y / 2, self.read_word(self.operand_word())),
                    ),
                    20,
                )
            }
        } else if z == 0 {
            let value = self.port_in(spec_low(r.bc));
            let f = crate::alu::spec_logic_flags(value, false);
            let kept = (f - f % 2 + r.spec_f() % 2) as u8;
            if y == 6 {
                (self.with_af((r.spec_a(), kept)), 12)
            } else {
                (self.with_regs(r.spec_with_reg8(y, value)).with_af((self.with_regs(r.spec_with_reg8(y, value)).regs().spec_a(), kept)), 12)
            }
        } else if z == 1 {
            (self.port_out(spec_low(r.bc), if y == 6 { 0u8 } else { r.spec_reg8(y) }), 12)
        } else if z == 4 {
            (self.with_af(spec_sub8(0, r.spec_a(), false)), 8)
        } else if z == 5 {
            (self.ret().with_cpu(Cpu { iff1: self.cpu.iff2, ..self.ret().cpu }), 14)
        } else if z == 6 {
            (self.with_cpu(Cpu { int_mode: if y % 4 == 2 { 1u8 } else if y % 4 == 3 { 2u8 } else { 0u8 }, ..self.cpu }), 8)
        } else if z == 7 {
            if y == 0 {
                (self.with_regs(Registers { i: r.spec_a(), ..r }), 9)
            } else if y == 1 {
                (self.with_regs(Registers { r: r.spec_a(), ..r }), 9)
            } else if y == 2 {
                (self.with_af((r.i, self.transfer_flags(r.i))), 9)
            } else if y == 3 {
                (self.with_af((r.r, self.transfer_flags(r.r))), 9)
            } else if y == 4 || y == 5 {
                let out = spec_digit_rotate(y == 5, r.spec_a(), self.read(r.hl), r.spec_f());
                (self.write(r.hl, out.1).with_af((out.0, out.2)), 18)
            } else {
                (self, 8)
            }
        } else {
            (self, 8)
        }
    }

    /// The flags after LD A,I and LD A,R: sign and zero follow the byte,
    /// parity takes IFF2, carry is kept.
    pub open spec fn transfer_flags(self, value: u8) -> u8 {
        crate::registers::spec_flags(value >= 128, value == 0, false, self.cpu.iff2, false, self.regs().spec_f() % 2 == 1)
    }

    /// One instruction without a prefix, after its opcode byte `op` was
    /// fetched: the machine it leaves and its cost in T-states.
    pub open spec fn run_plain(self, op: u8) -> (Self, int) {
        let x: u8 = op / 64;
        if x == 0 {
            self.run_low(op)
        } else if x == 1 {
            self.run_load(op)
        } else if x == 2 {
            self.run_alu(op)
        } else if op % 8 < 4 {
            self.run_flow(op)
        } else {
            self.run_calls(op)
        }
    }

    /// The machine with HL exchanged for IX, or for IY.
    pub open spec fn swapped(self, iy: bool) -> Self {
        let r = self.regs();
        if iy {
            self.with_regs(Registers { hl: r.iy, iy: r.hl, ..r })
        } else {
            self.with_regs(Registers { hl: r.ix, ix: r.hl, ..r })
        }
    }

    /// Whether an opcode addresses the byte at HL, which after DD or FD
    /// becomes the byte at IX or IY plus a displacement.
    pub open spec fn spec_uses_cell(op: u8) -> bool {
        let x: u8 = op / 64;
        let y: u8 = (op / 8) % 8;
        let z: u8 = op % 8;
        op == 0xCB || (x == 1 && op != 0x76 && (y == 6 || z == 6)) || (x == 2 && z == 6) || (x == 0 && y == 6
            && 4 <= z <= 6)
    }

    /// An opcode after DD or FD that addresses memory: the signed byte that
    /// follows the opcode is added to the index register, and the cell at
    /// that address takes the place of the byte at HL, while H and L keep
    /// naming the halves of HL. After CB the opcode follows the
    /// displacement, and its result goes to the cell alone.
    pub open spec fn run_cell(self, iy: bool, op: u8) -> (Self, int) {
        let x: u8 = op / 64;
        let y: u8 = (op / 8) % 8;
        let z: u8 = op % 8;
        let r = self.regs();
        let address = spec_offset(if iy { r.iy } else { r.ix }, spec_signed(self.operand_byte()));
        let m = self.advance(1);
        let cell = self.read(address);
        if op == 0xCB {
            let next = m.operand_byte();
            let group: u8 = next / 64;
            let out = if group == 0 {
                spec_rotate((next / 8) % 8, cell, r.spec_f())
            } else {
                spec_bit_op(group, (next / 8) % 8, cell, r.spec_f())
            };
            if group == 1 {
                (m.advance(1).with_af((r.spec_a(), out.1)), 20)
            } else {
                (m.advance(1).write(address, out.0).with_af((r.spec_a(), out.1)), 23)
            }
        } else if x == 1 {
            if y == 6 {
                (m.write(address, r.spec_reg8(z)), 19)
            } else {
                (m.with_regs(m.regs().spec_with_reg8(y, cell)), 19)
            }
        } else if x == 2 {
            (m.with_af(spec_alu(y, r.spec_a(), cell, r.spec_f())), 19)
        } else if z == 4 {
            (m.write(address, spec_inc8(cell, r.spec_f()).0).with_af((r.spec_a(), spec_inc8(cell, r.spec_f()).1)), 23)
        } else if z == 5 {
            (m.write(address, spec_dec8(cell, r.spec_f()).0).with_af((r.spec_a(), spec_dec8(cell, r.spec_f()).1)), 23)
        } else {
            (m.advance(1).write(address, m.operand_byte()), 19)
        }
    }

    /// An opcode after DD or FD. One that addresses memory goes through the
    /// index register and a displacement. EX DE,HL and EXX work as without
    /// the prefix, at 4 T-states more. Every other opcode works on the index
    /// register in place of HL, at 4 T-states more.
    pub open spec fn run_indexed(self, iy: bool, op: u8) -> (Self, int) {
        if Self::spec_uses_cell(op) {
            self.run_cell(iy, op)
        } else if op == 0xEB || op == 0xD9 {
            (self.run_plain(op).0, self.run_plain(op).1 + 4)
        } else {
            (self.swapped(iy).run_plain(op).0.swapped(iy), self.swapped(iy).run_plain(op).1 + 4)
        }
    }

    /// One instruction, after its first byte `op` was fetched: the machine
    /// it leaves and its cost in T-states.
    pub open spec fn run(self, op: u8) -> (Self, int) {
        if op == 0xDD || op == 0xFD {
            if self.operand_byte() == 0xDD || self.operand_byte() == 0xED || self.operand_byte() == 0xFD {
                (self, 4)
            } else {
                self.advance(1).run_indexed(op == 0xFD, self.operand_byte())
            }
        } else if op == 0xED {
            self.advance(1).run_extended(self.operand_byte())
        } else {
            self.run_plain(op)
        }
    }

    /// The acceptance of the pending interrupt: both flip-flops are cleared,
    /// the line goes idle and a halt ends. Mode 0 executes the bus byte as
    /// an opcode, at two T-states over its own cost, and reads the bytes
    /// that follow the opcode at the program counter; mode 2 calls the address
    /// stored at the vector whose high byte is I and whose low byte is the
    /// bus byte, in 19 T-states; mode 1 calls 0x0038 in 13.
    pub open spec fn accept(self) -> (Self, int) {
        let m = self.with_cpu(
            Cpu { iff1: false, iff2: false, iff_wait: false, halted: false, interrupt: false, ..self.cpu },
        );
        if self.cpu.int_mode == 0 {
            (m.run(self.cpu.bus).0, m.run(self.cpu.bus).1 + 2)
        } else if self.cpu.int_mode == 2 {
            (m.call(m.read_word(spec_word(self.regs().i, self.cpu.bus))), 19)
        } else {
            (m.call(0x38), 13)
        }
    }

    /// One step at an instruction boundary: a due interrupt is accepted;
    /// else a halted processor idles for 4 T-states; else the instruction at
    /// the program counter is executed. The delay that EI imposes ends with
    /// the step that follows it.
    #[verifier::opaque]
    pub open spec fn step(self) -> (Self, int) {
        if self.cpu.interrupt_due() {
            self.accept()
        } else if self.cpu.halted {
            (self.with_cpu(Cpu { iff_wait: false, ..self.cpu }), 4)
        } else {
            self.with_cpu(Cpu { iff_wait: false, ..self.cpu }).advance(1).run(self.operand_byte())
        }
    }
}

} // verus!
