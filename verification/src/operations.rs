//! The cycle engine: for each tick it performs the work of exactly one 6502
//! clock cycle — one bus transaction, dispatched on the current opcode and
//! the tick-within-instruction counter `tm`.
//!
//! Between ticks `tm` holds the number of cycles of the current instruction
//! already executed; an opcode fetch runs with `tm == 0` and leaves `tm == 1`,
//! and the terminal cycle of every instruction sets `tm` back to 0.  While
//! `rdy` is high, a cycle that reads repeats the same read and leaves the
//! context untouched, so the engine does not advance.

use crate::bus::{pin_bus_op, Bus, BusOp};
use crate::context::{
    byte_flags, flags_byte, op_state_clear, pc_inc, pc_word, word_of, Context, FlagsRegister,
    InstructionRegister, InterruptState, OpState, ProgramCounter,
};
use crate::instructions::{add8, is_negative, sub8, Instruction};
use crate::pins::{inputs_preserved, Pin, Pinout};
use vstd::prelude::*;

verus! {

/// What every cycle of the engine guarantees, whatever the opcode: the bus
/// history grows by exactly the one transaction the pinout reports, the
/// host-driven lines are untouched, the cycle counter is left to the
/// caller's bookkeeping, and a stalled read leaves the context alone.
pub open spec fn one_bus_cycle(
    c0: Context,
    pin0: Pinout,
    l0: Seq<BusOp>,
    c1: Context,
    pin1: Pinout,
    l1: Seq<BusOp>,
) -> bool {
    &&& l1 == l0.push(pin_bus_op(pin1))
    &&& inputs_preserved(pin0, pin1)
    &&& c1.cycle == c0.cycle
    &&& (pin1.rw == Pin::On && pin0.rdy == Pin::On ==> c1 == c0)
}

/// The pins after an ordinary (non-fetch) read cycle at `addr`.
pub open spec fn read_pins(pin0: Pinout, pin1: Pinout, addr: u16) -> bool {
    &&& pin1.address == addr
    &&& pin1.rw == Pin::On
    &&& pin1.sync == Pin::Off
    &&& inputs_preserved(pin0, pin1)
}

/// The pins after a write cycle of `data` at `addr`.
pub open spec fn write_pins(pin0: Pinout, pin1: Pinout, addr: u16, data: u8) -> bool {
    &&& pin1.address == addr
    &&& pin1.data == data
    &&& pin1.rw == Pin::Off
    &&& pin1.sync == Pin::Off
    &&& inputs_preserved(pin0, pin1)
}

/// The pins after an opcode-fetch cycle at `addr`: as a read, but with
/// `sync` driven high.
pub open spec fn fetch_pins(pin0: Pinout, pin1: Pinout, addr: u16) -> bool {
    &&& pin1.address == addr
    &&& pin1.rw == Pin::On
    &&& pin1.sync == Pin::On
    &&& inputs_preserved(pin0, pin1)
}

/// The bus history grew by exactly the one read this cycle performed.
pub open spec fn read_logged(l0: Seq<BusOp>, l1: Seq<BusOp>, addr: u16, data: u8) -> bool {
    l1 == l0.push(BusOp::Read { addr, data })
}

/// The bus history grew by exactly the one write this cycle performed.
pub open spec fn write_logged(l0: Seq<BusOp>, l1: Seq<BusOp>, addr: u16, data: u8) -> bool {
    l1 == l0.push(BusOp::Write { addr, data })
}

/// The context with the tick counter set and everything else kept.
pub open spec fn with_tm(c: Context, tm: u8) -> Context {
    Context { ir: (InstructionRegister { opcode: c.ir.opcode, tm }), ..c }
}

/// The interrupt poll run at the end of every instruction.  An NMI latched
/// since the last poll wins over a level-asserted IRQ; IRQ is ignored while
/// the Interrupt-Disable flag is set.  The poll samples the IRQ level during
/// the instruction's final cycle: a line held through the instruction is seen
/// exactly as a penultimate-cycle sample would see it, while a pulse confined
/// to the final cycle is taken one instruction early.  Queueing either one clears the
/// scratch bank and forces the instruction register to the BRK opcode with
/// `tm == 0`, so the next tick enters the interrupt sequence instead of
/// fetching an opcode.
pub open spec fn poll_effect(c: Context, pin: Pinout) -> Context {
    if c.nmi_detected {
        Context {
            ints: InterruptState::Nmi,
            ops: op_state_clear(),
            ir: (InstructionRegister { opcode: 0u8, tm: 0u8 }),
            nmi_detected: false,
            ..c
        }
    } else if pin.irq == Pin::On && !c.p.interrupt_disable {
        Context {
            ints: InterruptState::Irq,
            ops: op_state_clear(),
            ir: (InstructionRegister { opcode: 0u8, tm: 0u8 }),
            ..c
        }
    } else {
        c
    }
}

/// The context after a completed opcode fetch: the byte read becomes the
/// opcode, one cycle of it has run, the scratch bank is cleared, and the
/// program counter has moved past the opcode.
pub open spec fn fetch_result(c: Context, data: u8) -> Context {
    Context {
        ir: (InstructionRegister { opcode: data, tm: 1u8 }),
        ops: op_state_clear(),
        pc: pc_inc(c.pc),
        ..c
    }
}

/// Poll the interrupt lines: latch an NMI queued by the edge detector, else
/// an asserted IRQ if the Interrupt-Disable flag allows it.
pub fn poll_interrupts(cpu: &mut Context, pinout: &mut Pinout)
    ensures
        *final(pinout) == *old(pinout),
        *final(cpu) == poll_effect(*old(cpu), *old(pinout)),
{
    if cpu.nmi_detected {
        cpu.ints = InterruptState::Nmi;
        cpu.ops.reset();
        cpu.ir.reset(0x00);
        cpu.nmi_detected = false;
    } else if pinout.irq == Pin::On && !cpu.p.interrupt_disable {
        cpu.ints = InterruptState::Irq;
        cpu.ops.reset();
        cpu.ir.reset(0x00);
    }
}

/// Drive one read cycle: address and direction on the pins, one bus read,
/// the byte on the data lines.
fn read_cycle<B: Bus>(bus: &mut B, pinout: &mut Pinout, addr: u16) -> (data: u8)
    ensures
        read_pins(*old(pinout), *final(pinout), addr),
        final(pinout).data == data,
        read_logged(old(bus).ops(), final(bus).ops(), addr, data),
{
    pinout.rw = Pin::On;
    pinout.sync = Pin::Off;
    pinout.address = addr;
    let data = bus.read(addr);
    pinout.data = data;
    data
}

/// Drive one write cycle: address, direction and data on the pins, one bus
/// write.
fn write_cycle<B: Bus>(bus: &mut B, pinout: &mut Pinout, addr: u16, data: u8)
    ensures
        write_pins(*old(pinout), *final(pinout), addr, data),
        write_logged(old(bus).ops(), final(bus).ops(), addr, data),
{
    pinout.rw = Pin::Off;
    pinout.sync = Pin::Off;
    pinout.address = addr;
    pinout.data = data;
    bus.write(addr, data);
}

fn to_address(hb: u8, lb: u8) -> (addr: u16)
    ensures
        addr == word_of(hb, lb),
{
    (hb as u16) * 256 + (lb as u16)
}

fn zp_address(lb: u8) -> (addr: u16)
    ensures
        addr == word_of(0, lb),
{
    lb as u16
}

fn stack_address(sp: u8) -> (addr: u16)
    ensures
        addr == word_of(1, sp),
{
    0x0100 + (sp as u16)
}

/// The opcode fetch: `sync` high, read at PC, latch the byte as the new
/// opcode, advance PC, clear the scratch bank.  A stalled fetch drives the
/// same pins but latches nothing.
pub fn fetch_cycle<B: Bus>(cpu: &mut Context, bus: &mut B, pinout: &mut Pinout)
    ensures
        fetch_pins(*old(pinout), *final(pinout), pc_word(old(cpu).pc)),
        read_logged(
            old(bus).ops(),
            final(bus).ops(),
            pc_word(old(cpu).pc),
            final(pinout).data,
        ),
        old(pinout).rdy == Pin::On ==> *final(cpu) == *old(cpu),
        old(pinout).rdy != Pin::On ==> *final(cpu) == fetch_result(
            *old(cpu),
            final(pinout).data,
        ),
        one_bus_cycle(
            *old(cpu),
            *old(pinout),
            old(bus).ops(),
            *final(cpu),
            *final(pinout),
            final(bus).ops(),
        ),
{
    let addr = u16::from(cpu.pc);
    let data = read_cycle(bus, pinout, addr);
    pinout.sync = Pin::On;
    if pinout.rdy == Pin::On {
        return ;
    }
    cpu.ir.reset(data);
    cpu.ir.increment();
    cpu.pc.increment();
    cpu.ops.reset();
}

/// First cycle of a queued IRQ or NMI sequence: a dummy read at PC with no
/// latch and no PC increment; the opcode was already forced to BRK when the
/// interrupt was polled.
pub fn int_entry<B: Bus>(cpu: &mut Context, bus: &mut B, pinout: &mut Pinout)
    ensures
        read_pins(*old(pinout), *final(pinout), pc_word(old(cpu).pc)),
        read_logged(
            old(bus).ops(),
            final(bus).ops(),
            pc_word(old(cpu).pc),
            final(pinout).data,
        ),
        old(pinout).rdy == Pin::On ==> *final(cpu) == *old(cpu),
        old(pinout).rdy != Pin::On ==> *final(cpu) == with_tm(
            *old(cpu),
            add8(old(cpu).ir.tm, 1),
        ),
        one_bus_cycle(
            *old(cpu),
            *old(pinout),
            old(bus).ops(),
            *final(cpu),
            *final(pinout),
            final(bus).ops(),
        ),
{
    let addr = u16::from(cpu.pc);
    let _data = read_cycle(bus, pinout, addr);
    if pinout.rdy == Pin::On {
        return ;
    }
    cpu.ir.increment();
}

/// Implied and accumulator opcodes: one dummy read at PC, the semantic, and
/// the instruction is over.  The interrupt poll runs before the semantic so
/// that a flag transition by SEI or CLI is not seen until the next
/// instruction ends, as on real silicon.
pub fn single_byte<I: Instruction, B: Bus>(
    cpu: &mut Context,
    bus: &mut B,
    pinout: &mut Pinout,
)
    ensures
        read_pins(*old(pinout), *final(pinout), pc_word(old(cpu).pc)),
        read_logged(
            old(bus).ops(),
            final(bus).ops(),
            pc_word(old(cpu).pc),
            final(pinout).data,
        ),
        old(pinout).rdy == Pin::On ==> *final(cpu) == *old(cpu),
        old(pinout).rdy != Pin::On ==> *final(cpu) == with_tm(
            I::effect(poll_effect(*old(cpu), *old(pinout))),
            0,
        ),
        one_bus_cycle(
            *old(cpu),
            *old(pinout),
            old(bus).ops(),
            *final(cpu),
            *final(pinout),
            final(bus).ops(),
        ),
{
    let addr = u16::from(cpu.pc);
    let _data = read_cycle(bus, pinout, addr);
    if pinout.rdy == Pin::On {
        return ;
    }
    poll_interrupts(cpu, pinout);
    proof {
        I::effect_frame(*cpu);
    }
    I::execute(cpu);
    cpu.ir.tm = 0;
}

/// The halt opcodes: a dummy read at PC and a semantic that rewinds PC by
/// one, so the processor re-fetches the same opcode forever.  Interrupts are
/// not polled; only reset recovers.
pub fn kil_halt<I: Instruction, B: Bus>(
    cpu: &mut Context,
    bus: &mut B,
    pinout: &mut Pinout,
)
    ensures
        read_pins(*old(pinout), *final(pinout), pc_word(old(cpu).pc)),
        read_logged(
            old(bus).ops(),
            final(bus).ops(),
            pc_word(old(cpu).pc),
            final(pinout).data,
        ),
        old(pinout).rdy == Pin::On ==> *final(cpu) == *old(cpu),
        old(pinout).rdy != Pin::On ==> *final(cpu) == with_tm(I::effect(*old(cpu)), 0),
        one_bus_cycle(
            *old(cpu),
            *old(pinout),
            old(bus).ops(),
            *final(cpu),
            *final(pinout),
            final(bus).ops(),
        ),
{
    let addr = u16::from(cpu.pc);
    let _data = read_cycle(bus, pinout, addr);
    if pinout.rdy == Pin::On {
        return ;
    }
    proof {
        I::effect_frame(*cpu);
    }
    I::execute(cpu);
    cpu.ir.tm = 0;
}

/// Immediate opcodes: read the operand at PC into the data latch, advance
/// PC, run the semantic, poll, done.
#[verifier::rlimit(100)]
#[verifier::spinoff_prover]
pub fn immediate<I: Instruction, B: Bus>(
    cpu: &mut Context,
    bus: &mut B,
    pinout: &mut Pinout,
)
    ensures
        read_pins(*old(pinout), *final(pinout), pc_word(old(cpu).pc)),
        read_logged(
            old(bus).ops(),
            final(bus).ops(),
            pc_word(old(cpu).pc),
            final(pinout).data,
        ),
        old(pinout).rdy == Pin::On ==> *final(cpu) == *old(cpu),
        old(pinout).rdy != Pin::On ==> *final(cpu) == with_tm(
            poll_effect(
                I::effect(
                    (Context {
                        pc: pc_inc(old(cpu).pc),
                        ops: (OpState { dl: final(pinout).data, ..old(cpu).ops }),
                        ..*old(cpu)
                    }),
                ),
                *old(pinout),
            ),
            0,
        ),
        one_bus_cycle(
            *old(cpu),
            *old(pinout),
            old(bus).ops(),
            *final(cpu),
            *final(pinout),
            final(bus).ops(),
        ),
{
    let addr = u16::from(cpu.pc);
    let data = read_cycle(bus, pinout, addr);
    if pinout.rdy == Pin::On {
        return ;
    }
    cpu.ops.dl = data;
    cpu.pc.increment();
    proof {
        I::effect_frame(*cpu);
    }
    I::execute(cpu);
    poll_interrupts(cpu, pinout);
    cpu.ir.tm = 0;
}

/// PHA: a dummy read at PC, then A is written to the stack and SP drops.
pub fn push_a<B: Bus>(cpu: &mut Context, bus: &mut B, pinout: &mut Pinout)
    ensures
        old(cpu).ir.tm == 1 ==> {
            &&& read_pins(*old(pinout), *final(pinout), pc_word(old(cpu).pc))
            &&& read_logged(
                old(bus).ops(),
                final(bus).ops(),
                pc_word(old(cpu).pc),
                final(pinout).data,
            )
            &&& (if old(pinout).rdy == Pin::On {
                *final(cpu) == *old(cpu)
            } else {
                *final(cpu) == with_tm(*old(cpu), 2)
            })
        },
        old(cpu).ir.tm != 1 ==> {
            &&& write_pins(*old(pinout), *final(pinout), word_of(1, old(cpu).sp), old(cpu).a)
            &&& write_logged(
                old(bus).ops(),
                final(bus).ops(),
                word_of(1, old(cpu).sp),
                old(cpu).a,
            )
            &&& *final(cpu) == with_tm(
                poll_effect(
                    (Context { sp: sub8(old(cpu).sp, 1), ..*old(cpu) }),
                    *old(pinout),
                ),
                0,
            )
        },
        one_bus_cycle(
            *old(cpu),
            *old(pinout),
            old(bus).ops(),
            *final(cpu),
            *final(pinout),
            final(bus).ops(),
        ),
{
    if cpu.ir.tm == 1 {
        let addr = u16::from(cpu.pc);
        let _data = read_cycle(bus, pinout, addr);
        if pinout.rdy == Pin::On {
            return ;
        }
        cpu.ir.increment();
    } else {
        let addr = stack_address(cpu.sp);
        write_cycle(bus, pinout, addr, cpu.a);
        cpu.sp = cpu.sp.wrapping_sub(1);
        poll_interrupts(cpu, pinout);
        cpu.ir.tm = 0;
    }
}

/// PHP: a dummy read at PC, then P is written to the stack with the "B" bit
/// set and SP drops.
pub fn push_p<B: Bus>(cpu: &mut Context, bus: &mut B, pinout: &mut Pinout)
    ensures
        old(cpu).ir.tm == 1 ==> {
            &&& read_pins(*old(pinout), *final(pinout), pc_word(old(cpu).pc))
            &&& read_logged(
                old(bus).ops(),
                final(bus).ops(),
                pc_word(old(cpu).pc),
                final(pinout).data,
            )
            &&& (if old(pinout).rdy == Pin::On {
                *final(cpu) == *old(cpu)
            } else {
                *final(cpu) == with_tm(*old(cpu), 2)
            })
        },
        old(cpu).ir.tm != 1 ==> {
            &&& write_pins(
                *old(pinout),
                *final(pinout),
                word_of(1, old(cpu).sp),
                flags_byte(old(cpu).p) | 0x10u8,
            )
            &&& write_logged(
                old(bus).ops(),
                final(bus).ops(),
                word_of(1, old(cpu).sp),
                flags_byte(old(cpu).p) | 0x10u8,
            )
            &&& *final(cpu) == with_tm(
                poll_effect(
                    (Context { sp: sub8(old(cpu).sp, 1), ..*old(cpu) }),
                    *old(pinout),
                ),
                0,
            )
        },
        one_bus_cycle(
            *old(cpu),
            *old(pinout),
            old(bus).ops(),
            *final(cpu),
            *final(pinout),
            final(bus).ops(),
        ),
{
    if cpu.ir.tm == 1 {
        let addr = u16::from(cpu.pc);
        let _data = read_cycle(bus, pinout, addr);
        if pinout.rdy == Pin::On {
            return ;
        }
        cpu.ir.increment();
    } else {
        let addr = stack_address(cpu.sp);
        let p = cpu.p.push_with_b_set();
        write_cycle(bus, pinout, addr, p);
        cpu.sp = cpu.sp.wrapping_sub(1);
        poll_interrupts(cpu, pinout);
        cpu.ir.tm = 0;
    }
}

/// PLA: dummy read at PC, dummy stack read while SP rises, then the pull
/// into A through the load semantic.  The poll runs before the semantic,
/// mirroring the status-register pull, where that order is what silicon does.
pub fn pull_reg<I: Instruction, B: Bus>(
    cpu: &mut Context,
    bus: &mut B,
    pinout: &mut Pinout,
)
    ensures
        old(cpu).ir.tm == 1 ==> {
            &&& read_pins(*old(pinout), *final(pinout), pc_word(old(cpu).pc))
            &&& read_logged(
                old(bus).ops(),
                final(bus).ops(),
                pc_word(old(cpu).pc),
                final(pinout).data,
            )
            &&& (if old(pinout).rdy == Pin::On {
                *final(cpu) == *old(cpu)
            } else {
                *final(cpu) == with_tm(*old(cpu), 2)
            })
        },
        old(cpu).ir.tm == 2 ==> {
            &&& read_pins(*old(pinout), *final(pinout), word_of(1, old(cpu).sp))
            &&& read_logged(
                old(bus).ops(),
                final(bus).ops(),
                word_of(1, old(cpu).sp),
                final(pinout).data,
            )
            &&& (if old(pinout).rdy == Pin::On {
                *final(cpu) == *old(cpu)
            } else {
                *final(cpu) == with_tm(
                    (Context { sp: add8(old(cpu).sp, 1), ..*old(cpu) }),
                    3,
                )
            })
        },
        !(old(cpu).ir.tm == 1 || old(cpu).ir.tm == 2) ==> {
            &&& read_pins(*old(pinout), *final(pinout), word_of(1, old(cpu).sp))
            &&& read_logged(
                old(bus).ops(),
                final(bus).ops(),
                word_of(1, old(cpu).sp),
                final(pinout).data,
            )
            &&& (if old(pinout).rdy == Pin::On {
                *final(cpu) == *old(cpu)
            } else {
                *final(cpu) == with_tm(
                    I::effect(
                        (Context {
                            ops: (OpState {
                                dl: final(pinout).data,
                                ..poll_effect(*old(cpu), *old(pinout)).ops
                            }),
                            ..poll_effect(*old(cpu), *old(pinout))
                        }),
                    ),
                    0,
                )
            })
        },
        one_bus_cycle(
            *old(cpu),
            *old(pinout),
            old(bus).ops(),
            *final(cpu),
            *final(pinout),
            final(bus).ops(),
        ),
{
    if cpu.ir.tm == 1 {
        let addr = u16::from(cpu.pc);
        let _data = read_cycle(bus, pinout, addr);
        if pinout.rdy == Pin::On {
            return ;
        }
        cpu.ir.increment();
    } else if cpu.ir.tm == 2 {
        let addr = stack_address(cpu.sp);
        let _data = read_cycle(bus, pinout, addr);
        if pinout.rdy == Pin::On {
            return ;
        }
        cpu.sp = cpu.sp.wrapping_add(1);
        cpu.ir.increment();
    } else {
        let addr = stack_address(cpu.sp);
        let data = read_cycle(bus, pinout, addr);
        if pinout.rdy == Pin::On {
            return ;
        }
        poll_interrupts(cpu, pinout);
        cpu.ops.dl = data;
        proof {
            I::effect_frame(*cpu);
        }
        I::execute(cpu);
        cpu.ir.tm = 0;
    }
}

/// PLP: like the register pull, but the byte restores the status register,
/// with bits 4 and 5 of the stacked image ignored.  The poll runs first, so
/// a change of Interrupt-Disable pulled here takes effect one instruction
/// late, as on real silicon.
pub fn pull_p<B: Bus>(cpu: &mut Context, bus: &mut B, pinout: &mut Pinout)
    ensures
        old(cpu).ir.tm == 1 ==> {
            &&& read_pins(*old(pinout), *final(pinout), pc_word(old(cpu).pc))
            &&& read_logged(
                old(bus).ops(),
                final(bus).ops(),
                pc_word(old(cpu).pc),
                final(pinout).data,
            )
            &&& (if old(pinout).rdy == Pin::On {
                *final(cpu) == *old(cpu)
            } else {
                *final(cpu) == with_tm(*old(cpu), 2)
            })
        },
        old(cpu).ir.tm == 2 ==> {
            &&& read_pins(*old(pinout), *final(pinout), word_of(1, old(cpu).sp))
            &&& read_logged(
                old(bus).ops(),
                final(bus).ops(),
                word_of(1, old(cpu).sp),
                final(pinout).data,
            )
            &&& (if old(pinout).rdy == Pin::On {
                *final(cpu) == *old(cpu)
            } else {
                *final(cpu) == with_tm(
                    (Context { sp: add8(old(cpu).sp, 1), ..*old(cpu) }),
                    3,
                )
            })
        },
        !(old(cpu).ir.tm == 1 || old(cpu).ir.tm == 2) ==> {
            &&& read_pins(*old(pinout), *final(pinout), word_of(1, old(cpu).sp))
            &&& read_logged(
                old(bus).ops(),
                final(bus).ops(),
                word_of(1, old(cpu).sp),
                final(pinout).data,
            )
            &&& (if old(pinout).rdy == Pin::On {
                *final(cpu) == *old(cpu)
            } else {
                *final(cpu) == with_tm(
                    (Context {
                        p: byte_flags(final(pinout).data),
                        ..poll_effect(*old(cpu), *old(pinout))
                    }),
                    0,
                )
            })
        },
        one_bus_cycle(
            *old(cpu),
            *old(pinout),
            old(bus).ops(),
            *final(cpu),
            *final(pinout),
            final(bus).ops(),
        ),
{
    if cpu.ir.tm == 1 {
        let addr = u16::from(cpu.pc);
        let _data = read_cycle(bus, pinout, addr);
        if pinout.rdy == Pin::On {
            return ;
        }
        cpu.ir.increment();
    } else if cpu.ir.tm == 2 {
        let addr = stack_address(cpu.sp);
        let _data = read_cycle(bus, pinout, addr);
        if pinout.rdy == Pin::On {
            return ;
        }
        cpu.sp = cpu.sp.wrapping_add(1);
        cpu.ir.increment();
    } else {
        let addr = stack_address(cpu.sp);
        let data = read_cycle(bus, pinout, addr);
        if pinout.rdy == Pin::On {
            return ;
        }
        poll_interrupts(cpu, pinout);
        cpu.p = FlagsRegister::pull(data);
        cpu.ir.tm = 0;
    }
}

/// Either the stall left the context alone, or the cycle moved it to `next`.
pub open spec fn stall_or(c0: Context, pin: Pinout, c1: Context, next: Context) -> bool {
    if pin.rdy == Pin::On {
        c1 == c0
    } else {
        c1 == next
    }
}

/// The context after the terminal cycle of a read instruction: the byte just
/// read is staged in the data latch, the semantic runs, interrupts are
/// polled, and the tick counter returns to zero.
pub open spec fn read_terminal<I: Instruction>(c: Context, pin: Pinout, data: u8) -> Context {
    with_tm(poll_effect(I::effect(Context { ops: (OpState { dl: data, ..c.ops }), ..c }), pin), 0)
}

/// The context after the terminal cycle of a write or read-modify-write
/// instruction: the semantic has already staged the byte to store, interrupts
/// are polled, and the tick counter returns to zero.
pub open spec fn write_terminal<I: Instruction>(c: Context, pin: Pinout) -> Context {
    with_tm(poll_effect(I::effect(c), pin), 0)
}

/// The byte a write or read-modify-write instruction stores: whatever its
/// semantic leaves in the data latch.
pub open spec fn write_data<I: Instruction>(c: Context) -> u8 {
    I::effect(c).ops.dl
}

/// The index register an indexed addressing mode adds in.
pub open spec fn index_of(c: Context, use_y: bool) -> u8 {
    if use_y {
        c.y
    } else {
        c.x
    }
}

/// The high address byte after the page-cross fix-up recorded in
/// `ops.offset_carry` is applied to `ops.adh`.
pub open spec fn fixed_high(c: Context) -> u8 {
    if c.ops.offset_carry {
        add8(c.ops.adh, 1)
    } else {
        c.ops.adh
    }
}

/// The out-of-pattern case of every handler: any tick count outside the
/// instruction's cycle pattern behaves as an opcode fetch.
pub open spec fn fetch_fallback(
    c0: Context,
    pin0: Pinout,
    l0: Seq<BusOp>,
    c1: Context,
    pin1: Pinout,
    l1: Seq<BusOp>,
) -> bool {
    &&& fetch_pins(pin0, pin1, pc_word(c0.pc))
    &&& read_logged(l0, l1, pc_word(c0.pc), pin1.data)
    &&& stall_or(c0, pin0, c1, fetch_result(c0, pin1.data))
}

/// The terminal cycle every read instruction shares: read the operand at
/// `addr` into the data latch, run the semantic, poll, and finish.
#[verifier::rlimit(100)]
#[verifier::spinoff_prover]
fn read_data_terminal<I: Instruction, B: Bus>(
    cpu: &mut Context,
    bus: &mut B,
    pinout: &mut Pinout,
    addr: u16,
)
    ensures
        read_pins(*old(pinout), *final(pinout), addr),
        read_logged(old(bus).ops(), final(bus).ops(), addr, final(pinout).data),
        old(pinout).rdy == Pin::On ==> *final(cpu) == *old(cpu),
        old(pinout).rdy != Pin::On ==> *final(cpu) == with_tm(
            poll_effect(
                I::effect(
                    (Context {
                        ops: (OpState { dl: final(pinout).data, ..old(cpu).ops }),
                        ..*old(cpu)
                    }),
                ),
                *old(pinout),
            ),
            0,
        ),
        one_bus_cycle(
            *old(cpu),
            *old(pinout),
            old(bus).ops(),
            *final(cpu),
            *final(pinout),
            final(bus).ops(),
        ),
{
    let data = read_cycle(bus, pinout, addr);
    if pinout.rdy == Pin::On {
        return ;
    }
    cpu.ops.dl = data;
    proof {
        I::effect_frame(*cpu);
    }
    I::execute(cpu);
    poll_interrupts(cpu, pinout);
    cpu.ir.tm = 0;
}

/// Zero-page read opcodes, 3 cycles: fetch the operand as the address low
/// byte, then read page-zero at it and run the semantic.
#[verifier::rlimit(50)]
pub fn zp_read<I: Instruction, B: Bus>(cpu: &mut Context, bus: &mut B, pinout: &mut Pinout)
    ensures
        old(cpu).ir.tm == 1 ==> {
            &&& read_pins(*old(pinout), *final(pinout), pc_word(old(cpu).pc))
            &&& read_logged(
                old(bus).ops(),
                final(bus).ops(),
                pc_word(old(cpu).pc),
                final(pinout).data,
            )
            &&& stall_or(
                *old(cpu),
                *old(pinout),
                *final(cpu),
                with_tm(
                    (Context {
                        ops: (OpState { adl: final(pinout).data, ..old(cpu).ops }),
                        pc: pc_inc(old(cpu).pc),
                        ..*old(cpu)
                    }),
                    2,
                ),
            )
        },
        old(cpu).ir.tm == 2 ==> {
            &&& read_pins(*old(pinout), *final(pinout), word_of(0, old(cpu).ops.adl))
            &&& read_logged(
                old(bus).ops(),
                final(bus).ops(),
                word_of(0, old(cpu).ops.adl),
                final(pinout).data,
            )
            &&& stall_or(
                *old(cpu),
                *old(pinout),
                *final(cpu),
                read_terminal::<I>(*old(cpu), *old(pinout), final(pinout).data),
            )
        },
        !(1 <= old(cpu).ir.tm <= 2) ==> fetch_fallback(
            *old(cpu),
            *old(pinout),
            old(bus).ops(),
            *final(cpu),
            *final(pinout),
            final(bus).ops(),
        ),
        one_bus_cycle(
            *old(cpu),
            *old(pinout),
            old(bus).ops(),
            *final(cpu),
            *final(pinout),
            final(bus).ops(),
        ),
{
    if cpu.ir.tm == 1 {
        let addr = u16::from(cpu.pc);
        let data = read_cycle(bus, pinout, addr);
        if pinout.rdy == Pin::On {
            return ;
        }
        cpu.ops.adl = data;
        cpu.pc.increment();
        cpu.ir.increment();
    } else if cpu.ir.tm == 2 {
        let addr = zp_address(cpu.ops.adl);
        read_data_terminal::<I, B>(cpu, bus, pinout, addr);
    } else {
        fetch_cycle(cpu, bus, pinout);
    }
}

/// Zero-page write opcodes, 3 cycles: fetch the operand as the address low
/// byte, then let the semantic stage the value and write it to page zero.
#[verifier::rlimit(50)]
pub fn zp_write<I: Instruction, B: Bus>(cpu: &mut Context, bus: &mut B, pinout: &mut Pinout)
    ensures
        old(cpu).ir.tm == 1 ==> {
            &&& read_pins(*old(pinout), *final(pinout), pc_word(old(cpu).pc))
            &&& read_logged(
                old(bus).ops(),
                final(bus).ops(),
                pc_word(old(cpu).pc),
                final(pinout).data,
            )
            &&& stall_or(
                *old(cpu),
                *old(pinout),
                *final(cpu),
                with_tm(
                    (Context {
                        ops: (OpState { adl: final(pinout).data, ..old(cpu).ops }),
                        pc: pc_inc(old(cpu).pc),
                        ..*old(cpu)
                    }),
                    2,
                ),
            )
        },
        old(cpu).ir.tm == 2 ==> {
            &&& write_pins(
                *old(pinout),
                *final(pinout),
                word_of(0, old(cpu).ops.adl),
                write_data::<I>(*old(cpu)),
            )
            &&& write_logged(
                old(bus).ops(),
                final(bus).ops(),
                word_of(0, old(cpu).ops.adl),
                write_data::<I>(*old(cpu)),
            )
            &&& *final(cpu) == write_terminal::<I>(*old(cpu), *old(pinout))
        },
        !(1 <= old(cpu).ir.tm <= 2) ==> fetch_fallback(
            *old(cpu),
            *old(pinout),
            old(bus).ops(),
            *final(cpu),
            *final(pinout),
            final(bus).ops(),
        ),
        one_bus_cycle(
            *old(cpu),
            *old(pinout),
            old(bus).ops(),
            *final(cpu),
            *final(pinout),
            final(bus).ops(),
        ),
{
    if cpu.ir.tm == 1 {
        let addr = u16::from(cpu.pc);
        let data = read_cycle(bus, pinout, addr);
        if pinout.rdy == Pin::On {
            return ;
        }
        cpu.ops.adl = data;
        cpu.pc.increment();
        cpu.ir.increment();
    } else if cpu.ir.tm == 2 {
        let addr = zp_address(cpu.ops.adl);
        proof {
            I::effect_frame(*cpu);
        }
        I::execute(cpu);
        write_cycle(bus, pinout, addr, cpu.ops.dl);
        poll_interrupts(cpu, pinout);
        cpu.ir.tm = 0;
    } else {
        fetch_cycle(cpu, bus, pinout);
    }
}

/// Zero-page read-modify-write opcodes, 5 cycles: fetch the address, read
/// the byte, write it back unchanged (the famous dummy write), then write
/// the modified byte.
#[verifier::rlimit(50)]
pub fn zp_rmw<I: Instruction, B: Bus>(cpu: &mut Context, bus: &mut B, pinout: &mut Pinout)
    ensures
        old(cpu).ir.tm == 1 ==> {
            &&& read_pins(*old(pinout), *final(pinout), pc_word(old(cpu).pc))
            &&& read_logged(
                old(bus).ops(),
                final(bus).ops(),
                pc_word(old(cpu).pc),
                final(pinout).data,
            )
            &&& stall_or(
                *old(cpu),
                *old(pinout),
                *final(cpu),
                with_tm(
                    (Context {
                        ops: (OpState { adl: final(pinout).data, ..old(cpu).ops }),
                        pc: pc_inc(old(cpu).pc),
                        ..*old(cpu)
                    }),
                    2,
                ),
            )
        },
        old(cpu).ir.tm == 2 ==> {
            &&& read_pins(*old(pinout), *final(pinout), word_of(0, old(cpu).ops.adl))
            &&& read_logged(
                old(bus).ops(),
                final(bus).ops(),
                word_of(0, old(cpu).ops.adl),
                final(pinout).data,
            )
            &&& stall_or(
                *old(cpu),
                *old(pinout),
                *final(cpu),
                with_tm(
                    (Context {
                        ops: (OpState { dl: final(pinout).data, ..old(cpu).ops }),
                        ..*old(cpu)
                    }),
                    3,
                ),
            )
        },
        old(cpu).ir.tm == 3 ==> {
            &&& write_pins(
                *old(pinout),
                *final(pinout),
                word_of(0, old(cpu).ops.adl),
                old(cpu).ops.dl,
            )
            &&& write_logged(
                old(bus).ops(),
                final(bus).ops(),
                word_of(0, old(cpu).ops.adl),
                old(cpu).ops.dl,
            )
            &&& *final(cpu) == with_tm(*old(cpu), 4)
        },
        old(cpu).ir.tm == 4 ==> {
            &&& write_pins(
                *old(pinout),
                *final(pinout),
                word_of(0, old(cpu).ops.adl),
                write_data::<I>(*old(cpu)),
            )
            &&& write_logged(
                old(bus).ops(),
                final(bus).ops(),
                word_of(0, old(cpu).ops.adl),
                write_data::<I>(*old(cpu)),
            )
            &&& *final(cpu) == write_terminal::<I>(*old(cpu), *old(pinout))
        },
        !(1 <= old(cpu).ir.tm <= 4) ==> fetch_fallback(
            *old(cpu),
            *old(pinout),
            old(bus).ops(),
            *final(cpu),
            *final(pinout),
            final(bus).ops(),
        ),
        one_bus_cycle(
            *old(cpu),
            *old(pinout),
            old(bus).ops(),
            *final(cpu),
            *final(pinout),
            final(bus).ops(),
        ),
{
    if cpu.ir.tm == 1 {
        let addr = u16::from(cpu.pc);
        let data = read_cycle(bus, pinout, addr);
        if pinout.rdy == Pin::On {
            return ;
        }
        cpu.ops.adl = data;
        cpu.pc.increment();
        cpu.ir.increment();
    } else if cpu.ir.tm == 2 {
        let addr = zp_address(cpu.ops.adl);
        let data = read_cycle(bus, pinout, addr);
        if pinout.rdy == Pin::On {
            return ;
        }
        cpu.ops.dl = data;
        cpu.ir.increment();
    } else if cpu.ir.tm == 3 {
        let addr = zp_address(cpu.ops.adl);
        write_cycle(bus, pinout, addr, cpu.ops.dl);
        cpu.ir.increment();
    } else if cpu.ir.tm == 4 {
        let addr = zp_address(cpu.ops.adl);
        proof {
            I::effect_frame(*cpu);
        }
        I::execute(cpu);
        write_cycle(bus, pinout, addr, cpu.ops.dl);
        poll_interrupts(cpu, pinout);
        cpu.ir.tm = 0;
    } else {
        fetch_cycle(cpu, bus, pinout);
    }
}

/// Zero-page indexed read opcodes, 4 cycles: fetch the base, dummy read at
/// it while the index is added (staying in page zero), then read and run the
/// semantic.
#[verifier::rlimit(50)]
pub fn zpi_read<I: Instruction, B: Bus>(
    cpu: &mut Context,
    bus: &mut B,
    pinout: &mut Pinout,
    use_y: bool,
)
    ensures
        old(cpu).ir.tm == 1 ==> {
            &&& read_pins(*old(pinout), *final(pinout), pc_word(old(cpu).pc))
            &&& read_logged(
                old(bus).ops(),
                final(bus).ops(),
                pc_word(old(cpu).pc),
                final(pinout).data,
            )
            &&& stall_or(
                *old(cpu),
                *old(pinout),
                *final(cpu),
                with_tm(
                    (Context {
                        ops: (OpState { bal: final(pinout).data, ..old(cpu).ops }),
                        pc: pc_inc(old(cpu).pc),
                        ..*old(cpu)
                    }),
                    2,
                ),
            )
        },
        old(cpu).ir.tm == 2 ==> {
            &&& read_pins(*old(pinout), *final(pinout), word_of(0, old(cpu).ops.bal))
            &&& read_logged(
                old(bus).ops(),
                final(bus).ops(),
                word_of(0, old(cpu).ops.bal),
                final(pinout).data,
            )
            &&& stall_or(
                *old(cpu),
                *old(pinout),
                *final(cpu),
                with_tm(
                    (Context {
                        ops: (OpState {
                            adl: add8(old(cpu).ops.bal, index_of(*old(cpu), use_y)),
                            ..old(cpu).ops
                        }),
                        ..*old(cpu)
                    }),
                    3,
                ),
            )
        },
        old(cpu).ir.tm == 3 ==> {
            &&& read_pins(*old(pinout), *final(pinout), word_of(0, old(cpu).ops.adl))
            &&& read_logged(
                old(bus).ops(),
                final(bus).ops(),
                word_of(0, old(cpu).ops.adl),
                final(pinout).data,
            )
            &&& stall_or(
                *old(cpu),
                *old(pinout),
                *final(cpu),
                read_terminal::<I>(*old(cpu), *old(pinout), final(pinout).data),
            )
        },
        !(1 <= old(cpu).ir.tm <= 3) ==> fetch_fallback(
            *old(cpu),
            *old(pinout),
            old(bus).ops(),
            *final(cpu),
            *final(pinout),
            final(bus).ops(),
        ),
        one_bus_cycle(
            *old(cpu),
            *old(pinout),
            old(bus).ops(),
            *final(cpu),
            *final(pinout),
            final(bus).ops(),
        ),
{
    if cpu.ir.tm == 1 {
        let addr = u16::from(cpu.pc);
        let data = read_cycle(bus, pinout, addr);
        if pinout.rdy == Pin::On {
            return ;
        }
        cpu.ops.bal = data;
        cpu.pc.increment();
        cpu.ir.increment();
    } else if cpu.ir.tm == 2 {
        let addr = zp_address(cpu.ops.bal);
        let _data = read_cycle(bus, pinout, addr);
        if pinout.rdy == Pin::On {
            return ;
        }
        let idx = if use_y {
            cpu.y
        } else {
            cpu.x
        };
        cpu.ops.adl = cpu.ops.bal.wrapping_add(idx);
        cpu.ir.increment();
    } else if cpu.ir.tm == 3 {
        let addr = zp_address(cpu.ops.adl);
        read_data_terminal::<I, B>(cpu, bus, pinout, addr);
    } else {
        fetch_cycle(cpu, bus, pinout);
    }
}

/// Zero-page indexed write opcodes, 4 cycles.
#[verifier::rlimit(50)]
pub fn zpi_write<I: Instruction, B: Bus>(
    cpu: &mut Context,
    bus: &mut B,
    pinout: &mut Pinout,
    use_y: bool,
)
    ensures
        old(cpu).ir.tm == 1 ==> {
            &&& read_pins(*old(pinout), *final(pinout), pc_word(old(cpu).pc))
            &&& read_logged(
                old(bus).ops(),
                final(bus).ops(),
                pc_word(old(cpu).pc),
                final(pinout).data,
            )
            &&& stall_or(
                *old(cpu),
                *old(pinout),
                *final(cpu),
                with_tm(
                    (Context {
                        ops: (OpState { bal: final(pinout).data, ..old(cpu).ops }),
                        pc: pc_inc(old(cpu).pc),
                        ..*old(cpu)
                    }),
                    2,
                ),
            )
        },
        old(cpu).ir.tm == 2 ==> {
            &&& read_pins(*old(pinout), *final(pinout), word_of(0, old(cpu).ops.bal))
            &&& read_logged(
                old(bus).ops(),
                final(bus).ops(),
                word_of(0, old(cpu).ops.bal),
                final(pinout).data,
            )
            &&& stall_or(
                *old(cpu),
                *old(pinout),
                *final(cpu),
                with_tm(
                    (Context {
                        ops: (OpState {
                            adl: add8(old(cpu).ops.bal, index_of(*old(cpu), use_y)),
                            ..old(cpu).ops
                        }),
                        ..*old(cpu)
                    }),
                    3,
                ),
            )
        },
        old(cpu).ir.tm == 3 ==> {
            &&& write_pins(
                *old(pinout),
                *final(pinout),
                word_of(0, old(cpu).ops.adl),
                write_data::<I>(*old(cpu)),
            )
            &&& write_logged(
                old(bus).ops(),
                final(bus).ops(),
                word_of(0, old(cpu).ops.adl),
                write_data::<I>(*old(cpu)),
            )
            &&& *final(cpu) == write_terminal::<I>(*old(cpu), *old(pinout))
        },
        !(1 <= old(cpu).ir.tm <= 3) ==> fetch_fallback(
            *old(cpu),
            *old(pinout),
            old(bus).ops(),
            *final(cpu),
            *final(pinout),
            final(bus).ops(),
        ),
        one_bus_cycle(
            *old(cpu),
            *old(pinout),
            old(bus).ops(),
            *final(cpu),
            *final(pinout),
            final(bus).ops(),
        ),
{
    if cpu.ir.tm == 1 {
        let addr = u16::from(cpu.pc);
        let data = read_cycle(bus, pinout, addr);
        if pinout.rdy == Pin::On {
            return ;
        }
        cpu.ops.bal = data;
        cpu.pc.increment();
        cpu.ir.increment();
    } else if cpu.ir.tm == 2 {
        let addr = zp_address(cpu.ops.bal);
        let _data = read_cycle(bus, pinout, addr);
        if pinout.rdy == Pin::On {
            return ;
        }
        let idx = if use_y {
            cpu.y
        } else {
            cpu.x
        };
        cpu.ops.adl = cpu.ops.bal.wrapping_add(idx);
        cpu.ir.increment();
    } else if cpu.ir.tm == 3 {
        let addr = zp_address(cpu.ops.adl);
        proof {
            I::effect_frame(*cpu);
        }
        I::execute(cpu);
        write_cycle(bus, pinout, addr, cpu.ops.dl);
        poll_interrupts(cpu, pinout);
        cpu.ir.tm = 0;
    } else {
        fetch_cycle(cpu, bus, pinout);
    }
}

/// Zero-page indexed read-modify-write opcodes, 6 cycles.
#[verifier::rlimit(50)]
pub fn zpi_rmw<I: Instruction, B: Bus>(
    cpu: &mut Context,
    bus: &mut B,
    pinout: &mut Pinout,
    use_y: bool,
)
    ensures
        old(cpu).ir.tm == 1 ==> {
            &&& read_pins(*old(pinout), *final(pinout), pc_word(old(cpu).pc))
            &&& read_logged(
                old(bus).ops(),
                final(bus).ops(),
                pc_word(old(cpu).pc),
                final(pinout).data,
            )
            &&& stall_or(
                *old(cpu),
                *old(pinout),
                *final(cpu),
                with_tm(
                    (Context {
                        ops: (OpState { bal: final(pinout).data, ..old(cpu).ops }),
                        pc: pc_inc(old(cpu).pc),
                        ..*old(cpu)
                    }),
                    2,
                ),
            )
        },
        old(cpu).ir.tm == 2 ==> {
            &&& read_pins(*old(pinout), *final(pinout), word_of(0, old(cpu).ops.bal))
            &&& read_logged(
                old(bus).ops(),
                final(bus).ops(),
                word_of(0, old(cpu).ops.bal),
                final(pinout).data,
            )
            &&& stall_or(
                *old(cpu),
                *old(pinout),
                *final(cpu),
                with_tm(
                    (Context {
                        ops: (OpState {
                            adl: add8(old(cpu).ops.bal, index_of(*old(cpu), use_y)),
                            ..old(cpu).ops
                        }),
                        ..*old(cpu)
                    }),
                    3,
                ),
            )
        },
        old(cpu).ir.tm == 3 ==> {
            &&& read_pins(*old(pinout), *final(pinout), word_of(0, old(cpu).ops.adl))
            &&& read_logged(
                old(bus).ops(),
                final(bus).ops(),
                word_of(0, old(cpu).ops.adl),
                final(pinout).data,
            )
            &&& stall_or(
                *old(cpu),
                *old(pinout),
                *final(cpu),
                with_tm(
                    (Context {
                        ops: (OpState {
                            dl: final(pinout).data,
                            ..old(cpu).ops
                        }),
                        ..*old(cpu)
                    }),
                    4,
                ),
            )
        },
        old(cpu).ir.tm == 4 ==> {
            &&& write_pins(
                *old(pinout),
                *final(pinout),
                word_of(0, old(cpu).ops.adl),
                old(cpu).ops.dl,
            )
            &&& write_logged(
                old(bus).ops(),
                final(bus).ops(),
                word_of(0, old(cpu).ops.adl),
                old(cpu).ops.dl,
            )
            &&& *final(cpu) == with_tm(*old(cpu), 5)
        },
        old(cpu).ir.tm == 5 ==> {
            &&& write_pins(
                *old(pinout),
                *final(pinout),
                word_of(0, old(cpu).ops.adl),
                write_data::<I>(*old(cpu)),
            )
            &&& write_logged(
                old(bus).ops(),
                final(bus).ops(),
                word_of(0, old(cpu).ops.adl),
                write_data::<I>(*old(cpu)),
            )
            &&& *final(cpu) == write_terminal::<I>(*old(cpu), *old(pinout))
        },
        !(1 <= old(cpu).ir.tm <= 5) ==> fetch_fallback(
            *old(cpu),
            *old(pinout),
            old(bus).ops(),
            *final(cpu),
            *final(pinout),
            final(bus).ops(),
        ),
        one_bus_cycle(
            *old(cpu),
            *old(pinout),
            old(bus).ops(),
            *final(cpu),
            *final(pinout),
            final(bus).ops(),
        ),
{
    if cpu.ir.tm == 1 {
        let addr = u16::from(cpu.pc);
        let data = read_cycle(bus, pinout, addr);
        if pinout.rdy == Pin::On {
            return ;
        }
        cpu.ops.bal = data;
        cpu.pc.increment();
        cpu.ir.increment();
    } else if cpu.ir.tm == 2 {
        let addr = zp_address(cpu.ops.bal);
        let _data = read_cycle(bus, pinout, addr);
        if pinout.rdy == Pin::On {
            return ;
        }
        let idx = if use_y {
            cpu.y
        } else {
            cpu.x
        };
        cpu.ops.adl = cpu.ops.bal.wrapping_add(idx);
        cpu.ir.increment();
    } else if cpu.ir.tm == 3 {
        let addr = zp_address(cpu.ops.adl);
        let data = read_cycle(bus, pinout, addr);
        if pinout.rdy == Pin::On {
            return ;
        }
        cpu.ops.dl = data;
        cpu.ir.increment();
    } else if cpu.ir.tm == 4 {
        let addr = zp_address(cpu.ops.adl);
        write_cycle(bus, pinout, addr, cpu.ops.dl);
        cpu.ir.increment();
    } else if cpu.ir.tm == 5 {
        let addr = zp_address(cpu.ops.adl);
        proof {
            I::effect_frame(*cpu);
        }
        I::execute(cpu);
        write_cycle(bus, pinout, addr, cpu.ops.dl);
        poll_interrupts(cpu, pinout);
        cpu.ir.tm = 0;
    } else {
        fetch_cycle(cpu, bus, pinout);
    }
}

/// Absolute read opcodes, 4 cycles: fetch the address low and high bytes,
/// then read there and run the semantic.
#[verifier::rlimit(50)]
pub fn abs_read<I: Instruction, B: Bus>(cpu: &mut Context, bus: &mut B, pinout: &mut Pinout)
    ensures
        old(cpu).ir.tm == 1 ==> {
            &&& read_pins(*old(pinout), *final(pinout), pc_word(old(cpu).pc))
            &&& read_logged(
                old(bus).ops(),
                final(bus).ops(),
                pc_word(old(cpu).pc),
                final(pinout).data,
            )
            &&& stall_or(
                *old(cpu),
                *old(pinout),
                *final(cpu),
                with_tm(
                    (Context {
                        ops: (OpState { adl: final(pinout).data, ..old(cpu).ops }),
                        pc: pc_inc(old(cpu).pc),
                        ..*old(cpu)
                    }),
                    2,
                ),
            )
        },
        old(cpu).ir.tm == 2 ==> {
            &&& read_pins(*old(pinout), *final(pinout), pc_word(old(cpu).pc))
            &&& read_logged(
                old(bus).ops(),
                final(bus).ops(),
                pc_word(old(cpu).pc),
                final(pinout).data,
            )
            &&& stall_or(
                *old(cpu),
                *old(pinout),
                *final(cpu),
                with_tm(
                    (Context {
                        ops: (OpState { adh: final(pinout).data, ..old(cpu).ops }),
                        pc: pc_inc(old(cpu).pc),
                        ..*old(cpu)
                    }),
                    3,
                ),
            )
        },
        old(cpu).ir.tm == 3 ==> {
            &&& read_pins(
                *old(pinout),
                *final(pinout),
                word_of(old(cpu).ops.adh, old(cpu).ops.adl),
            )
            &&& read_logged(
                old(bus).ops(),
                final(bus).ops(),
                word_of(old(cpu).ops.adh, old(cpu).ops.adl),
                final(pinout).data,
            )
            &&& stall_or(
                *old(cpu),
                *old(pinout),
                *final(cpu),
                read_terminal::<I>(*old(cpu), *old(pinout), final(pinout).data),
            )
        },
        !(1 <= old(cpu).ir.tm <= 3) ==> fetch_fallback(
            *old(cpu),
            *old(pinout),
            old(bus).ops(),
            *final(cpu),
            *final(pinout),
            final(bus).ops(),
        ),
        one_bus_cycle(
            *old(cpu),
            *old(pinout),
            old(bus).ops(),
            *final(cpu),
            *final(pinout),
            final(bus).ops(),
        ),
{
    if cpu.ir.tm == 1 {
        let addr = u16::from(cpu.pc);
        let data = read_cycle(bus, pinout, addr);
        if pinout.rdy == Pin::On {
            return ;
        }
        cpu.ops.adl = data;
        cpu.pc.increment();
        cpu.ir.increment();
    } else if cpu.ir.tm == 2 {
        let addr = u16::from(cpu.pc);
        let data = read_cycle(bus, pinout, addr);
        if pinout.rdy == Pin::On {
            return ;
        }
        cpu.ops.adh = data;
        cpu.pc.increment();
        cpu.ir.increment();
    } else if cpu.ir.tm == 3 {
        let addr = to_address(cpu.ops.adh, cpu.ops.adl);
        read_data_terminal::<I, B>(cpu, bus, pinout, addr);
    } else {
        fetch_cycle(cpu, bus, pinout);
    }
}

/// Absolute write opcodes, 4 cycles.
#[verifier::rlimit(50)]
pub fn abs_write<I: Instruction, B: Bus>(
    cpu: &mut Context,
    bus: &mut B,
    pinout: &mut Pinout,
)
    ensures
        old(cpu).ir.tm == 1 ==> {
            &&& read_pins(*old(pinout), *final(pinout), pc_word(old(cpu).pc))
            &&& read_logged(
                old(bus).ops(),
                final(bus).ops(),
                pc_word(old(cpu).pc),
                final(pinout).data,
            )
            &&& stall_or(
                *old(cpu),
                *old(pinout),
                *final(cpu),
                with_tm(
                    (Context {
                        ops: (OpState { adl: final(pinout).data, ..old(cpu).ops }),
                        pc: pc_inc(old(cpu).pc),
                        ..*old(cpu)
                    }),
                    2,
                ),
            )
        },
        old(cpu).ir.tm == 2 ==> {
            &&& read_pins(*old(pinout), *final(pinout), pc_word(old(cpu).pc))
            &&& read_logged(
                old(bus).ops(),
                final(bus).ops(),
                pc_word(old(cpu).pc),
                final(pinout).data,
            )
            &&& stall_or(
                *old(cpu),
                *old(pinout),
                *final(cpu),
                with_tm(
                    (Context {
                        ops: (OpState { adh: final(pinout).data, ..old(cpu).ops }),
                        pc: pc_inc(old(cpu).pc),
                        ..*old(cpu)
                    }),
                    3,
                ),
            )
        },
        old(cpu).ir.tm == 3 ==> {
            &&& write_pins(
                *old(pinout),
                *final(pinout),
                word_of(old(cpu).ops.adh, old(cpu).ops.adl),
                write_data::<I>(*old(cpu)),
            )
            &&& write_logged(
                old(bus).ops(),
                final(bus).ops(),
                word_of(old(cpu).ops.adh, old(cpu).ops.adl),
                write_data::<I>(*old(cpu)),
            )
            &&& *final(cpu) == write_terminal::<I>(*old(cpu), *old(pinout))
        },
        !(1 <= old(cpu).ir.tm <= 3) ==> fetch_fallback(
            *old(cpu),
            *old(pinout),
            old(bus).ops(),
            *final(cpu),
            *final(pinout),
            final(bus).ops(),
        ),
        one_bus_cycle(
            *old(cpu),
            *old(pinout),
            old(bus).ops(),
            *final(cpu),
            *final(pinout),
            final(bus).ops(),
        ),
{
    if cpu.ir.tm == 1 {
        let addr = u16::from(cpu.pc);
        let data = read_cycle(bus, pinout, addr);
        if pinout.rdy == Pin::On {
            return ;
        }
        cpu.ops.adl = data;
        cpu.pc.increment();
        cpu.ir.increment();
    } else if cpu.ir.tm == 2 {
        let addr = u16::from(cpu.pc);
        let data = read_cycle(bus, pinout, addr);
        if pinout.rdy == Pin::On {
            return ;
        }
        cpu.ops.adh = data;
        cpu.pc.increment();
        cpu.ir.increment();
    } else if cpu.ir.tm == 3 {
        let addr = to_address(cpu.ops.adh, cpu.ops.adl);
        proof {
            I::effect_frame(*cpu);
        }
        I::execute(cpu);
        write_cycle(bus, pinout, addr, cpu.ops.dl);
        poll_interrupts(cpu, pinout);
        cpu.ir.tm = 0;
    } else {
        fetch_cycle(cpu, bus, pinout);
    }
}

/// Absolute read-modify-write opcodes, 6 cycles.
#[verifier::rlimit(50)]
pub fn abs_rmw<I: Instruction, B: Bus>(cpu: &mut Context, bus: &mut B, pinout: &mut Pinout)
    ensures
        old(cpu).ir.tm == 1 ==> {
            &&& read_pins(*old(pinout), *final(pinout), pc_word(old(cpu).pc))
            &&& read_logged(
                old(bus).ops(),
                final(bus).ops(),
                pc_word(old(cpu).pc),
                final(pinout).data,
            )
            &&& stall_or(
                *old(cpu),
                *old(pinout),
                *final(cpu),
                with_tm(
                    (Context {
                        ops: (OpState { adl: final(pinout).data, ..old(cpu).ops }),
                        pc: pc_inc(old(cpu).pc),
                        ..*old(cpu)
                    }),
                    2,
                ),
            )
        },
        old(cpu).ir.tm == 2 ==> {
            &&& read_pins(*old(pinout), *final(pinout), pc_word(old(cpu).pc))
            &&& read_logged(
                old(bus).ops(),
                final(bus).ops(),
                pc_word(old(cpu).pc),
                final(pinout).data,
            )
            &&& stall_or(
                *old(cpu),
                *old(pinout),
                *final(cpu),
                with_tm(
                    (Context {
                        ops: (OpState { adh: final(pinout).data, ..old(cpu).ops }),
                        pc: pc_inc(old(cpu).pc),
                        ..*old(cpu)
                    }),
                    3,
                ),
            )
        },
        old(cpu).ir.tm == 3 ==> {
            &&& read_pins(
                *old(pinout),
                *final(pinout),
                word_of(old(cpu).ops.adh, old(cpu).ops.adl),
            )
            &&& read_logged(
                old(bus).ops(),
                final(bus).ops(),
                word_of(old(cpu).ops.adh, old(cpu).ops.adl),
                final(pinout).data,
            )
            &&& stall_or(
                *old(cpu),
                *old(pinout),
                *final(cpu),
                with_tm(
                    (Context {
                        ops: (OpState { dl: final(pinout).data, ..old(cpu).ops }),
                        ..*old(cpu)
                    }),
                    4,
                ),
            )
        },
        old(cpu).ir.tm == 4 ==> {
            &&& write_pins(
                *old(pinout),
                *final(pinout),
                word_of(old(cpu).ops.adh, old(cpu).ops.adl),
                old(cpu).ops.dl,
            )
            &&& write_logged(
                old(bus).ops(),
                final(bus).ops(),
                word_of(old(cpu).ops.adh, old(cpu).ops.adl),
                old(cpu).ops.dl,
            )
            &&& *final(cpu) == with_tm(*old(cpu), 5)
        },
        old(cpu).ir.tm == 5 ==> {
            &&& write_pins(
                *old(pinout),
                *final(pinout),
                word_of(old(cpu).ops.adh, old(cpu).ops.adl),
                write_data::<I>(*old(cpu)),
            )
            &&& write_logged(
                old(bus).ops(),
                final(bus).ops(),
                word_of(old(cpu).ops.adh, old(cpu).ops.adl),
                write_data::<I>(*old(cpu)),
            )
            &&& *final(cpu) == write_terminal::<I>(*old(cpu), *old(pinout))
        },
        !(1 <= old(cpu).ir.tm <= 5) ==> fetch_fallback(
            *old(cpu),
            *old(pinout),
            old(bus).ops(),
            *final(cpu),
            *final(pinout),
            final(bus).ops(),
        ),
        one_bus_cycle(
            *old(cpu),
            *old(pinout),
            old(bus).ops(),
            *final(cpu),
            *final(pinout),
            final(bus).ops(),
        ),
{
    if cpu.ir.tm == 1 {
        let addr = u16::from(cpu.pc);
        let data = read_cycle(bus, pinout, addr);
        if pinout.rdy == Pin::On {
            return ;
        }
        cpu.ops.adl = data;
        cpu.pc.increment();
        cpu.ir.increment();
    } else if cpu.ir.tm == 2 {
        let addr = u16::from(cpu.pc);
        let data = read_cycle(bus, pinout, addr);
        if pinout.rdy == Pin::On {
            return ;
        }
        cpu.ops.adh = data;
        cpu.pc.increment();
        cpu.ir.increment();
    } else if cpu.ir.tm == 3 {
        let addr = to_address(cpu.ops.adh, cpu.ops.adl);
        let data = read_cycle(bus, pinout, addr);
        if pinout.rdy == Pin::On {
            return ;
        }
        cpu.ops.dl = data;
        cpu.ir.increment();
    } else if cpu.ir.tm == 4 {
        let addr = to_address(cpu.ops.adh, cpu.ops.adl);
        write_cycle(bus, pinout, addr, cpu.ops.dl);
        cpu.ir.increment();
    } else if cpu.ir.tm == 5 {
        let addr = to_address(cpu.ops.adh, cpu.ops.adl);
        proof {
            I::effect_frame(*cpu);
        }
        I::execute(cpu);
        write_cycle(bus, pinout, addr, cpu.ops.dl);
        poll_interrupts(cpu, pinout);
        cpu.ir.tm = 0;
    } else {
        fetch_cycle(cpu, bus, pinout);
    }
}

/// Absolute indexed read opcodes, 4 cycles plus one more when the indexed
/// low byte carries into the high byte: the first read then lands on the
/// wrong page and is retried one page up.
#[verifier::rlimit(100)]
pub fn absi_read<I: Instruction, B: Bus>(
    cpu: &mut Context,
    bus: &mut B,
    pinout: &mut Pinout,
    use_y: bool,
)
    ensures
        old(cpu).ir.tm == 1 ==> {
            &&& read_pins(*old(pinout), *final(pinout), pc_word(old(cpu).pc))
            &&& read_logged(
                old(bus).ops(),
                final(bus).ops(),
                pc_word(old(cpu).pc),
                final(pinout).data,
            )
            &&& stall_or(
                *old(cpu),
                *old(pinout),
                *final(cpu),
                with_tm(
                    (Context {
                        ops: (OpState { bal: final(pinout).data, ..old(cpu).ops }),
                        pc: pc_inc(old(cpu).pc),
                        ..*old(cpu)
                    }),
                    2,
                ),
            )
        },
        old(cpu).ir.tm == 2 ==> {
            &&& read_pins(*old(pinout), *final(pinout), pc_word(old(cpu).pc))
            &&& read_logged(
                old(bus).ops(),
                final(bus).ops(),
                pc_word(old(cpu).pc),
                final(pinout).data,
            )
            &&& stall_or(
                *old(cpu),
                *old(pinout),
                *final(cpu),
                with_tm(
                    (Context {
                        ops: (OpState {
                            adh: final(pinout).data,
                            adl: add8(old(cpu).ops.bal, index_of(*old(cpu), use_y)),
                            offset_carry: old(cpu).ops.bal + index_of(*old(cpu), use_y) > 255,
                            ..old(cpu).ops
                        }),
                        pc: pc_inc(old(cpu).pc),
                        ..*old(cpu)
                    }),
                    3,
                ),
            )
        },
        old(cpu).ir.tm == 3 ==> {
            &&& read_pins(
                *old(pinout),
                *final(pinout),
                word_of(old(cpu).ops.adh, old(cpu).ops.adl),
            )
            &&& read_logged(
                old(bus).ops(),
                final(bus).ops(),
                word_of(old(cpu).ops.adh, old(cpu).ops.adl),
                final(pinout).data,
            )
            &&& stall_or(
                *old(cpu),
                *old(pinout),
                *final(cpu),
                if old(cpu).ops.offset_carry {
                    with_tm(
                        (Context {
                            ops: (OpState { dl: final(pinout).data, ..old(cpu).ops }),
                            ..*old(cpu)
                        }),
                        4,
                    )
                } else {
                    read_terminal::<I>(*old(cpu), *old(pinout), final(pinout).data)
                },
            )
        },
        old(cpu).ir.tm == 4 ==> {
            &&& read_pins(
                *old(pinout),
                *final(pinout),
                word_of(add8(old(cpu).ops.adh, 1), old(cpu).ops.adl),
            )
            &&& read_logged(
                old(bus).ops(),
                final(bus).ops(),
                word_of(add8(old(cpu).ops.adh, 1), old(cpu).ops.adl),
                final(pinout).data,
            )
            &&& stall_or(
                *old(cpu),
                *old(pinout),
                *final(cpu),
                read_terminal::<I>(*old(cpu), *old(pinout), final(pinout).data),
            )
        },
        !(1 <= old(cpu).ir.tm <= 4) ==> fetch_fallback(
            *old(cpu),
            *old(pinout),
            old(bus).ops(),
            *final(cpu),
            *final(pinout),
            final(bus).ops(),
        ),
        one_bus_cycle(
            *old(cpu),
            *old(pinout),
            old(bus).ops(),
            *final(cpu),
            *final(pinout),
            final(bus).ops(),
        ),
{
    if cpu.ir.tm == 1 {
        let addr = u16::from(cpu.pc);
        let data = read_cycle(bus, pinout, addr);
        if pinout.rdy == Pin::On {
            return ;
        }
        cpu.ops.bal = data;
        cpu.pc.increment();
        cpu.ir.increment();
    } else if cpu.ir.tm == 2 {
        let addr = u16::from(cpu.pc);
        let data = read_cycle(bus, pinout, addr);
        if pinout.rdy == Pin::On {
            return ;
        }
        let idx = if use_y {
            cpu.y
        } else {
            cpu.x
        };
        cpu.ops.adh = data;
        cpu.ops.adl = cpu.ops.bal.wrapping_add(idx);
        cpu.ops.offset_carry = (cpu.ops.bal as u16) + (idx as u16) > 255;
        cpu.pc.increment();
        cpu.ir.increment();
    } else if cpu.ir.tm == 3 {
        let addr = to_address(cpu.ops.adh, cpu.ops.adl);
        if cpu.ops.offset_carry {
            let data = read_cycle(bus, pinout, addr);
            if pinout.rdy == Pin::On {
                return ;
            }
            cpu.ops.dl = data;
            cpu.ir.increment();
        } else {
            read_data_terminal::<I, B>(cpu, bus, pinout, addr);
        }
    } else if cpu.ir.tm == 4 {
        let addr = to_address(cpu.ops.adh.wrapping_add(1), cpu.ops.adl);
        read_data_terminal::<I, B>(cpu, bus, pinout, addr);
    } else {
        fetch_cycle(cpu, bus, pinout);
    }
}

/// Absolute indexed write opcodes, 5 cycles: the fix-up cycle always runs as
/// a dummy read at the possibly wrong page before the real write.
#[verifier::rlimit(50)]
pub fn absi_write<I: Instruction, B: Bus>(
    cpu: &mut Context,
    bus: &mut B,
    pinout: &mut Pinout,
    use_y: bool,
)
    ensures
        old(cpu).ir.tm == 1 ==> {
            &&& read_pins(*old(pinout), *final(pinout), pc_word(old(cpu).pc))
            &&& read_logged(
                old(bus).ops(),
                final(bus).ops(),
                pc_word(old(cpu).pc),
                final(pinout).data,
            )
            &&& stall_or(
                *old(cpu),
                *old(pinout),
                *final(cpu),
                with_tm(
                    (Context {
                        ops: (OpState { bal: final(pinout).data, ..old(cpu).ops }),
                        pc: pc_inc(old(cpu).pc),
                        ..*old(cpu)
                    }),
                    2,
                ),
            )
        },
        old(cpu).ir.tm == 2 ==> {
            &&& read_pins(*old(pinout), *final(pinout), pc_word(old(cpu).pc))
            &&& read_logged(
                old(bus).ops(),
                final(bus).ops(),
                pc_word(old(cpu).pc),
                final(pinout).data,
            )
            &&& stall_or(
                *old(cpu),
                *old(pinout),
                *final(cpu),
                with_tm(
                    (Context {
                        ops: (OpState {
                            adh: final(pinout).data,
                            adl: add8(old(cpu).ops.bal, index_of(*old(cpu), use_y)),
                            offset_carry: old(cpu).ops.bal + index_of(*old(cpu), use_y) > 255,
                            ..old(cpu).ops
                        }),
                        pc: pc_inc(old(cpu).pc),
                        ..*old(cpu)
                    }),
                    3,
                ),
            )
        },
        old(cpu).ir.tm == 3 ==> {
            &&& read_pins(
                *old(pinout),
                *final(pinout),
                word_of(old(cpu).ops.adh, old(cpu).ops.adl),
            )
            &&& read_logged(
                old(bus).ops(),
                final(bus).ops(),
                word_of(old(cpu).ops.adh, old(cpu).ops.adl),
                final(pinout).data,
            )
            &&& stall_or(*old(cpu), *old(pinout), *final(cpu), with_tm(*old(cpu), 4))
        },
        old(cpu).ir.tm == 4 ==> {
            &&& write_pins(
                *old(pinout),
                *final(pinout),
                word_of(fixed_high(*old(cpu)), old(cpu).ops.adl),
                write_data::<I>(*old(cpu)),
            )
            &&& write_logged(
                old(bus).ops(),
                final(bus).ops(),
                word_of(fixed_high(*old(cpu)), old(cpu).ops.adl),
                write_data::<I>(*old(cpu)),
            )
            &&& *final(cpu) == write_terminal::<I>(*old(cpu), *old(pinout))
        },
        !(1 <= old(cpu).ir.tm <= 4) ==> fetch_fallback(
            *old(cpu),
            *old(pinout),
            old(bus).ops(),
            *final(cpu),
            *final(pinout),
            final(bus).ops(),
        ),
        one_bus_cycle(
            *old(cpu),
            *old(pinout),
            old(bus).ops(),
            *final(cpu),
            *final(pinout),
            final(bus).ops(),
        ),
{
    if cpu.ir.tm == 1 {
        let addr = u16::from(cpu.pc);
        let data = read_cycle(bus, pinout, addr);
        if pinout.rdy == Pin::On {
            return ;
        }
        cpu.ops.bal = data;
        cpu.pc.increment();
        cpu.ir.increment();
    } else if cpu.ir.tm == 2 {
        let addr = u16::from(cpu.pc);
        let data = read_cycle(bus, pinout, addr);
        if pinout.rdy == Pin::On {
            return ;
        }
        let idx = if use_y {
            cpu.y
        } else {
            cpu.x
        };
        cpu.ops.adh = data;
        cpu.ops.adl = cpu.ops.bal.wrapping_add(idx);
        cpu.ops.offset_carry = (cpu.ops.bal as u16) + (idx as u16) > 255;
        cpu.pc.increment();
        cpu.ir.increment();
    } else if cpu.ir.tm == 3 {
        let addr = to_address(cpu.ops.adh, cpu.ops.adl);
        let _data = read_cycle(bus, pinout, addr);
        if pinout.rdy == Pin::On {
            return ;
        }
        cpu.ir.increment();
    } else if cpu.ir.tm == 4 {
        let hi = if cpu.ops.offset_carry {
            cpu.ops.adh.wrapping_add(1)
        } else {
            cpu.ops.adh
        };
        let addr = to_address(hi, cpu.ops.adl);
        proof {
            I::effect_frame(*cpu);
        }
        I::execute(cpu);
        write_cycle(bus, pinout, addr, cpu.ops.dl);
        poll_interrupts(cpu, pinout);
        cpu.ir.tm = 0;
    } else {
        fetch_cycle(cpu, bus, pinout);
    }
}

/// Absolute indexed read-modify-write opcodes, 7 cycles: dummy read at the
/// possibly wrong page, real read, dummy write, real write.
#[verifier::rlimit(50)]
pub fn absi_rmw<I: Instruction, B: Bus>(
    cpu: &mut Context,
    bus: &mut B,
    pinout: &mut Pinout,
    use_y: bool,
)
    ensures
        old(cpu).ir.tm == 1 ==> {
            &&& read_pins(*old(pinout), *final(pinout), pc_word(old(cpu).pc))
            &&& read_logged(
                old(bus).ops(),
                final(bus).ops(),
                pc_word(old(cpu).pc),
                final(pinout).data,
            )
            &&& stall_or(
                *old(cpu),
                *old(pinout),
                *final(cpu),
                with_tm(
                    (Context {
                        ops: (OpState { bal: final(pinout).data, ..old(cpu).ops }),
                        pc: pc_inc(old(cpu).pc),
                        ..*old(cpu)
                    }),
                    2,
                ),
            )
        },
        old(cpu).ir.tm == 2 ==> {
            &&& read_pins(*old(pinout), *final(pinout), pc_word(old(cpu).pc))
            &&& read_logged(
                old(bus).ops(),
                final(bus).ops(),
                pc_word(old(cpu).pc),
                final(pinout).data,
            )
            &&& stall_or(
                *old(cpu),
                *old(pinout),
                *final(cpu),
                with_tm(
                    (Context {
                        ops: (OpState {
                            adh: final(pinout).data,
                            adl: add8(old(cpu).ops.bal, index_of(*old(cpu), use_y)),
                            offset_carry: old(cpu).ops.bal + index_of(*old(cpu), use_y) > 255,
                            ..old(cpu).ops
                        }),
                        pc: pc_inc(old(cpu).pc),
                        ..*old(cpu)
                    }),
                    3,
                ),
            )
        },
        old(cpu).ir.tm == 3 ==> {
            &&& read_pins(
                *old(pinout),
                *final(pinout),
                word_of(old(cpu).ops.adh, old(cpu).ops.adl),
            )
            &&& read_logged(
                old(bus).ops(),
                final(bus).ops(),
                word_of(old(cpu).ops.adh, old(cpu).ops.adl),
                final(pinout).data,
            )
            &&& stall_or(*old(cpu), *old(pinout), *final(cpu), with_tm(*old(cpu), 4))
        },
        old(cpu).ir.tm == 4 ==> {
            &&& read_pins(
                *old(pinout),
                *final(pinout),
                word_of(fixed_high(*old(cpu)), old(cpu).ops.adl),
            )
            &&& read_logged(
                old(bus).ops(),
                final(bus).ops(),
                word_of(fixed_high(*old(cpu)), old(cpu).ops.adl),
                final(pinout).data,
            )
            &&& stall_or(
                *old(cpu),
                *old(pinout),
                *final(cpu),
                with_tm(
                    (Context {
                        ops: (OpState { dl: final(pinout).data, ..old(cpu).ops }),
                        ..*old(cpu)
                    }),
                    5,
                ),
            )
        },
        old(cpu).ir.tm == 5 ==> {
            &&& write_pins(
                *old(pinout),
                *final(pinout),
                word_of(fixed_high(*old(cpu)), old(cpu).ops.adl),
                old(cpu).ops.dl,
            )
            &&& write_logged(
                old(bus).ops(),
                final(bus).ops(),
                word_of(fixed_high(*old(cpu)), old(cpu).ops.adl),
                old(cpu).ops.dl,
            )
            &&& *final(cpu) == with_tm(*old(cpu), 6)
        },
        old(cpu).ir.tm == 6 ==> {
            &&& write_pins(
                *old(pinout),
                *final(pinout),
                word_of(fixed_high(*old(cpu)), old(cpu).ops.adl),
                write_data::<I>(*old(cpu)),
            )
            &&& write_logged(
                old(bus).ops(),
                final(bus).ops(),
                word_of(fixed_high(*old(cpu)), old(cpu).ops.adl),
                write_data::<I>(*old(cpu)),
            )
            &&& *final(cpu) == write_terminal::<I>(*old(cpu), *old(pinout))
        },
        !(1 <= old(cpu).ir.tm <= 6) ==> fetch_fallback(
            *old(cpu),
            *old(pinout),
            old(bus).ops(),
            *final(cpu),
            *final(pinout),
            final(bus).ops(),
        ),
        one_bus_cycle(
            *old(cpu),
            *old(pinout),
            old(bus).ops(),
            *final(cpu),
            *final(pinout),
            final(bus).ops(),
        ),
{
    if cpu.ir.tm == 1 {
        let addr = u16::from(cpu.pc);
        let data = read_cycle(bus, pinout, addr);
        if pinout.rdy == Pin::On {
            return ;
        }
        cpu.ops.bal = data;
        cpu.pc.increment();
        cpu.ir.increment();
    } else if cpu.ir.tm == 2 {
        let addr = u16::from(cpu.pc);
        let data = read_cycle(bus, pinout, addr);
        if pinout.rdy == Pin::On {
            return ;
        }
        let idx = if use_y {
            cpu.y
        } else {
            cpu.x
        };
        cpu.ops.adh = data;
        cpu.ops.adl = cpu.ops.bal.wrapping_add(idx);
        cpu.ops.offset_carry = (cpu.ops.bal as u16) + (idx as u16) > 255;
        cpu.pc.increment();
        cpu.ir.increment();
    } else if cpu.ir.tm == 3 {
        let addr = to_address(cpu.ops.adh, cpu.ops.adl);
        let _data = read_cycle(bus, pinout, addr);
        if pinout.rdy == Pin::On {
            return ;
        }
        cpu.ir.increment();
    } else if cpu.ir.tm == 4 {
        let hi = if cpu.ops.offset_carry {
            cpu.ops.adh.wrapping_add(1)
        } else {
            cpu.ops.adh
        };
        let addr = to_address(hi, cpu.ops.adl);
        let data = read_cycle(bus, pinout, addr);
        if pinout.rdy == Pin::On {
            return ;
        }
        cpu.ops.dl = data;
        cpu.ir.increment();
    } else if cpu.ir.tm == 5 {
        let hi = if cpu.ops.offset_carry {
            cpu.ops.adh.wrapping_add(1)
        } else {
            cpu.ops.adh
        };
        let addr = to_address(hi, cpu.ops.adl);
        write_cycle(bus, pinout, addr, cpu.ops.dl);
        cpu.ir.increment();
    } else if cpu.ir.tm == 6 {
        let hi = if cpu.ops.offset_carry {
            cpu.ops.adh.wrapping_add(1)
        } else {
            cpu.ops.adh
        };
        let addr = to_address(hi, cpu.ops.adl);
        proof {
            I::effect_frame(*cpu);
        }
        I::execute(cpu);
        write_cycle(bus, pinout, addr, cpu.ops.dl);
        poll_interrupts(cpu, pinout);
        cpu.ir.tm = 0;
    } else {
        fetch_cycle(cpu, bus, pinout);
    }
}

/// Indexed indirect read opcodes, (d,X), 6 cycles: fetch the pointer base,
/// dummy read while X is added in page zero, fetch the effective address
/// from the pointer, then read and run the semantic.
#[verifier::rlimit(50)]
pub fn indx_read<I: Instruction, B: Bus>(
    cpu: &mut Context,
    bus: &mut B,
    pinout: &mut Pinout,
)
    ensures
        old(cpu).ir.tm == 1 ==> {
            &&& read_pins(*old(pinout), *final(pinout), pc_word(old(cpu).pc))
            &&& read_logged(
                old(bus).ops(),
                final(bus).ops(),
                pc_word(old(cpu).pc),
                final(pinout).data,
            )
            &&& stall_or(
                *old(cpu),
                *old(pinout),
                *final(cpu),
                with_tm(
                    (Context {
                        ops: (OpState { bal: final(pinout).data, ..old(cpu).ops }),
                        pc: pc_inc(old(cpu).pc),
                        ..*old(cpu)
                    }),
                    2,
                ),
            )
        },
        old(cpu).ir.tm == 2 ==> {
            &&& read_pins(*old(pinout), *final(pinout), word_of(0, old(cpu).ops.bal))
            &&& read_logged(
                old(bus).ops(),
                final(bus).ops(),
                word_of(0, old(cpu).ops.bal),
                final(pinout).data,
            )
            &&& stall_or(
                *old(cpu),
                *old(pinout),
                *final(cpu),
                with_tm(
                    (Context {
                        ops: (OpState { bal: add8(old(cpu).ops.bal, old(cpu).x), ..old(cpu).ops }),
                        ..*old(cpu)
                    }),
                    3,
                ),
            )
        },
        old(cpu).ir.tm == 3 ==> {
            &&& read_pins(*old(pinout), *final(pinout), word_of(0, old(cpu).ops.bal))
            &&& read_logged(
                old(bus).ops(),
                final(bus).ops(),
                word_of(0, old(cpu).ops.bal),
                final(pinout).data,
            )
            &&& stall_or(
                *old(cpu),
                *old(pinout),
                *final(cpu),
                with_tm(
                    (Context {
                        ops: (OpState { adl: final(pinout).data, ..old(cpu).ops }),
                        ..*old(cpu)
                    }),
                    4,
                ),
            )
        },
        old(cpu).ir.tm == 4 ==> {
            &&& read_pins(*old(pinout), *final(pinout), word_of(0, add8(old(cpu).ops.bal, 1)))
            &&& read_logged(
                old(bus).ops(),
                final(bus).ops(),
                word_of(0, add8(old(cpu).ops.bal, 1)),
                final(pinout).data,
            )
            &&& stall_or(
                *old(cpu),
                *old(pinout),
                *final(cpu),
                with_tm(
                    (Context {
                        ops: (OpState { adh: final(pinout).data, ..old(cpu).ops }),
                        ..*old(cpu)
                    }),
                    5,
                ),
            )
        },
        old(cpu).ir.tm == 5 ==> {
            &&& read_pins(
                *old(pinout),
                *final(pinout),
                word_of(old(cpu).ops.adh, old(cpu).ops.adl),
            )
            &&& read_logged(
                old(bus).ops(),
                final(bus).ops(),
                word_of(old(cpu).ops.adh, old(cpu).ops.adl),
                final(pinout).data,
            )
            &&& stall_or(
                *old(cpu),
                *old(pinout),
                *final(cpu),
                read_terminal::<I>(*old(cpu), *old(pinout), final(pinout).data),
            )
        },
        !(1 <= old(cpu).ir.tm <= 5) ==> fetch_fallback(
            *old(cpu),
            *old(pinout),
            old(bus).ops(),
            *final(cpu),
            *final(pinout),
            final(bus).ops(),
        ),
        one_bus_cycle(
            *old(cpu),
            *old(pinout),
            old(bus).ops(),
            *final(cpu),
            *final(pinout),
            final(bus).ops(),
        ),
{
    if cpu.ir.tm == 1 {
        let addr = u16::from(cpu.pc);
        let data = read_cycle(bus, pinout, addr);
        if pinout.rdy == Pin::On {
            return ;
        }
        cpu.ops.bal = data;
        cpu.pc.increment();
        cpu.ir.increment();
    } else if cpu.ir.tm == 2 {
        let addr = zp_address(cpu.ops.bal);
        let _data = read_cycle(bus, pinout, addr);
        if pinout.rdy == Pin::On {
            return ;
        }
        cpu.ops.bal = cpu.ops.bal.wrapping_add(cpu.x);
        cpu.ir.increment();
    } else if cpu.ir.tm == 3 {
        let addr = zp_address(cpu.ops.bal);
        let data = read_cycle(bus, pinout, addr);
        if pinout.rdy == Pin::On {
            return ;
        }
        cpu.ops.adl = data;
        cpu.ir.increment();
    } else if cpu.ir.tm == 4 {
        let addr = zp_address(cpu.ops.bal.wrapping_add(1));
        let data = read_cycle(bus, pinout, addr);
        if pinout.rdy == Pin::On {
            return ;
        }
        cpu.ops.adh = data;
        cpu.ir.increment();
    } else if cpu.ir.tm == 5 {
        let addr = to_address(cpu.ops.adh, cpu.ops.adl);
        read_data_terminal::<I, B>(cpu, bus, pinout, addr);
    } else {
        fetch_cycle(cpu, bus, pinout);
    }
}

/// Indexed indirect write opcodes, (d,X), 6 cycles.
#[verifier::rlimit(50)]
pub fn indx_write<I: Instruction, B: Bus>(
    cpu: &mut Context,
    bus: &mut B,
    pinout: &mut Pinout,
)
    ensures
        old(cpu).ir.tm == 1 ==> {
            &&& read_pins(*old(pinout), *final(pinout), pc_word(old(cpu).pc))
            &&& read_logged(
                old(bus).ops(),
                final(bus).ops(),
                pc_word(old(cpu).pc),
                final(pinout).data,
            )
            &&& stall_or(
                *old(cpu),
                *old(pinout),
                *final(cpu),
                with_tm(
                    (Context {
                        ops: (OpState { bal: final(pinout).data, ..old(cpu).ops }),
                        pc: pc_inc(old(cpu).pc),
                        ..*old(cpu)
                    }),
                    2,
                ),
            )
        },
        old(cpu).ir.tm == 2 ==> {
            &&& read_pins(*old(pinout), *final(pinout), word_of(0, old(cpu).ops.bal))
            &&& read_logged(
                old(bus).ops(),
                final(bus).ops(),
                word_of(0, old(cpu).ops.bal),
                final(pinout).data,
            )
            &&& stall_or(
                *old(cpu),
                *old(pinout),
                *final(cpu),
                with_tm(
                    (Context {
                        ops: (OpState { bal: add8(old(cpu).ops.bal, old(cpu).x), ..old(cpu).ops }),
                        ..*old(cpu)
                    }),
                    3,
                ),
            )
        },
        old(cpu).ir.tm == 3 ==> {
            &&& read_pins(*old(pinout), *final(pinout), word_of(0, old(cpu).ops.bal))
            &&& read_logged(
                old(bus).ops(),
                final(bus).ops(),
                word_of(0, old(cpu).ops.bal),
                final(pinout).data,
            )
            &&& stall_or(
                *old(cpu),
                *old(pinout),
                *final(cpu),
                with_tm(
                    (Context {
                        ops: (OpState { adl: final(pinout).data, ..old(cpu).ops }),
                        ..*old(cpu)
                    }),
                    4,
                ),
            )
        },
        old(cpu).ir.tm == 4 ==> {
            &&& read_pins(*old(pinout), *final(pinout), word_of(0, add8(old(cpu).ops.bal, 1)))
            &&& read_logged(
                old(bus).ops(),
                final(bus).ops(),
                word_of(0, add8(old(cpu).ops.bal, 1)),
                final(pinout).data,
            )
            &&& stall_or(
                *old(cpu),
                *old(pinout),
                *final(cpu),
                with_tm(
                    (Context {
                        ops: (OpState { adh: final(pinout).data, ..old(cpu).ops }),
                        ..*old(cpu)
                    }),
                    5,
                ),
            )
        },
        old(cpu).ir.tm == 5 ==> {
            &&& write_pins(
                *old(pinout),
                *final(pinout),
                word_of(old(cpu).ops.adh, old(cpu).ops.adl),
                write_data::<I>(*old(cpu)),
            )
            &&& write_logged(
                old(bus).ops(),
                final(bus).ops(),
                word_of(old(cpu).ops.adh, old(cpu).ops.adl),
                write_data::<I>(*old(cpu)),
            )
            &&& *final(cpu) == write_terminal::<I>(*old(cpu), *old(pinout))
        },
        !(1 <= old(cpu).ir.tm <= 5) ==> fetch_fallback(
            *old(cpu),
            *old(pinout),
            old(bus).ops(),
            *final(cpu),
            *final(pinout),
            final(bus).ops(),
        ),
        one_bus_cycle(
            *old(cpu),
            *old(pinout),
            old(bus).ops(),
            *final(cpu),
            *final(pinout),
            final(bus).ops(),
        ),
{
    if cpu.ir.tm == 1 {
        let addr = u16::from(cpu.pc);
        let data = read_cycle(bus, pinout, addr);
        if pinout.rdy == Pin::On {
            return ;
        }
        cpu.ops.bal = data;
        cpu.pc.increment();
        cpu.ir.increment();
    } else if cpu.ir.tm == 2 {
        let addr = zp_address(cpu.ops.bal);
        let _data = read_cycle(bus, pinout, addr);
        if pinout.rdy == Pin::On {
            return ;
        }
        cpu.ops.bal = cpu.ops.bal.wrapping_add(cpu.x);
        cpu.ir.increment();
    } else if cpu.ir.tm == 3 {
        let addr = zp_address(cpu.ops.bal);
        let data = read_cycle(bus, pinout, addr);
        if pinout.rdy == Pin::On {
            return ;
        }
        cpu.ops.adl = data;
        cpu.ir.increment();
    } else if cpu.ir.tm == 4 {
        let addr = zp_address(cpu.ops.bal.wrapping_add(1));
        let data = read_cycle(bus, pinout, addr);
        if pinout.rdy == Pin::On {
            return ;
        }
        cpu.ops.adh = data;
        cpu.ir.increment();
    } else if cpu.ir.tm == 5 {
        let addr = to_address(cpu.ops.adh, cpu.ops.adl);
        proof {
            I::effect_frame(*cpu);
        }
        I::execute(cpu);
        write_cycle(bus, pinout, addr, cpu.ops.dl);
        poll_interrupts(cpu, pinout);
        cpu.ir.tm = 0;
    } else {
        fetch_cycle(cpu, bus, pinout);
    }
}

/// Indexed indirect read-modify-write opcodes, (d,X), 8 cycles.
#[verifier::rlimit(50)]
pub fn indx_rmw<I: Instruction, B: Bus>(
    cpu: &mut Context,
    bus: &mut B,
    pinout: &mut Pinout,
)
    ensures
        old(cpu).ir.tm == 1 ==> {
            &&& read_pins(*old(pinout), *final(pinout), pc_word(old(cpu).pc))
            &&& read_logged(
                old(bus).ops(),
                final(bus).ops(),
                pc_word(old(cpu).pc),
                final(pinout).data,
            )
            &&& stall_or(
                *old(cpu),
                *old(pinout),
                *final(cpu),
                with_tm(
                    (Context {
                        ops: (OpState { bal: final(pinout).data, ..old(cpu).ops }),
                        pc: pc_inc(old(cpu).pc),
                        ..*old(cpu)
                    }),
                    2,
                ),
            )
        },
        old(cpu).ir.tm == 2 ==> {
            &&& read_pins(*old(pinout), *final(pinout), word_of(0, old(cpu).ops.bal))
            &&& read_logged(
                old(bus).ops(),
                final(bus).ops(),
                word_of(0, old(cpu).ops.bal),
                final(pinout).data,
            )
            &&& stall_or(
                *old(cpu),
                *old(pinout),
                *final(cpu),
                with_tm(
                    (Context {
                        ops: (OpState { bal: add8(old(cpu).ops.bal, old(cpu).x), ..old(cpu).ops }),
                        ..*old(cpu)
                    }),
                    3,
                ),
            )
        },
        old(cpu).ir.tm == 3 ==> {
            &&& read_pins(*old(pinout), *final(pinout), word_of(0, old(cpu).ops.bal))
            &&& read_logged(
                old(bus).ops(),
                final(bus).ops(),
                word_of(0, old(cpu).ops.bal),
                final(pinout).data,
            )
            &&& stall_or(
                *old(cpu),
                *old(pinout),
                *final(cpu),
                with_tm(
                    (Context {
                        ops: (OpState { adl: final(pinout).data, ..old(cpu).ops }),
                        ..*old(cpu)
                    }),
                    4,
                ),
            )
        },
        old(cpu).ir.tm == 4 ==> {
            &&& read_pins(*old(pinout), *final(pinout), word_of(0, add8(old(cpu).ops.bal, 1)))
            &&& read_logged(
                old(bus).ops(),
                final(bus).ops(),
                word_of(0, add8(old(cpu).ops.bal, 1)),
                final(pinout).data,
            )
            &&& stall_or(
                *old(cpu),
                *old(pinout),
                *final(cpu),
                with_tm(
                    (Context {
                        ops: (OpState { adh: final(pinout).data, ..old(cpu).ops }),
                        ..*old(cpu)
                    }),
                    5,
                ),
            )
        },
        old(cpu).ir.tm == 5 ==> {
            &&& read_pins(
                *old(pinout),
                *final(pinout),
                word_of(old(cpu).ops.adh, old(cpu).ops.adl),
            )
            &&& read_logged(
                old(bus).ops(),
                final(bus).ops(),
                word_of(old(cpu).ops.adh, old(cpu).ops.adl),
                final(pinout).data,
            )
            &&& stall_or(
                *old(cpu),
                *old(pinout),
                *final(cpu),
                with_tm(
                    (Context {
                        ops: (OpState { dl: final(pinout).data, ..old(cpu).ops }),
                        ..*old(cpu)
                    }),
                    6,
                ),
            )
        },
        old(cpu).ir.tm == 6 ==> {
            &&& write_pins(
                *old(pinout),
                *final(pinout),
                word_of(old(cpu).ops.adh, old(cpu).ops.adl),
                old(cpu).ops.dl,
            )
            &&& write_logged(
                old(bus).ops(),
                final(bus).ops(),
                word_of(old(cpu).ops.adh, old(cpu).ops.adl),
                old(cpu).ops.dl,
            )
            &&& *final(cpu) == with_tm(*old(cpu), 7)
        },
        old(cpu).ir.tm == 7 ==> {
            &&& write_pins(
                *old(pinout),
                *final(pinout),
                word_of(old(cpu).ops.adh, old(cpu).ops.adl),
                write_data::<I>(*old(cpu)),
            )
            &&& write_logged(
                old(bus).ops(),
                final(bus).ops(),
                word_of(old(cpu).ops.adh, old(cpu).ops.adl),
                write_data::<I>(*old(cpu)),
            )
            &&& *final(cpu) == write_terminal::<I>(*old(cpu), *old(pinout))
        },
        !(1 <= old(cpu).ir.tm <= 7) ==> fetch_fallback(
            *old(cpu),
            *old(pinout),
            old(bus).ops(),
            *final(cpu),
            *final(pinout),
            final(bus).ops(),
        ),
        one_bus_cycle(
            *old(cpu),
            *old(pinout),
            old(bus).ops(),
            *final(cpu),
            *final(pinout),
            final(bus).ops(),
        ),
{
    if cpu.ir.tm == 1 {
        let addr = u16::from(cpu.pc);
        let data = read_cycle(bus, pinout, addr);
        if pinout.rdy == Pin::On {
            return ;
        }
        cpu.ops.bal = data;
        cpu.pc.increment();
        cpu.ir.increment();
    } else if cpu.ir.tm == 2 {
        let addr = zp_address(cpu.ops.bal);
        let _data = read_cycle(bus, pinout, addr);
        if pinout.rdy == Pin::On {
            return ;
        }
        cpu.ops.bal = cpu.ops.bal.wrapping_add(cpu.x);
        cpu.ir.increment();
    } else if cpu.ir.tm == 3 {
        let addr = zp_address(cpu.ops.bal);
        let data = read_cycle(bus, pinout, addr);
        if pinout.rdy == Pin::On {
            return ;
        }
        cpu.ops.adl = data;
        cpu.ir.increment();
    } else if cpu.ir.tm == 4 {
        let addr = zp_address(cpu.ops.bal.wrapping_add(1));
        let data = read_cycle(bus, pinout, addr);
        if pinout.rdy == Pin::On {
            return ;
        }
        cpu.ops.adh = data;
        cpu.ir.increment();
    } else if cpu.ir.tm == 5 {
        let addr = to_address(cpu.ops.adh, cpu.ops.adl);
        let data = read_cycle(bus, pinout, addr);
        if pinout.rdy == Pin::On {
            return ;
        }
        cpu.ops.dl = data;
        cpu.ir.increment();
    } else if cpu.ir.tm == 6 {
        let addr = to_address(cpu.ops.adh, cpu.ops.adl);
        write_cycle(bus, pinout, addr, cpu.ops.dl);
        cpu.ir.increment();
    } else if cpu.ir.tm == 7 {
        let addr = to_address(cpu.ops.adh, cpu.ops.adl);
        proof {
            I::effect_frame(*cpu);
        }
        I::execute(cpu);
        write_cycle(bus, pinout, addr, cpu.ops.dl);
        poll_interrupts(cpu, pinout);
        cpu.ir.tm = 0;
    } else {
        fetch_cycle(cpu, bus, pinout);
    }
}

/// Indirect indexed read opcodes, (d),Y, 5 cycles plus one more when adding
/// Y to the pointer's low byte crosses a page.
#[verifier::rlimit(50)]
pub fn indy_read<I: Instruction, B: Bus>(
    cpu: &mut Context,
    bus: &mut B,
    pinout: &mut Pinout,
)
    ensures
        old(cpu).ir.tm == 1 ==> {
            &&& read_pins(*old(pinout), *final(pinout), pc_word(old(cpu).pc))
            &&& read_logged(
                old(bus).ops(),
                final(bus).ops(),
                pc_word(old(cpu).pc),
                final(pinout).data,
            )
            &&& stall_or(
                *old(cpu),
                *old(pinout),
                *final(cpu),
                with_tm(
                    (Context {
                        ops: (OpState { ial: final(pinout).data, ..old(cpu).ops }),
                        pc: pc_inc(old(cpu).pc),
                        ..*old(cpu)
                    }),
                    2,
                ),
            )
        },
        old(cpu).ir.tm == 2 ==> {
            &&& read_pins(*old(pinout), *final(pinout), word_of(0, old(cpu).ops.ial))
            &&& read_logged(
                old(bus).ops(),
                final(bus).ops(),
                word_of(0, old(cpu).ops.ial),
                final(pinout).data,
            )
            &&& stall_or(
                *old(cpu),
                *old(pinout),
                *final(cpu),
                with_tm(
                    (Context {
                        ops: (OpState { bal: final(pinout).data, ..old(cpu).ops }),
                        ..*old(cpu)
                    }),
                    3,
                ),
            )
        },
        old(cpu).ir.tm == 3 ==> {
            &&& read_pins(*old(pinout), *final(pinout), word_of(0, add8(old(cpu).ops.ial, 1)))
            &&& read_logged(
                old(bus).ops(),
                final(bus).ops(),
                word_of(0, add8(old(cpu).ops.ial, 1)),
                final(pinout).data,
            )
            &&& stall_or(
                *old(cpu),
                *old(pinout),
                *final(cpu),
                with_tm(
                    (Context {
                        ops: (OpState {
                            adh: final(pinout).data,
                            adl: add8(old(cpu).ops.bal, old(cpu).y),
                            offset_carry: old(cpu).ops.bal + old(cpu).y > 255,
                            ..old(cpu).ops
                        }),
                        ..*old(cpu)
                    }),
                    4,
                ),
            )
        },
        old(cpu).ir.tm == 4 ==> {
            &&& read_pins(
                *old(pinout),
                *final(pinout),
                word_of(old(cpu).ops.adh, old(cpu).ops.adl),
            )
            &&& read_logged(
                old(bus).ops(),
                final(bus).ops(),
                word_of(old(cpu).ops.adh, old(cpu).ops.adl),
                final(pinout).data,
            )
            &&& stall_or(
                *old(cpu),
                *old(pinout),
                *final(cpu),
                if old(cpu).ops.offset_carry {
                    with_tm(
                        (Context {
                            ops: (OpState { dl: final(pinout).data, ..old(cpu).ops }),
                            ..*old(cpu)
                        }),
                        5,
                    )
                } else {
                    read_terminal::<I>(*old(cpu), *old(pinout), final(pinout).data)
                },
            )
        },
        old(cpu).ir.tm == 5 ==> {
            &&& read_pins(
                *old(pinout),
                *final(pinout),
                word_of(add8(old(cpu).ops.adh, 1), old(cpu).ops.adl),
            )
            &&& read_logged(
                old(bus).ops(),
                final(bus).ops(),
                word_of(add8(old(cpu).ops.adh, 1), old(cpu).ops.adl),
                final(pinout).data,
            )
            &&& stall_or(
                *old(cpu),
                *old(pinout),
                *final(cpu),
                read_terminal::<I>(*old(cpu), *old(pinout), final(pinout).data),
            )
        },
        !(1 <= old(cpu).ir.tm <= 5) ==> fetch_fallback(
            *old(cpu),
            *old(pinout),
            old(bus).ops(),
            *final(cpu),
            *final(pinout),
            final(bus).ops(),
        ),
        one_bus_cycle(
            *old(cpu),
            *old(pinout),
            old(bus).ops(),
            *final(cpu),
            *final(pinout),
            final(bus).ops(),
        ),
{
    if cpu.ir.tm == 1 {
        let addr = u16::from(cpu.pc);
        let data = read_cycle(bus, pinout, addr);
        if pinout.rdy == Pin::On {
            return ;
        }
        cpu.ops.ial = data;
        cpu.pc.increment();
        cpu.ir.increment();
    } else if cpu.ir.tm == 2 {
        let addr = zp_address(cpu.ops.ial);
        let data = read_cycle(bus, pinout, addr);
        if pinout.rdy == Pin::On {
            return ;
        }
        cpu.ops.bal = data;
        cpu.ir.increment();
    } else if cpu.ir.tm == 3 {
        let addr = zp_address(cpu.ops.ial.wrapping_add(1));
        let data = read_cycle(bus, pinout, addr);
        if pinout.rdy == Pin::On {
            return ;
        }
        cpu.ops.adh = data;
        cpu.ops.adl = cpu.ops.bal.wrapping_add(cpu.y);
        cpu.ops.offset_carry = (cpu.ops.bal as u16) + (cpu.y as u16) > 255;
        cpu.ir.increment();
    } else if cpu.ir.tm == 4 {
        let addr = to_address(cpu.ops.adh, cpu.ops.adl);
        if cpu.ops.offset_carry {
            let data = read_cycle(bus, pinout, addr);
            if pinout.rdy == Pin::On {
                return ;
            }
            cpu.ops.dl = data;
            cpu.ir.increment();
        } else {
            read_data_terminal::<I, B>(cpu, bus, pinout, addr);
        }
    } else if cpu.ir.tm == 5 {
        let addr = to_address(cpu.ops.adh.wrapping_add(1), cpu.ops.adl);
        read_data_terminal::<I, B>(cpu, bus, pinout, addr);
    } else {
        fetch_cycle(cpu, bus, pinout);
    }
}

/// Indirect indexed write opcodes, (d),Y, 6 cycles: the fix-up dummy read
/// always runs before the write.
#[verifier::rlimit(50)]
pub fn indy_write<I: Instruction, B: Bus>(
    cpu: &mut Context,
    bus: &mut B,
    pinout: &mut Pinout,
)
    ensures
        old(cpu).ir.tm == 1 ==> {
            &&& read_pins(*old(pinout), *final(pinout), pc_word(old(cpu).pc))
            &&& read_logged(
                old(bus).ops(),
                final(bus).ops(),
                pc_word(old(cpu).pc),
                final(pinout).data,
            )
            &&& stall_or(
                *old(cpu),
                *old(pinout),
                *final(cpu),
                with_tm(
                    (Context {
                        ops: (OpState { ial: final(pinout).data, ..old(cpu).ops }),
                        pc: pc_inc(old(cpu).pc),
                        ..*old(cpu)
                    }),
                    2,
                ),
            )
        },
        old(cpu).ir.tm == 2 ==> {
            &&& read_pins(*old(pinout), *final(pinout), word_of(0, old(cpu).ops.ial))
            &&& read_logged(
                old(bus).ops(),
                final(bus).ops(),
                word_of(0, old(cpu).ops.ial),
                final(pinout).data,
            )
            &&& stall_or(
                *old(cpu),
                *old(pinout),
                *final(cpu),
                with_tm(
                    (Context {
                        ops: (OpState { bal: final(pinout).data, ..old(cpu).ops }),
                        ..*old(cpu)
                    }),
                    3,
                ),
            )
        },
        old(cpu).ir.tm == 3 ==> {
            &&& read_pins(*old(pinout), *final(pinout), word_of(0, add8(old(cpu).ops.ial, 1)))
            &&& read_logged(
                old(bus).ops(),
                final(bus).ops(),
                word_of(0, add8(old(cpu).ops.ial, 1)),
                final(pinout).data,
            )
            &&& stall_or(
                *old(cpu),
                *old(pinout),
                *final(cpu),
                with_tm(
                    (Context {
                        ops: (OpState {
                            adh: final(pinout).data,
                            adl: add8(old(cpu).ops.bal, old(cpu).y),
                            offset_carry: old(cpu).ops.bal + old(cpu).y > 255,
                            ..old(cpu).ops
                        }),
                        ..*old(cpu)
                    }),
                    4,
                ),
            )
        },
        old(cpu).ir.tm == 4 ==> {
            &&& read_pins(
                *old(pinout),
                *final(pinout),
                word_of(old(cpu).ops.adh, old(cpu).ops.adl),
            )
            &&& read_logged(
                old(bus).ops(),
                final(bus).ops(),
                word_of(old(cpu).ops.adh, old(cpu).ops.adl),
                final(pinout).data,
            )
            &&& stall_or(*old(cpu), *old(pinout), *final(cpu), with_tm(*old(cpu), 5))
        },
        old(cpu).ir.tm == 5 ==> {
            &&& write_pins(
                *old(pinout),
                *final(pinout),
                word_of(fixed_high(*old(cpu)), old(cpu).ops.adl),
                write_data::<I>(*old(cpu)),
            )
            &&& write_logged(
                old(bus).ops(),
                final(bus).ops(),
                word_of(fixed_high(*old(cpu)), old(cpu).ops.adl),
                write_data::<I>(*old(cpu)),
            )
            &&& *final(cpu) == write_terminal::<I>(*old(cpu), *old(pinout))
        },
        !(1 <= old(cpu).ir.tm <= 5) ==> fetch_fallback(
            *old(cpu),
            *old(pinout),
            old(bus).ops(),
            *final(cpu),
            *final(pinout),
            final(bus).ops(),
        ),
        one_bus_cycle(
            *old(cpu),
            *old(pinout),
            old(bus).ops(),
            *final(cpu),
            *final(pinout),
            final(bus).ops(),
        ),
{
    if cpu.ir.tm == 1 {
        let addr = u16::from(cpu.pc);
        let data = read_cycle(bus, pinout, addr);
        if pinout.rdy == Pin::On {
            return ;
        }
        cpu.ops.ial = data;
        cpu.pc.increment();
        cpu.ir.increment();
    } else if cpu.ir.tm == 2 {
        let addr = zp_address(cpu.ops.ial);
        let data = read_cycle(bus, pinout, addr);
        if pinout.rdy == Pin::On {
            return ;
        }
        cpu.ops.bal = data;
        cpu.ir.increment();
    } else if cpu.ir.tm == 3 {
        let addr = zp_address(cpu.ops.ial.wrapping_add(1));
        let data = read_cycle(bus, pinout, addr);
        if pinout.rdy == Pin::On {
            return ;
        }
        cpu.ops.adh = data;
        cpu.ops.adl = cpu.ops.bal.wrapping_add(cpu.y);
        cpu.ops.offset_carry = (cpu.ops.bal as u16) + (cpu.y as u16) > 255;
        cpu.ir.increment();
    } else if cpu.ir.tm == 4 {
        let addr = to_address(cpu.ops.adh, cpu.ops.adl);
        let _data = read_cycle(bus, pinout, addr);
        if pinout.rdy == Pin::On {
            return ;
        }
        cpu.ir.increment();
    } else if cpu.ir.tm == 5 {
        let hi = if cpu.ops.offset_carry {
            cpu.ops.adh.wrapping_add(1)
        } else {
            cpu.ops.adh
        };
        let addr = to_address(hi, cpu.ops.adl);
        proof {
            I::effect_frame(*cpu);
        }
        I::execute(cpu);
        write_cycle(bus, pinout, addr, cpu.ops.dl);
        poll_interrupts(cpu, pinout);
        cpu.ir.tm = 0;
    } else {
        fetch_cycle(cpu, bus, pinout);
    }
}

/// Indirect indexed read-modify-write opcodes, (d),Y, 8 cycles.
#[verifier::rlimit(50)]
pub fn indy_rmw<I: Instruction, B: Bus>(
    cpu: &mut Context,
    bus: &mut B,
    pinout: &mut Pinout,
)
    ensures
        old(cpu).ir.tm == 1 ==> {
            &&& read_pins(*old(pinout), *final(pinout), pc_word(old(cpu).pc))
            &&& read_logged(
                old(bus).ops(),
                final(bus).ops(),
                pc_word(old(cpu).pc),
                final(pinout).data,
            )
            &&& stall_or(
                *old(cpu),
                *old(pinout),
                *final(cpu),
                with_tm(
                    (Context {
                        ops: (OpState { ial: final(pinout).data, ..old(cpu).ops }),
                        pc: pc_inc(old(cpu).pc),
                        ..*old(cpu)
                    }),
                    2,
                ),
            )
        },
        old(cpu).ir.tm == 2 ==> {
            &&& read_pins(*old(pinout), *final(pinout), word_of(0, old(cpu).ops.ial))
            &&& read_logged(
                old(bus).ops(),
                final(bus).ops(),
                word_of(0, old(cpu).ops.ial),
                final(pinout).data,
            )
            &&& stall_or(
                *old(cpu),
                *old(pinout),
                *final(cpu),
                with_tm(
                    (Context {
                        ops: (OpState { bal: final(pinout).data, ..old(cpu).ops }),
                        ..*old(cpu)
                    }),
                    3,
                ),
            )
        },
        old(cpu).ir.tm == 3 ==> {
            &&& read_pins(*old(pinout), *final(pinout), word_of(0, add8(old(cpu).ops.ial, 1)))
            &&& read_logged(
                old(bus).ops(),
                final(bus).ops(),
                word_of(0, add8(old(cpu).ops.ial, 1)),
                final(pinout).data,
            )
            &&& stall_or(
                *old(cpu),
                *old(pinout),
                *final(cpu),
                with_tm(
                    (Context {
                        ops: (OpState {
                            adh: final(pinout).data,
                            adl: add8(old(cpu).ops.bal, old(cpu).y),
                            offset_carry: old(cpu).ops.bal + old(cpu).y > 255,
                            ..old(cpu).ops
                        }),
                        ..*old(cpu)
                    }),
                    4,
                ),
            )
        },
        old(cpu).ir.tm == 4 ==> {
            &&& read_pins(
                *old(pinout),
                *final(pinout),
                word_of(old(cpu).ops.adh, old(cpu).ops.adl),
            )
            &&& read_logged(
                old(bus).ops(),
                final(bus).ops(),
                word_of(old(cpu).ops.adh, old(cpu).ops.adl),
                final(pinout).data,
            )
            &&& stall_or(*old(cpu), *old(pinout), *final(cpu), with_tm(*old(cpu), 5))
        },
        old(cpu).ir.tm == 5 ==> {
            &&& read_pins(
                *old(pinout),
                *final(pinout),
                word_of(fixed_high(*old(cpu)), old(cpu).ops.adl),
            )
            &&& read_logged(
                old(bus).ops(),
                final(bus).ops(),
                word_of(fixed_high(*old(cpu)), old(cpu).ops.adl),
                final(pinout).data,
            )
            &&& stall_or(
                *old(cpu),
                *old(pinout),
                *final(cpu),
                with_tm(
                    (Context {
                        ops: (OpState { dl: final(pinout).data, ..old(cpu).ops }),
                        ..*old(cpu)
                    }),
                    6,
                ),
            )
        },
        old(cpu).ir.tm == 6 ==> {
            &&& write_pins(
                *old(pinout),
                *final(pinout),
                word_of(fixed_high(*old(cpu)), old(cpu).ops.adl),
                old(cpu).ops.dl,
            )
            &&& write_logged(
                old(bus).ops(),
                final(bus).ops(),
                word_of(fixed_high(*old(cpu)), old(cpu).ops.adl),
                old(cpu).ops.dl,
            )
            &&& *final(cpu) == with_tm(*old(cpu), 7)
        },
        old(cpu).ir.tm == 7 ==> {
            &&& write_pins(
                *old(pinout),
                *final(pinout),
                word_of(fixed_high(*old(cpu)), old(cpu).ops.adl),
                write_data::<I>(*old(cpu)),
            )
            &&& write_logged(
                old(bus).ops(),
                final(bus).ops(),
                word_of(fixed_high(*old(cpu)), old(cpu).ops.adl),
                write_data::<I>(*old(cpu)),
            )
            &&& *final(cpu) == write_terminal::<I>(*old(cpu), *old(pinout))
        },
        !(1 <= old(cpu).ir.tm <= 7) ==> fetch_fallback(
            *old(cpu),
            *old(pinout),
            old(bus).ops(),
            *final(cpu),
            *final(pinout),
            final(bus).ops(),
        ),
        one_bus_cycle(
            *old(cpu),
            *old(pinout),
            old(bus).ops(),
            *final(cpu),
            *final(pinout),
            final(bus).ops(),
        ),
{
    if cpu.ir.tm == 1 {
        let addr = u16::from(cpu.pc);
        let data = read_cycle(bus, pinout, addr);
        if pinout.rdy == Pin::On {
            return ;
        }
        cpu.ops.ial = data;
        cpu.pc.increment();
        cpu.ir.increment();
    } else if cpu.ir.tm == 2 {
        let addr = zp_address(cpu.ops.ial);
        let data = read_cycle(bus, pinout, addr);
        if pinout.rdy == Pin::On {
            return ;
        }
        cpu.ops.bal = data;
        cpu.ir.increment();
    } else if cpu.ir.tm == 3 {
        let addr = zp_address(cpu.ops.ial.wrapping_add(1));
        let data = read_cycle(bus, pinout, addr);
        if pinout.rdy == Pin::On {
            return ;
        }
        cpu.ops.adh = data;
        cpu.ops.adl = cpu.ops.bal.wrapping_add(cpu.y);
        cpu.ops.offset_carry = (cpu.ops.bal as u16) + (cpu.y as u16) > 255;
        cpu.ir.increment();
    } else if cpu.ir.tm == 4 {
        let addr = to_address(cpu.ops.adh, cpu.ops.adl);
        let _data = read_cycle(bus, pinout, addr);
        if pinout.rdy == Pin::On {
            return ;
        }
        cpu.ir.increment();
    } else if cpu.ir.tm == 5 {
        let hi = if cpu.ops.offset_carry {
            cpu.ops.adh.wrapping_add(1)
        } else {
            cpu.ops.adh
        };
        let addr = to_address(hi, cpu.ops.adl);
        let data = read_cycle(bus, pinout, addr);
        if pinout.rdy == Pin::On {
            return ;
        }
        cpu.ops.dl = data;
        cpu.ir.increment();
    } else if cpu.ir.tm == 6 {
        let hi = if cpu.ops.offset_carry {
            cpu.ops.adh.wrapping_add(1)
        } else {
            cpu.ops.adh
        };
        let addr = to_address(hi, cpu.ops.adl);
        write_cycle(bus, pinout, addr, cpu.ops.dl);
        cpu.ir.increment();
    } else if cpu.ir.tm == 7 {
        let hi = if cpu.ops.offset_carry {
            cpu.ops.adh.wrapping_add(1)
        } else {
            cpu.ops.adh
        };
        let addr = to_address(hi, cpu.ops.adl);
        proof {
            I::effect_frame(*cpu);
        }
        I::execute(cpu);
        write_cycle(bus, pinout, addr, cpu.ops.dl);
        poll_interrupts(cpu, pinout);
        cpu.ir.tm = 0;
    } else {
        fetch_cycle(cpu, bus, pinout);
    }
}

/// Whether the interrupt state routes the vector fetch to the NMI vector at
/// 0xFFFA/0xFFFB rather than the BRK/IRQ vector at 0xFFFE/0xFFFF.
pub open spec fn uses_nmi_vector(i: InterruptState) -> bool {
    i == InterruptState::Nmi || i == InterruptState::BrkHijack || i == InterruptState::IrqHijack
}

/// The interrupt state after the hijack point of a BRK or IRQ sequence: an
/// NMI latched before the vector fetch overrides the vector.
pub open spec fn hijacked_ints(c: Context) -> InterruptState {
    if c.nmi_detected && c.ints == InterruptState::Inactive {
        InterruptState::BrkHijack
    } else if c.nmi_detected && c.ints == InterruptState::Irq {
        InterruptState::IrqHijack
    } else {
        c.ints
    }
}

/// Whether the hijack point consumes the latched NMI.
pub open spec fn hijack_consumes_nmi(c: Context) -> bool {
    c.nmi_detected && (c.ints == InterruptState::Inactive || c.ints == InterruptState::Irq)
}

/// Relative branch opcodes: fetch the offset and decide; a taken branch
/// spends one more cycle adding the offset to PCL, and another only when the
/// add crosses a page, fixing PCH.
#[verifier::rlimit(100)]
#[verifier::spinoff_prover]
pub fn branch<I: Instruction, B: Bus>(cpu: &mut Context, bus: &mut B, pinout: &mut Pinout)
    ensures
        old(cpu).ir.tm == 1 ==> {
            &&& read_pins(*old(pinout), *final(pinout), pc_word(old(cpu).pc))
            &&& read_logged(
                old(bus).ops(),
                final(bus).ops(),
                pc_word(old(cpu).pc),
                final(pinout).data,
            )
            &&& stall_or(
                *old(cpu),
                *old(pinout),
                *final(cpu),
                ({
                    let decided = I::effect(
                        (Context {
                            ops: (OpState { offset: final(pinout).data, ..old(cpu).ops }),
                            pc: pc_inc(old(cpu).pc),
                            ..*old(cpu)
                        }),
                    );
                    if decided.ops.branch_taken {
                        with_tm(decided, 2)
                    } else {
                        with_tm(poll_effect(decided, *old(pinout)), 0)
                    }
                }),
            )
        },
        old(cpu).ir.tm == 2 ==> {
            &&& read_pins(
                *old(pinout),
                *final(pinout),
                word_of(old(cpu).pc.pch, add8(old(cpu).pc.pcl, old(cpu).ops.offset)),
            )
            &&& read_logged(
                old(bus).ops(),
                final(bus).ops(),
                word_of(old(cpu).pc.pch, add8(old(cpu).pc.pcl, old(cpu).ops.offset)),
                final(pinout).data,
            )
            &&& stall_or(
                *old(cpu),
                *old(pinout),
                *final(cpu),
                ({
                    let carry = old(cpu).pc.pcl + old(cpu).ops.offset > 255;
                    let neg = is_negative(old(cpu).ops.offset);
                    let moved = Context {
                        pc: (ProgramCounter {
                            pcl: add8(old(cpu).pc.pcl, old(cpu).ops.offset),
                            pch: old(cpu).pc.pch,
                        }),
                        ops: (OpState {
                            offset_carry: carry,
                            offset_neg: neg,
                            ..old(cpu).ops
                        }),
                        ..*old(cpu)
                    };
                    if carry != neg {
                        with_tm(moved, 3)
                    } else {
                        with_tm(poll_effect(moved, *old(pinout)), 0)
                    }
                }),
            )
        },
        old(cpu).ir.tm == 3 ==> {
            &&& read_pins(
                *old(pinout),
                *final(pinout),
                word_of(
                    if old(cpu).ops.offset_neg {
                        sub8(old(cpu).pc.pch, 1)
                    } else {
                        add8(old(cpu).pc.pch, 1)
                    },
                    old(cpu).pc.pcl,
                ),
            )
            &&& read_logged(
                old(bus).ops(),
                final(bus).ops(),
                word_of(
                    if old(cpu).ops.offset_neg {
                        sub8(old(cpu).pc.pch, 1)
                    } else {
                        add8(old(cpu).pc.pch, 1)
                    },
                    old(cpu).pc.pcl,
                ),
                final(pinout).data,
            )
            &&& stall_or(
                *old(cpu),
                *old(pinout),
                *final(cpu),
                with_tm(
                    poll_effect(
                        (Context {
                            pc: (ProgramCounter {
                                pcl: old(cpu).pc.pcl,
                                pch: if old(cpu).ops.offset_neg {
                                    sub8(old(cpu).pc.pch, 1)
                                } else {
                                    add8(old(cpu).pc.pch, 1)
                                },
                            }),
                            ..*old(cpu)
                        }),
                        *old(pinout),
                    ),
                    0,
                ),
            )
        },
        !(1 <= old(cpu).ir.tm <= 3) ==> fetch_fallback(
            *old(cpu),
            *old(pinout),
            old(bus).ops(),
            *final(cpu),
            *final(pinout),
            final(bus).ops(),
        ),
        one_bus_cycle(
            *old(cpu),
            *old(pinout),
            old(bus).ops(),
            *final(cpu),
            *final(pinout),
            final(bus).ops(),
        ),
{
    if cpu.ir.tm == 1 {
        let addr = u16::from(cpu.pc);
        let data = read_cycle(bus, pinout, addr);
        if pinout.rdy == Pin::On {
            return ;
        }
        cpu.ops.offset = data;
        cpu.pc.increment();
        proof {
            I::effect_frame(*cpu);
        }
        I::execute(cpu);
        if cpu.ops.branch_taken {
            cpu.ir.tm = 2;
        } else {
            poll_interrupts(cpu, pinout);
            cpu.ir.tm = 0;
        }
    } else if cpu.ir.tm == 2 {
        let pcl2 = cpu.pc.pcl.wrapping_add(cpu.ops.offset);
        let carry = (cpu.pc.pcl as u16) + (cpu.ops.offset as u16) > 255;
        let neg = (cpu.ops.offset & 0x80) == 0x80;
        let addr = to_address(cpu.pc.pch, pcl2);
        let _data = read_cycle(bus, pinout, addr);
        if pinout.rdy == Pin::On {
            return ;
        }
        cpu.pc.pcl = pcl2;
        cpu.ops.offset_carry = carry;
        cpu.ops.offset_neg = neg;
        if carry != neg {
            cpu.ir.tm = 3;
        } else {
            poll_interrupts(cpu, pinout);
            cpu.ir.tm = 0;
        }
    } else if cpu.ir.tm == 3 {
        let pch2 = if cpu.ops.offset_neg {
            cpu.pc.pch.wrapping_sub(1)
        } else {
            cpu.pc.pch.wrapping_add(1)
        };
        let addr = to_address(pch2, cpu.pc.pcl);
        let _data = read_cycle(bus, pinout, addr);
        if pinout.rdy == Pin::On {
            return ;
        }
        cpu.pc.pch = pch2;
        poll_interrupts(cpu, pinout);
        cpu.ir.tm = 0;
    } else {
        fetch_cycle(cpu, bus, pinout);
    }
}

/// JMP absolute, 3 cycles: fetch the target low byte, then the high byte,
/// and load PC with the pair.
#[verifier::rlimit(50)]
pub fn jmp_abs<B: Bus>(cpu: &mut Context, bus: &mut B, pinout: &mut Pinout)
    ensures
        old(cpu).ir.tm == 1 ==> {
            &&& read_pins(*old(pinout), *final(pinout), pc_word(old(cpu).pc))
            &&& read_logged(
                old(bus).ops(),
                final(bus).ops(),
                pc_word(old(cpu).pc),
                final(pinout).data,
            )
            &&& stall_or(
                *old(cpu),
                *old(pinout),
                *final(cpu),
                with_tm(
                    (Context {
                        ops: (OpState { adl: final(pinout).data, ..old(cpu).ops }),
                        pc: pc_inc(old(cpu).pc),
                        ..*old(cpu)
                    }),
                    2,
                ),
            )
        },
        old(cpu).ir.tm != 1 && old(cpu).ir.tm != 0 ==> {
            &&& read_pins(*old(pinout), *final(pinout), pc_word(old(cpu).pc))
            &&& read_logged(
                old(bus).ops(),
                final(bus).ops(),
                pc_word(old(cpu).pc),
                final(pinout).data,
            )
            &&& stall_or(
                *old(cpu),
                *old(pinout),
                *final(cpu),
                with_tm(
                    poll_effect(
                        (Context {
                            pc: (ProgramCounter {
                                pcl: old(cpu).ops.adl,
                                pch: final(pinout).data,
                            }),
                            ..*old(cpu)
                        }),
                        *old(pinout),
                    ),
                    0,
                ),
            )
        },
        old(cpu).ir.tm == 0 ==> fetch_fallback(
            *old(cpu),
            *old(pinout),
            old(bus).ops(),
            *final(cpu),
            *final(pinout),
            final(bus).ops(),
        ),
        one_bus_cycle(
            *old(cpu),
            *old(pinout),
            old(bus).ops(),
            *final(cpu),
            *final(pinout),
            final(bus).ops(),
        ),
{
    if cpu.ir.tm == 1 {
        let addr = u16::from(cpu.pc);
        let data = read_cycle(bus, pinout, addr);
        if pinout.rdy == Pin::On {
            return ;
        }
        cpu.ops.adl = data;
        cpu.pc.increment();
        cpu.ir.increment();
    } else if cpu.ir.tm != 0 {
        let addr = u16::from(cpu.pc);
        let data = read_cycle(bus, pinout, addr);
        if pinout.rdy == Pin::On {
            return ;
        }
        cpu.pc = ProgramCounter { pcl: cpu.ops.adl, pch: data };
        poll_interrupts(cpu, pinout);
        cpu.ir.tm = 0;
    } else {
        fetch_cycle(cpu, bus, pinout);
    }
}

/// JMP indirect, 5 cycles: fetch the pointer, read the target low byte at
/// it, and the high byte at the pointer with its *low byte only* advanced —
/// a pointer at 0xxxFF wraps to 0xxx00 instead of crossing the page, the
/// well-known indirect-jump quirk of the 6502.
#[verifier::rlimit(50)]
pub fn jmp_ind<B: Bus>(cpu: &mut Context, bus: &mut B, pinout: &mut Pinout)
    ensures
        old(cpu).ir.tm == 1 ==> {
            &&& read_pins(*old(pinout), *final(pinout), pc_word(old(cpu).pc))
            &&& read_logged(
                old(bus).ops(),
                final(bus).ops(),
                pc_word(old(cpu).pc),
                final(pinout).data,
            )
            &&& stall_or(
                *old(cpu),
                *old(pinout),
                *final(cpu),
                with_tm(
                    (Context {
                        ops: (OpState { ial: final(pinout).data, ..old(cpu).ops }),
                        pc: pc_inc(old(cpu).pc),
                        ..*old(cpu)
                    }),
                    2,
                ),
            )
        },
        old(cpu).ir.tm == 2 ==> {
            &&& read_pins(*old(pinout), *final(pinout), pc_word(old(cpu).pc))
            &&& read_logged(
                old(bus).ops(),
                final(bus).ops(),
                pc_word(old(cpu).pc),
                final(pinout).data,
            )
            &&& stall_or(
                *old(cpu),
                *old(pinout),
                *final(cpu),
                with_tm(
                    (Context {
                        ops: (OpState { iah: final(pinout).data, ..old(cpu).ops }),
                        pc: pc_inc(old(cpu).pc),
                        ..*old(cpu)
                    }),
                    3,
                ),
            )
        },
        old(cpu).ir.tm == 3 ==> {
            &&& read_pins(
                *old(pinout),
                *final(pinout),
                word_of(old(cpu).ops.iah, old(cpu).ops.ial),
            )
            &&& read_logged(
                old(bus).ops(),
                final(bus).ops(),
                word_of(old(cpu).ops.iah, old(cpu).ops.ial),
                final(pinout).data,
            )
            &&& stall_or(
                *old(cpu),
                *old(pinout),
                *final(cpu),
                with_tm(
                    (Context {
                        ops: (OpState { adl: final(pinout).data, ..old(cpu).ops }),
                        ..*old(cpu)
                    }),
                    4,
                ),
            )
        },
        old(cpu).ir.tm == 4 ==> {
            &&& read_pins(
                *old(pinout),
                *final(pinout),
                word_of(old(cpu).ops.iah, add8(old(cpu).ops.ial, 1)),
            )
            &&& read_logged(
                old(bus).ops(),
                final(bus).ops(),
                word_of(old(cpu).ops.iah, add8(old(cpu).ops.ial, 1)),
                final(pinout).data,
            )
            &&& stall_or(
                *old(cpu),
                *old(pinout),
                *final(cpu),
                with_tm(
                    poll_effect(
                        (Context {
                            pc: (ProgramCounter {
                                pcl: old(cpu).ops.adl,
                                pch: final(pinout).data,
                            }),
                            ..*old(cpu)
                        }),
                        *old(pinout),
                    ),
                    0,
                ),
            )
        },
        !(1 <= old(cpu).ir.tm <= 4) ==> fetch_fallback(
            *old(cpu),
            *old(pinout),
            old(bus).ops(),
            *final(cpu),
            *final(pinout),
            final(bus).ops(),
        ),
        one_bus_cycle(
            *old(cpu),
            *old(pinout),
            old(bus).ops(),
            *final(cpu),
            *final(pinout),
            final(bus).ops(),
        ),
{
    if cpu.ir.tm == 1 {
        let addr = u16::from(cpu.pc);
        let data = read_cycle(bus, pinout, addr);
        if pinout.rdy == Pin::On {
            return ;
        }
        cpu.ops.ial = data;
        cpu.pc.increment();
        cpu.ir.increment();
    } else if cpu.ir.tm == 2 {
        let addr = u16::from(cpu.pc);
        let data = read_cycle(bus, pinout, addr);
        if pinout.rdy == Pin::On {
            return ;
        }
        cpu.ops.iah = data;
        cpu.pc.increment();
        cpu.ir.increment();
    } else if cpu.ir.tm == 3 {
        let addr = to_address(cpu.ops.iah, cpu.ops.ial);
        let data = read_cycle(bus, pinout, addr);
        if pinout.rdy == Pin::On {
            return ;
        }
        cpu.ops.adl = data;
        cpu.ir.increment();
    } else if cpu.ir.tm == 4 {
        let addr = to_address(cpu.ops.iah, cpu.ops.ial.wrapping_add(1));
        let data = read_cycle(bus, pinout, addr);
        if pinout.rdy == Pin::On {
            return ;
        }
        cpu.pc = ProgramCounter { pcl: cpu.ops.adl, pch: data };
        poll_interrupts(cpu, pinout);
        cpu.ir.tm = 0;
    } else {
        fetch_cycle(cpu, bus, pinout);
    }
}

/// The indirect-jump page-wrap law: when the pointer's low byte is 0xFF,
/// the high byte of the target is fetched from offset 0x00 of the *same*
/// page, not from the next one.
pub proof fn lemma_jmp_indirect_page_wrap(iah: u8)
    ensures
        word_of(iah, add8(0xFF, 1)) == word_of(iah, 0),
{
}

/// JSR, 6 cycles: fetch the target low byte, an internal stack cycle, push
/// PCH and PCL — PC still addressing the last byte of the JSR — then fetch
/// the target high byte and jump.
#[verifier::rlimit(50)]
pub fn jsr<B: Bus>(cpu: &mut Context, bus: &mut B, pinout: &mut Pinout)
    ensures
        old(cpu).ir.tm == 1 ==> {
            &&& read_pins(*old(pinout), *final(pinout), pc_word(old(cpu).pc))
            &&& read_logged(
                old(bus).ops(),
                final(bus).ops(),
                pc_word(old(cpu).pc),
                final(pinout).data,
            )
            &&& stall_or(
                *old(cpu),
                *old(pinout),
                *final(cpu),
                with_tm(
                    (Context {
                        ops: (OpState { adl: final(pinout).data, ..old(cpu).ops }),
                        pc: pc_inc(old(cpu).pc),
                        ..*old(cpu)
                    }),
                    2,
                ),
            )
        },
        old(cpu).ir.tm == 2 ==> {
            &&& read_pins(*old(pinout), *final(pinout), word_of(1, old(cpu).sp))
            &&& read_logged(
                old(bus).ops(),
                final(bus).ops(),
                word_of(1, old(cpu).sp),
                final(pinout).data,
            )
            &&& stall_or(*old(cpu), *old(pinout), *final(cpu), with_tm(*old(cpu), 3))
        },
        old(cpu).ir.tm == 3 ==> {
            &&& write_pins(
                *old(pinout),
                *final(pinout),
                word_of(1, old(cpu).sp),
                old(cpu).pc.pch,
            )
            &&& write_logged(
                old(bus).ops(),
                final(bus).ops(),
                word_of(1, old(cpu).sp),
                old(cpu).pc.pch,
            )
            &&& *final(cpu) == with_tm(
                (Context { sp: sub8(old(cpu).sp, 1), ..*old(cpu) }),
                4,
            )
        },
        old(cpu).ir.tm == 4 ==> {
            &&& write_pins(
                *old(pinout),
                *final(pinout),
                word_of(1, old(cpu).sp),
                old(cpu).pc.pcl,
            )
            &&& write_logged(
                old(bus).ops(),
                final(bus).ops(),
                word_of(1, old(cpu).sp),
                old(cpu).pc.pcl,
            )
            &&& *final(cpu) == with_tm(
                (Context { sp: sub8(old(cpu).sp, 1), ..*old(cpu) }),
                5,
            )
        },
        old(cpu).ir.tm == 5 ==> {
            &&& read_pins(*old(pinout), *final(pinout), pc_word(old(cpu).pc))
            &&& read_logged(
                old(bus).ops(),
                final(bus).ops(),
                pc_word(old(cpu).pc),
                final(pinout).data,
            )
            &&& stall_or(
                *old(cpu),
                *old(pinout),
                *final(cpu),
                with_tm(
                    poll_effect(
                        (Context {
                            pc: (ProgramCounter {
                                pcl: old(cpu).ops.adl,
                                pch: final(pinout).data,
                            }),
                            ..*old(cpu)
                        }),
                        *old(pinout),
                    ),
                    0,
                ),
            )
        },
        !(1 <= old(cpu).ir.tm <= 5) ==> fetch_fallback(
            *old(cpu),
            *old(pinout),
            old(bus).ops(),
            *final(cpu),
            *final(pinout),
            final(bus).ops(),
        ),
        one_bus_cycle(
            *old(cpu),
            *old(pinout),
            old(bus).ops(),
            *final(cpu),
            *final(pinout),
            final(bus).ops(),
        ),
{
    if cpu.ir.tm == 1 {
        let addr = u16::from(cpu.pc);
        let data = read_cycle(bus, pinout, addr);
        if pinout.rdy == Pin::On {
            return ;
        }
        cpu.ops.adl = data;
        cpu.pc.increment();
        cpu.ir.increment();
    } else if cpu.ir.tm == 2 {
        let addr = stack_address(cpu.sp);
        let _data = read_cycle(bus, pinout, addr);
        if pinout.rdy == Pin::On {
            return ;
        }
        cpu.ir.increment();
    } else if cpu.ir.tm == 3 {
        let addr = stack_address(cpu.sp);
        write_cycle(bus, pinout, addr, cpu.pc.pch);
        cpu.sp = cpu.sp.wrapping_sub(1);
        cpu.ir.increment();
    } else if cpu.ir.tm == 4 {
        let addr = stack_address(cpu.sp);
        write_cycle(bus, pinout, addr, cpu.pc.pcl);
        cpu.sp = cpu.sp.wrapping_sub(1);
        cpu.ir.increment();
    } else if cpu.ir.tm == 5 {
        let addr = u16::from(cpu.pc);
        let data = read_cycle(bus, pinout, addr);
        if pinout.rdy == Pin::On {
            return ;
        }
        cpu.pc = ProgramCounter { pcl: cpu.ops.adl, pch: data };
        poll_interrupts(cpu, pinout);
        cpu.ir.tm = 0;
    } else {
        fetch_cycle(cpu, bus, pinout);
    }
}

/// RTS, 6 cycles: two internal cycles, pull PCL and PCH, then a dummy fetch
/// at the pulled address while PC advances past it.
#[verifier::rlimit(50)]
pub fn rts<B: Bus>(cpu: &mut Context, bus: &mut B, pinout: &mut Pinout)
    ensures
        old(cpu).ir.tm == 1 ==> {
            &&& read_pins(*old(pinout), *final(pinout), pc_word(old(cpu).pc))
            &&& read_logged(
                old(bus).ops(),
                final(bus).ops(),
                pc_word(old(cpu).pc),
                final(pinout).data,
            )
            &&& stall_or(*old(cpu), *old(pinout), *final(cpu), with_tm(*old(cpu), 2))
        },
        old(cpu).ir.tm == 2 ==> {
            &&& read_pins(*old(pinout), *final(pinout), word_of(1, old(cpu).sp))
            &&& read_logged(
                old(bus).ops(),
                final(bus).ops(),
                word_of(1, old(cpu).sp),
                final(pinout).data,
            )
            &&& stall_or(
                *old(cpu),
                *old(pinout),
                *final(cpu),
                with_tm((Context { sp: add8(old(cpu).sp, 1), ..*old(cpu) }), 3),
            )
        },
        old(cpu).ir.tm == 3 ==> {
            &&& read_pins(*old(pinout), *final(pinout), word_of(1, old(cpu).sp))
            &&& read_logged(
                old(bus).ops(),
                final(bus).ops(),
                word_of(1, old(cpu).sp),
                final(pinout).data,
            )
            &&& stall_or(
                *old(cpu),
                *old(pinout),
                *final(cpu),
                with_tm(
                    (Context {
                        pc: (ProgramCounter {
                            pcl: final(pinout).data,
                            pch: old(cpu).pc.pch,
                        }),
                        sp: add8(old(cpu).sp, 1),
                        ..*old(cpu)
                    }),
                    4,
                ),
            )
        },
        old(cpu).ir.tm == 4 ==> {
            &&& read_pins(*old(pinout), *final(pinout), word_of(1, old(cpu).sp))
            &&& read_logged(
                old(bus).ops(),
                final(bus).ops(),
                word_of(1, old(cpu).sp),
                final(pinout).data,
            )
            &&& stall_or(
                *old(cpu),
                *old(pinout),
                *final(cpu),
                with_tm(
                    (Context {
                        pc: (ProgramCounter {
                            pcl: old(cpu).pc.pcl,
                            pch: final(pinout).data,
                        }),
                        ..*old(cpu)
                    }),
                    5,
                ),
            )
        },
        old(cpu).ir.tm == 5 ==> {
            &&& read_pins(*old(pinout), *final(pinout), pc_word(old(cpu).pc))
            &&& read_logged(
                old(bus).ops(),
                final(bus).ops(),
                pc_word(old(cpu).pc),
                final(pinout).data,
            )
            &&& stall_or(
                *old(cpu),
                *old(pinout),
                *final(cpu),
                with_tm(
                    poll_effect(
                        (Context { pc: pc_inc(old(cpu).pc), ..*old(cpu) }),
                        *old(pinout),
                    ),
                    0,
                ),
            )
        },
        !(1 <= old(cpu).ir.tm <= 5) ==> fetch_fallback(
            *old(cpu),
            *old(pinout),
            old(bus).ops(),
            *final(cpu),
            *final(pinout),
            final(bus).ops(),
        ),
        one_bus_cycle(
            *old(cpu),
            *old(pinout),
            old(bus).ops(),
            *final(cpu),
            *final(pinout),
            final(bus).ops(),
        ),
{
    if cpu.ir.tm == 1 {
        let addr = u16::from(cpu.pc);
        let _data = read_cycle(bus, pinout, addr);
        if pinout.rdy == Pin::On {
            return ;
        }
        cpu.ir.increment();
    } else if cpu.ir.tm == 2 {
        let addr = stack_address(cpu.sp);
        let _data = read_cycle(bus, pinout, addr);
        if pinout.rdy == Pin::On {
            return ;
        }
        cpu.sp = cpu.sp.wrapping_add(1);
        cpu.ir.increment();
    } else if cpu.ir.tm == 3 {
        let addr = stack_address(cpu.sp);
        let data = read_cycle(bus, pinout, addr);
        if pinout.rdy == Pin::On {
            return ;
        }
        cpu.pc.pcl = data;
        cpu.sp = cpu.sp.wrapping_add(1);
        cpu.ir.increment();
    } else if cpu.ir.tm == 4 {
        let addr = stack_address(cpu.sp);
        let data = read_cycle(bus, pinout, addr);
        if pinout.rdy == Pin::On {
            return ;
        }
        cpu.pc.pch = data;
        cpu.ir.increment();
    } else if cpu.ir.tm == 5 {
        let addr = u16::from(cpu.pc);
        let _data = read_cycle(bus, pinout, addr);
        if pinout.rdy == Pin::On {
            return ;
        }
        cpu.pc.increment();
        poll_interrupts(cpu, pinout);
        cpu.ir.tm = 0;
    } else {
        fetch_cycle(cpu, bus, pinout);
    }
}

/// RTI, 6 cycles: two internal cycles, pull P (bits 4 and 5 ignored), pull
/// PCL, pull PCH; no PC increment at the end.  The restored Interrupt-Disable
/// is live for this instruction's own poll — the restore happens two cycles
/// before it — unlike SEI, CLI and PLP, whose change waits one instruction;
/// real silicon behaves the same way.
#[verifier::rlimit(50)]
pub fn rti<B: Bus>(cpu: &mut Context, bus: &mut B, pinout: &mut Pinout)
    ensures
        old(cpu).ir.tm == 1 ==> {
            &&& read_pins(*old(pinout), *final(pinout), pc_word(old(cpu).pc))
            &&& read_logged(
                old(bus).ops(),
                final(bus).ops(),
                pc_word(old(cpu).pc),
                final(pinout).data,
            )
            &&& stall_or(*old(cpu), *old(pinout), *final(cpu), with_tm(*old(cpu), 2))
        },
        old(cpu).ir.tm == 2 ==> {
            &&& read_pins(*old(pinout), *final(pinout), word_of(1, old(cpu).sp))
            &&& read_logged(
                old(bus).ops(),
                final(bus).ops(),
                word_of(1, old(cpu).sp),
                final(pinout).data,
            )
            &&& stall_or(
                *old(cpu),
                *old(pinout),
                *final(cpu),
                with_tm((Context { sp: add8(old(cpu).sp, 1), ..*old(cpu) }), 3),
            )
        },
        old(cpu).ir.tm == 3 ==> {
            &&& read_pins(*old(pinout), *final(pinout), word_of(1, old(cpu).sp))
            &&& read_logged(
                old(bus).ops(),
                final(bus).ops(),
                word_of(1, old(cpu).sp),
                final(pinout).data,
            )
            &&& stall_or(
                *old(cpu),
                *old(pinout),
                *final(cpu),
                with_tm(
                    (Context {
                        p: byte_flags(final(pinout).data),
                        sp: add8(old(cpu).sp, 1),
                        ..*old(cpu)
                    }),
                    4,
                ),
            )
        },
        old(cpu).ir.tm == 4 ==> {
            &&& read_pins(*old(pinout), *final(pinout), word_of(1, old(cpu).sp))
            &&& read_logged(
                old(bus).ops(),
                final(bus).ops(),
                word_of(1, old(cpu).sp),
                final(pinout).data,
            )
            &&& stall_or(
                *old(cpu),
                *old(pinout),
                *final(cpu),
                with_tm(
                    (Context {
                        pc: (ProgramCounter {
                            pcl: final(pinout).data,
                            pch: old(cpu).pc.pch,
                        }),
                        sp: add8(old(cpu).sp, 1),
                        ..*old(cpu)
                    }),
                    5,
                ),
            )
        },
        old(cpu).ir.tm == 5 ==> {
            &&& read_pins(*old(pinout), *final(pinout), word_of(1, old(cpu).sp))
            &&& read_logged(
                old(bus).ops(),
                final(bus).ops(),
                word_of(1, old(cpu).sp),
                final(pinout).data,
            )
            &&& stall_or(
                *old(cpu),
                *old(pinout),
                *final(cpu),
                with_tm(
                    poll_effect(
                        (Context {
                            pc: (ProgramCounter {
                                pcl: old(cpu).pc.pcl,
                                pch: final(pinout).data,
                            }),
                            ..*old(cpu)
                        }),
                        *old(pinout),
                    ),
                    0,
                ),
            )
        },
        !(1 <= old(cpu).ir.tm <= 5) ==> fetch_fallback(
            *old(cpu),
            *old(pinout),
            old(bus).ops(),
            *final(cpu),
            *final(pinout),
            final(bus).ops(),
        ),
        one_bus_cycle(
            *old(cpu),
            *old(pinout),
            old(bus).ops(),
            *final(cpu),
            *final(pinout),
            final(bus).ops(),
        ),
{
    if cpu.ir.tm == 1 {
        let addr = u16::from(cpu.pc);
        let _data = read_cycle(bus, pinout, addr);
        if pinout.rdy == Pin::On {
            return ;
        }
        cpu.ir.increment();
    } else if cpu.ir.tm == 2 {
        let addr = stack_address(cpu.sp);
        let _data = read_cycle(bus, pinout, addr);
        if pinout.rdy == Pin::On {
            return ;
        }
        cpu.sp = cpu.sp.wrapping_add(1);
        cpu.ir.increment();
    } else if cpu.ir.tm == 3 {
        let addr = stack_address(cpu.sp);
        let data = read_cycle(bus, pinout, addr);
        if pinout.rdy == Pin::On {
            return ;
        }
        cpu.p = FlagsRegister::pull(data);
        cpu.sp = cpu.sp.wrapping_add(1);
        cpu.ir.increment();
    } else if cpu.ir.tm == 4 {
        let addr = stack_address(cpu.sp);
        let data = read_cycle(bus, pinout, addr);
        if pinout.rdy == Pin::On {
            return ;
        }
        cpu.pc.pcl = data;
        cpu.sp = cpu.sp.wrapping_add(1);
        cpu.ir.increment();
    } else if cpu.ir.tm == 5 {
        let addr = stack_address(cpu.sp);
        let data = read_cycle(bus, pinout, addr);
        if pinout.rdy == Pin::On {
            return ;
        }
        cpu.pc.pch = data;
        poll_interrupts(cpu, pinout);
        cpu.ir.tm = 0;
    } else {
        fetch_cycle(cpu, bus, pinout);
    }
}

/// BRK and the IRQ/NMI entry, which share the opcode slot 0x00: push PCH,
/// PCL and P, then fetch the vector.  A real BRK reads and skips its
/// signature byte (PC moves past it) and pushes P with the "B" bit set;
/// hardware interrupt entry performs the same cycles without moving PC and
/// pushes P with "B" clear.  An NMI latched before the vector fetch hijacks
/// a BRK or IRQ sequence onto the NMI vector.  No interrupt poll runs at the
/// end of the sequence.
#[verifier::rlimit(50)]
pub fn brk_seq<B: Bus>(cpu: &mut Context, bus: &mut B, pinout: &mut Pinout)
    ensures
        old(cpu).ir.tm == 1 ==> {
            &&& read_pins(*old(pinout), *final(pinout), pc_word(old(cpu).pc))
            &&& read_logged(
                old(bus).ops(),
                final(bus).ops(),
                pc_word(old(cpu).pc),
                final(pinout).data,
            )
            &&& stall_or(
                *old(cpu),
                *old(pinout),
                *final(cpu),
                with_tm(
                    (Context {
                        pc: if old(cpu).ints == InterruptState::Inactive {
                            pc_inc(old(cpu).pc)
                        } else {
                            old(cpu).pc
                        },
                        ..*old(cpu)
                    }),
                    2,
                ),
            )
        },
        old(cpu).ir.tm == 2 ==> {
            &&& write_pins(
                *old(pinout),
                *final(pinout),
                word_of(1, old(cpu).sp),
                old(cpu).pc.pch,
            )
            &&& write_logged(
                old(bus).ops(),
                final(bus).ops(),
                word_of(1, old(cpu).sp),
                old(cpu).pc.pch,
            )
            &&& *final(cpu) == with_tm(
                (Context { sp: sub8(old(cpu).sp, 1), ..*old(cpu) }),
                3,
            )
        },
        old(cpu).ir.tm == 3 ==> {
            &&& write_pins(
                *old(pinout),
                *final(pinout),
                word_of(1, old(cpu).sp),
                old(cpu).pc.pcl,
            )
            &&& write_logged(
                old(bus).ops(),
                final(bus).ops(),
                word_of(1, old(cpu).sp),
                old(cpu).pc.pcl,
            )
            &&& *final(cpu) == with_tm(
                (Context { sp: sub8(old(cpu).sp, 1), ..*old(cpu) }),
                4,
            )
        },
        old(cpu).ir.tm == 4 ==> {
            &&& write_pins(
                *old(pinout),
                *final(pinout),
                word_of(1, old(cpu).sp),
                if old(cpu).ints == InterruptState::Inactive {
                    flags_byte(old(cpu).p) | 0x10u8
                } else {
                    flags_byte(old(cpu).p)
                },
            )
            &&& write_logged(
                old(bus).ops(),
                final(bus).ops(),
                word_of(1, old(cpu).sp),
                if old(cpu).ints == InterruptState::Inactive {
                    flags_byte(old(cpu).p) | 0x10u8
                } else {
                    flags_byte(old(cpu).p)
                },
            )
            &&& *final(cpu) == with_tm(
                (Context { sp: sub8(old(cpu).sp, 1), ..*old(cpu) }),
                5,
            )
        },
        old(cpu).ir.tm == 5 ==> {
            &&& read_pins(
                *old(pinout),
                *final(pinout),
                if uses_nmi_vector(hijacked_ints(*old(cpu))) {
                    0xFFFAu16
                } else {
                    0xFFFEu16
                },
            )
            &&& read_logged(
                old(bus).ops(),
                final(bus).ops(),
                if uses_nmi_vector(hijacked_ints(*old(cpu))) {
                    0xFFFAu16
                } else {
                    0xFFFEu16
                },
                final(pinout).data,
            )
            &&& stall_or(
                *old(cpu),
                *old(pinout),
                *final(cpu),
                with_tm(
                    (Context {
                        ints: hijacked_ints(*old(cpu)),
                        nmi_detected: old(cpu).nmi_detected && !hijack_consumes_nmi(*old(cpu)),
                        ops: (OpState { adl: final(pinout).data, ..old(cpu).ops }),
                        ..*old(cpu)
                    }),
                    6,
                ),
            )
        },
        !(1 <= old(cpu).ir.tm <= 5) && old(cpu).ir.tm != 0 ==> {
            &&& read_pins(
                *old(pinout),
                *final(pinout),
                if uses_nmi_vector(old(cpu).ints) {
                    0xFFFBu16
                } else {
                    0xFFFFu16
                },
            )
            &&& read_logged(
                old(bus).ops(),
                final(bus).ops(),
                if uses_nmi_vector(old(cpu).ints) {
                    0xFFFBu16
                } else {
                    0xFFFFu16
                },
                final(pinout).data,
            )
            &&& stall_or(
                *old(cpu),
                *old(pinout),
                *final(cpu),
                with_tm(
                    (Context {
                        pc: (ProgramCounter {
                            pcl: old(cpu).ops.adl,
                            pch: final(pinout).data,
                        }),
                        p: (FlagsRegister { interrupt_disable: true, ..old(cpu).p }),
                        ints: InterruptState::Inactive,
                        ..*old(cpu)
                    }),
                    0,
                ),
            )
        },
        old(cpu).ir.tm == 0 ==> fetch_fallback(
            *old(cpu),
            *old(pinout),
            old(bus).ops(),
            *final(cpu),
            *final(pinout),
            final(bus).ops(),
        ),
        one_bus_cycle(
            *old(cpu),
            *old(pinout),
            old(bus).ops(),
            *final(cpu),
            *final(pinout),
            final(bus).ops(),
        ),
{
    if cpu.ir.tm == 1 {
        let addr = u16::from(cpu.pc);
        let _data = read_cycle(bus, pinout, addr);
        if pinout.rdy == Pin::On {
            return ;
        }
        if cpu.ints == InterruptState::Inactive {
            cpu.pc.increment();
        }
        cpu.ir.increment();
    } else if cpu.ir.tm == 2 {
        let addr = stack_address(cpu.sp);
        write_cycle(bus, pinout, addr, cpu.pc.pch);
        cpu.sp = cpu.sp.wrapping_sub(1);
        cpu.ir.increment();
    } else if cpu.ir.tm == 3 {
        let addr = stack_address(cpu.sp);
        write_cycle(bus, pinout, addr, cpu.pc.pcl);
        cpu.sp = cpu.sp.wrapping_sub(1);
        cpu.ir.increment();
    } else if cpu.ir.tm == 4 {
        let addr = stack_address(cpu.sp);
        let p = if cpu.ints == InterruptState::Inactive {
            cpu.p.push_with_b_set()
        } else {
            cpu.p.push_with_b_clear()
        };
        write_cycle(bus, pinout, addr, p);
        cpu.sp = cpu.sp.wrapping_sub(1);
        cpu.ir.increment();
    } else if cpu.ir.tm == 5 {
        let hijack = cpu.nmi_detected && (cpu.ints == InterruptState::Inactive || cpu.ints
            == InterruptState::Irq);
        let ints2 = if hijack {
            if cpu.ints == InterruptState::Inactive {
                InterruptState::BrkHijack
            } else {
                InterruptState::IrqHijack
            }
        } else {
            cpu.ints
        };
        let nmi_vec = match ints2 {
            InterruptState::Nmi => true,
            InterruptState::BrkHijack => true,
            InterruptState::IrqHijack => true,
            _ => false,
        };
        let addr: u16 = if nmi_vec {
            0xFFFA
        } else {
            0xFFFE
        };
        let data = read_cycle(bus, pinout, addr);
        if pinout.rdy == Pin::On {
            return ;
        }
        cpu.ints = ints2;
        if hijack {
            cpu.nmi_detected = false;
        }
        cpu.ops.adl = data;
        cpu.ir.increment();
    } else if cpu.ir.tm != 0 {
        let nmi_vec = match cpu.ints {
            InterruptState::Nmi => true,
            InterruptState::BrkHijack => true,
            InterruptState::IrqHijack => true,
            _ => false,
        };
        let addr: u16 = if nmi_vec {
            0xFFFB
        } else {
            0xFFFF
        };
        let data = read_cycle(bus, pinout, addr);
        if pinout.rdy == Pin::On {
            return ;
        }
        cpu.pc = ProgramCounter { pcl: cpu.ops.adl, pch: data };
        cpu.p.interrupt_disable = true;
        cpu.ints = InterruptState::Inactive;
        cpu.ir.tm = 0;
    } else {
        fetch_cycle(cpu, bus, pinout);
    }
}

//====================================================
// Reset
//====================================================

/// First reset cycle: force Interrupt-Disable (status byte 0x24), park PC at
/// 0x00FF and read there, and drop any queued interrupt.  A, X and Y are not
/// touched by reset.
pub fn rst_c0<B: Bus>(cpu: &mut Context, bus: &mut B, pinout: &mut Pinout)
    ensures
        read_pins(*old(pinout), *final(pinout), 0x00FF),
        read_logged(old(bus).ops(), final(bus).ops(), 0x00FF, final(pinout).data),
        old(pinout).rdy == Pin::On ==> *final(cpu) == *old(cpu),
        old(pinout).rdy != Pin::On ==> *final(cpu) == (Context {
            p: byte_flags(0x24),
            pc: (ProgramCounter { pcl: 0xFFu8, pch: 0x00u8 }),
            ops: (OpState { dl: final(pinout).data, ..op_state_clear() }),
            ints: InterruptState::Inactive,
            ir: (InstructionRegister { opcode: old(cpu).ir.opcode, tm: 1u8 }),
            ..*old(cpu)
        }),
        one_bus_cycle(
            *old(cpu),
            *old(pinout),
            old(bus).ops(),
            *final(cpu),
            *final(pinout),
            final(bus).ops(),
        ),
{
    let data = read_cycle(bus, pinout, 0x00FF);
    if pinout.rdy == Pin::On {
        return ;
    }
    cpu.p = FlagsRegister::from(0x24);
    cpu.pc = ProgramCounter { pcl: 0xFF, pch: 0x00 };
    cpu.ops.reset();
    cpu.ops.dl = data;
    cpu.ints = InterruptState::Inactive;
    cpu.ir.tm = 1;
}

/// Second reset cycle: another dummy read at 0x00FF.
pub fn rst_c1<B: Bus>(cpu: &mut Context, bus: &mut B, pinout: &mut Pinout)
    ensures
        read_pins(*old(pinout), *final(pinout), 0x00FF),
        read_logged(old(bus).ops(), final(bus).ops(), 0x00FF, final(pinout).data),
        old(pinout).rdy == Pin::On ==> *final(cpu) == *old(cpu),
        old(pinout).rdy != Pin::On ==> *final(cpu) == with_tm(
            (Context {
                ops: (OpState { dl: final(pinout).data, ..old(cpu).ops }),
                ..*old(cpu)
            }),
            add8(old(cpu).ir.tm, 1),
        ),
        one_bus_cycle(
            *old(cpu),
            *old(pinout),
            old(bus).ops(),
            *final(cpu),
            *final(pinout),
            final(bus).ops(),
        ),
{
    let data = read_cycle(bus, pinout, 0x00FF);
    if pinout.rdy == Pin::On {
        return ;
    }
    cpu.ops.dl = data;
    cpu.ir.increment();
}

/// Third reset cycle: another dummy read at 0x00FF.
pub fn rst_c2<B: Bus>(cpu: &mut Context, bus: &mut B, pinout: &mut Pinout)
    ensures
        read_pins(*old(pinout), *final(pinout), 0x00FF),
        read_logged(old(bus).ops(), final(bus).ops(), 0x00FF, final(pinout).data),
        old(pinout).rdy == Pin::On ==> *final(cpu) == *old(cpu),
        old(pinout).rdy != Pin::On ==> *final(cpu) == with_tm(
            (Context {
                ops: (OpState { dl: final(pinout).data, ..old(cpu).ops }),
                ..*old(cpu)
            }),
            add8(old(cpu).ir.tm, 1),
        ),
        one_bus_cycle(
            *old(cpu),
            *old(pinout),
            old(bus).ops(),
            *final(cpu),
            *final(pinout),
            final(bus).ops(),
        ),
{
    let data = read_cycle(bus, pinout, 0x00FF);
    if pinout.rdy == Pin::On {
        return ;
    }
    cpu.ops.dl = data;
    cpu.ir.increment();
}

/// Fourth reset cycle: where BRK would push PCH, reset only reads the stack
/// slot and decrements SP.
pub fn rst_c3<B: Bus>(cpu: &mut Context, bus: &mut B, pinout: &mut Pinout)
    ensures
        read_pins(*old(pinout), *final(pinout), word_of(1, old(cpu).sp)),
        read_logged(
            old(bus).ops(),
            final(bus).ops(),
            word_of(1, old(cpu).sp),
            final(pinout).data,
        ),
        old(pinout).rdy == Pin::On ==> *final(cpu) == *old(cpu),
        old(pinout).rdy != Pin::On ==> *final(cpu) == with_tm(
            (Context {
                sp: sub8(old(cpu).sp, 1),
                ops: (OpState { dl: final(pinout).data, ..old(cpu).ops }),
                ..*old(cpu)
            }),
            add8(old(cpu).ir.tm, 1),
        ),
        one_bus_cycle(
            *old(cpu),
            *old(pinout),
            old(bus).ops(),
            *final(cpu),
            *final(pinout),
            final(bus).ops(),
        ),
{
    let addr = stack_address(cpu.sp);
    let data = read_cycle(bus, pinout, addr);
    if pinout.rdy == Pin::On {
        return ;
    }
    cpu.ops.dl = data;
    cpu.sp = cpu.sp.wrapping_sub(1);
    cpu.ir.increment();
}

/// Fifth reset cycle: the second inhibited stack push, again a dummy read.
pub fn rst_c4<B: Bus>(cpu: &mut Context, bus: &mut B, pinout: &mut Pinout)
    ensures
        read_pins(*old(pinout), *final(pinout), word_of(1, old(cpu).sp)),
        read_logged(
            old(bus).ops(),
            final(bus).ops(),
            word_of(1, old(cpu).sp),
            final(pinout).data,
        ),
        old(pinout).rdy == Pin::On ==> *final(cpu) == *old(cpu),
        old(pinout).rdy != Pin::On ==> *final(cpu) == with_tm(
            (Context {
                sp: sub8(old(cpu).sp, 1),
                ops: (OpState { dl: final(pinout).data, ..old(cpu).ops }),
                ..*old(cpu)
            }),
            add8(old(cpu).ir.tm, 1),
        ),
        one_bus_cycle(
            *old(cpu),
            *old(pinout),
            old(bus).ops(),
            *final(cpu),
            *final(pinout),
            final(bus).ops(),
        ),
{
    let addr = stack_address(cpu.sp);
    let data = read_cycle(bus, pinout, addr);
    if pinout.rdy == Pin::On {
        return ;
    }
    cpu.ops.dl = data;
    cpu.sp = cpu.sp.wrapping_sub(1);
    cpu.ir.increment();
}

/// Sixth reset cycle: the third inhibited stack push; after it SP has
/// dropped by three in all, 0xFD from a power-on SP of zero.
pub fn rst_c5<B: Bus>(cpu: &mut Context, bus: &mut B, pinout: &mut Pinout)
    ensures
        read_pins(*old(pinout), *final(pinout), word_of(1, old(cpu).sp)),
        read_logged(
            old(bus).ops(),
            final(bus).ops(),
            word_of(1, old(cpu).sp),
            final(pinout).data,
        ),
        old(pinout).rdy == Pin::On ==> *final(cpu) == *old(cpu),
        old(pinout).rdy != Pin::On ==> *final(cpu) == with_tm(
            (Context {
                sp: sub8(old(cpu).sp, 1),
                ops: (OpState { dl: final(pinout).data, ..old(cpu).ops }),
                ..*old(cpu)
            }),
            add8(old(cpu).ir.tm, 1),
        ),
        one_bus_cycle(
            *old(cpu),
            *old(pinout),
            old(bus).ops(),
            *final(cpu),
            *final(pinout),
            final(bus).ops(),
        ),
{
    let addr = stack_address(cpu.sp);
    let data = read_cycle(bus, pinout, addr);
    if pinout.rdy == Pin::On {
        return ;
    }
    cpu.ops.dl = data;
    cpu.sp = cpu.sp.wrapping_sub(1);
    cpu.ir.increment();
}

/// Seventh reset cycle: fetch the low byte of the reset vector from 0xFFFC.
pub fn rst_c6<B: Bus>(cpu: &mut Context, bus: &mut B, pinout: &mut Pinout)
    ensures
        read_pins(*old(pinout), *final(pinout), 0xFFFC),
        read_logged(old(bus).ops(), final(bus).ops(), 0xFFFC, final(pinout).data),
        old(pinout).rdy == Pin::On ==> *final(cpu) == *old(cpu),
        old(pinout).rdy != Pin::On ==> *final(cpu) == with_tm(
            (Context {
                ops: (OpState { adl: final(pinout).data, dl: final(pinout).data, ..old(cpu).ops }),
                ..*old(cpu)
            }),
            add8(old(cpu).ir.tm, 1),
        ),
        one_bus_cycle(
            *old(cpu),
            *old(pinout),
            old(bus).ops(),
            *final(cpu),
            *final(pinout),
            final(bus).ops(),
        ),
{
    let data = read_cycle(bus, pinout, 0xFFFC);
    if pinout.rdy == Pin::On {
        return ;
    }
    cpu.ops.dl = data;
    cpu.ops.adl = data;
    cpu.ir.increment();
}

/// Eighth reset cycle: fetch the high byte of the reset vector from 0xFFFD.
pub fn rst_c7<B: Bus>(cpu: &mut Context, bus: &mut B, pinout: &mut Pinout)
    ensures
        read_pins(*old(pinout), *final(pinout), 0xFFFD),
        read_logged(old(bus).ops(), final(bus).ops(), 0xFFFD, final(pinout).data),
        old(pinout).rdy == Pin::On ==> *final(cpu) == *old(cpu),
        old(pinout).rdy != Pin::On ==> *final(cpu) == with_tm(
            (Context {
                ops: (OpState { adh: final(pinout).data, dl: final(pinout).data, ..old(cpu).ops }),
                ..*old(cpu)
            }),
            add8(old(cpu).ir.tm, 1),
        ),
        one_bus_cycle(
            *old(cpu),
            *old(pinout),
            old(bus).ops(),
            *final(cpu),
            *final(pinout),
            final(bus).ops(),
        ),
{
    let data = read_cycle(bus, pinout, 0xFFFD);
    if pinout.rdy == Pin::On {
        return ;
    }
    cpu.ops.dl = data;
    cpu.ops.adh = data;
    cpu.ir.increment();
}

/// Ninth and last reset cycle: a dead read at the vector target while PC is
/// loaded from the bytes just read; the next tick performs the normal opcode
/// fetch there.
pub fn rst_c8<B: Bus>(cpu: &mut Context, bus: &mut B, pinout: &mut Pinout)
    ensures
        read_pins(
            *old(pinout),
            *final(pinout),
            word_of(old(cpu).ops.adh, old(cpu).ops.adl),
        ),
        read_logged(
            old(bus).ops(),
            final(bus).ops(),
            word_of(old(cpu).ops.adh, old(cpu).ops.adl),
            final(pinout).data,
        ),
        old(pinout).rdy == Pin::On ==> *final(cpu) == *old(cpu),
        old(pinout).rdy != Pin::On ==> *final(cpu) == (Context {
            pc: (ProgramCounter { pcl: old(cpu).ops.adl, pch: old(cpu).ops.adh }),
            rst: false,
            ir: (InstructionRegister { opcode: old(cpu).ir.opcode, tm: 0u8 }),
            ..*old(cpu)
        }),
        one_bus_cycle(
            *old(cpu),
            *old(pinout),
            old(bus).ops(),
            *final(cpu),
            *final(pinout),
            final(bus).ops(),
        ),
{
    let addr = to_address(cpu.ops.adh, cpu.ops.adl);
    let _data = read_cycle(bus, pinout, addr);
    if pinout.rdy == Pin::On {
        return ;
    }
    cpu.pc = ProgramCounter { pcl: cpu.ops.adl, pch: cpu.ops.adh };
    cpu.rst = false;
    cpu.ir.tm = 0;
}

} // verus!
