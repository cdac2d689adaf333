//! The RP2A03 facade: it owns the context and, for each tick, hands the
//! current opcode and tick-within-instruction to the cycle engine, after
//! sampling the interrupt and reset lines.

use crate::bus::{pin_bus_op, Bus, BusOp};
use crate::context::{power_on_context, Context, InstructionRegister, InterruptState};
use crate::instructions::{
    Aac, Aax, AdcNoDec, And, Arr, Asl, AslAccum, Asr, Atx, Axa, Axs, Bcc, Bcs, Beq, Bit, Bmi, Bne, Bpl, Bvc, Bvs, Clc, Cld, Cli, Clv, Cmp, Cpx, Cpy, Dcp, Dec, Dex, Dey, Eor, Inc, Inx, Iny, Isc, Kil, Lar, Lax, Lda, Ldx, Ldy, Lsr, LsrAccum, Nop, Ora, Rla, Rol, RolAccum, Ror, RorAccum, Rra, SbcNoDec, Sec, Sed, Sei, Slo, Sre, Sta, Stx, Sty, Sxa, Sya, Tax, Tay, Tsx, Txa, Txs, Tya, Xaa, Xas,
};
use crate::operations::{
    one_bus_cycle,
    abs_read, abs_rmw, abs_write, absi_read, absi_rmw, absi_write, branch, brk_seq, fetch_cycle,
    immediate, indx_read, indx_rmw, indx_write, indy_read, indy_rmw, indy_write, int_entry, jmp_abs,
    jmp_ind, jsr, kil_halt, pull_p, pull_reg, push_a, push_p, rst_c0, rst_c1, rst_c2, rst_c3,
    rst_c4, rst_c5, rst_c6, rst_c7, rst_c8, rti, rts, single_byte, zp_read, zp_rmw, zp_write,
    zpi_read, zpi_rmw, zpi_write,
};
use crate::pins::{inputs_preserved, power_on_pinout, Pin, Pinout};
use vstd::prelude::*;

verus! {

/// One more tick on the 64-bit cycle counter, wrapping at the top.
pub open spec fn inc64(n: u64) -> u64 {
    if n == u64::MAX {
        0u64
    } else {
        (n + 1) as u64
    }
}

/// The bookkeeping every tick performs before driving the bus: the cycle
/// counter advances; an On-to-Off transition of the NMI pin sets the
/// `nmi_detected` latch; an On-to-Off transition of the RES pin starts the
/// reset sequence at once, aborting whatever instruction was in flight.
pub open spec fn latch_edges(c: Context, pin: Pinout) -> Context {
    Context {
        cycle: inc64(c.cycle),
        nmi_detected: c.nmi_detected || (c.nmi_prev_high && pin.nmi == Pin::Off),
        nmi_prev_high: pin.nmi == Pin::On,
        res_prev_high: pin.res == Pin::On,
        rst: c.rst || (c.res_prev_high && pin.res == Pin::Off),
        ir: if c.res_prev_high && pin.res == Pin::Off {
            InstructionRegister { opcode: c.ir.opcode, tm: 0u8 }
        } else {
            c.ir
        },
        ..c
    }
}

/// The published base cycle count of each opcode: the cycles from its fetch
/// to the next fetch when no page is crossed and no branch is taken.  The
/// jam opcodes are counted as their two-cycle fetch-and-rewind loop.
pub open spec fn published_cycles(op: u8) -> u8 {
    match op {
        0x02u8 | 0x09u8 | 0x0Au8 | 0x0Bu8 | 0x10u8 | 0x12u8 | 0x18u8 | 0x1Au8 | 0x22u8 | 0x29u8 | 0x2Au8 | 0x2Bu8 | 0x30u8 | 0x32u8 | 0x38u8 | 0x3Au8 | 0x42u8 | 0x49u8 | 0x4Au8 | 0x4Bu8 | 0x50u8 | 0x52u8 | 0x58u8 | 0x5Au8 | 0x62u8 | 0x69u8 | 0x6Au8 | 0x6Bu8 | 0x70u8 | 0x72u8 | 0x78u8 | 0x7Au8 | 0x80u8 | 0x82u8 | 0x88u8 | 0x89u8 | 0x8Au8 | 0x8Bu8 | 0x90u8 | 0x92u8 | 0x98u8 | 0x9Au8 | 0xA0u8 | 0xA2u8 | 0xA8u8 | 0xA9u8 | 0xAAu8 | 0xABu8 | 0xB0u8 | 0xB2u8 | 0xB8u8 | 0xBAu8 | 0xC0u8 | 0xC2u8 | 0xC8u8 | 0xC9u8 | 0xCAu8 | 0xCBu8 | 0xD0u8 | 0xD2u8 | 0xD8u8 | 0xDAu8 | 0xE0u8 | 0xE2u8 | 0xE8u8 | 0xE9u8 | 0xEAu8 | 0xEBu8 | 0xF0u8 | 0xF2u8 | 0xF8u8 | 0xFAu8 => 2u8,
        0x04u8 | 0x05u8 | 0x08u8 | 0x24u8 | 0x25u8 | 0x44u8 | 0x45u8 | 0x48u8 | 0x4Cu8 | 0x64u8 | 0x65u8 | 0x84u8 | 0x85u8 | 0x86u8 | 0x87u8 | 0xA4u8 | 0xA5u8 | 0xA6u8 | 0xA7u8 | 0xC4u8 | 0xC5u8 | 0xE4u8 | 0xE5u8 => 3u8,
        0x0Cu8 | 0x0Du8 | 0x14u8 | 0x15u8 | 0x19u8 | 0x1Cu8 | 0x1Du8 | 0x28u8 | 0x2Cu8 | 0x2Du8 | 0x34u8 | 0x35u8 | 0x39u8 | 0x3Cu8 | 0x3Du8 | 0x4Du8 | 0x54u8 | 0x55u8 | 0x59u8 | 0x5Cu8 | 0x5Du8 | 0x68u8 | 0x6Du8 | 0x74u8 | 0x75u8 | 0x79u8 | 0x7Cu8 | 0x7Du8 | 0x8Cu8 | 0x8Du8 | 0x8Eu8 | 0x8Fu8 | 0x94u8 | 0x95u8 | 0x96u8 | 0x97u8 | 0xACu8 | 0xADu8 | 0xAEu8 | 0xAFu8 | 0xB4u8 | 0xB5u8 | 0xB6u8 | 0xB7u8 | 0xB9u8 | 0xBBu8 | 0xBCu8 | 0xBDu8 | 0xBEu8 | 0xBFu8 | 0xCCu8 | 0xCDu8 | 0xD4u8 | 0xD5u8 | 0xD9u8 | 0xDCu8 | 0xDDu8 | 0xECu8 | 0xEDu8 | 0xF4u8 | 0xF5u8 | 0xF9u8 | 0xFCu8 | 0xFDu8 => 4u8,
        0x06u8 | 0x07u8 | 0x11u8 | 0x26u8 | 0x27u8 | 0x31u8 | 0x46u8 | 0x47u8 | 0x51u8 | 0x66u8 | 0x67u8 | 0x6Cu8 | 0x71u8 | 0x99u8 | 0x9Bu8 | 0x9Cu8 | 0x9Du8 | 0x9Eu8 | 0x9Fu8 | 0xB1u8 | 0xB3u8 | 0xC6u8 | 0xC7u8 | 0xD1u8 | 0xE6u8 | 0xE7u8 | 0xF1u8 => 5u8,
        0x01u8 | 0x0Eu8 | 0x0Fu8 | 0x16u8 | 0x17u8 | 0x20u8 | 0x21u8 | 0x2Eu8 | 0x2Fu8 | 0x36u8 | 0x37u8 | 0x40u8 | 0x41u8 | 0x4Eu8 | 0x4Fu8 | 0x56u8 | 0x57u8 | 0x60u8 | 0x61u8 | 0x6Eu8 | 0x6Fu8 | 0x76u8 | 0x77u8 | 0x81u8 | 0x83u8 | 0x91u8 | 0x93u8 | 0xA1u8 | 0xA3u8 | 0xC1u8 | 0xCEu8 | 0xCFu8 | 0xD6u8 | 0xD7u8 | 0xE1u8 | 0xEEu8 | 0xEFu8 | 0xF6u8 | 0xF7u8 => 6u8,
        0x00u8 | 0x1Bu8 | 0x1Eu8 | 0x1Fu8 | 0x3Bu8 | 0x3Eu8 | 0x3Fu8 | 0x5Bu8 | 0x5Eu8 | 0x5Fu8 | 0x7Bu8 | 0x7Eu8 | 0x7Fu8 | 0xDBu8 | 0xDEu8 | 0xDFu8 | 0xFBu8 | 0xFEu8 | 0xFFu8 => 7u8,
        0x03u8 | 0x13u8 | 0x23u8 | 0x33u8 | 0x43u8 | 0x53u8 | 0x63u8 | 0x73u8 | 0xC3u8 | 0xD3u8 | 0xE3u8 | 0xF3u8 => 8u8,
    }
}

/// The opcodes whose read takes one documented extra cycle when indexing
/// crosses a page: the absolute indexed and indirect indexed reads.
pub open spec fn page_cross_read(op: u8) -> bool {
    match op {
        0x11u8 | 0x19u8 | 0x1Cu8 | 0x1Du8 | 0x31u8 | 0x39u8 | 0x3Cu8 | 0x3Du8 | 0x51u8 | 0x59u8 | 0x5Cu8 | 0x5Du8 | 0x71u8 | 0x79u8 | 0x7Cu8 | 0x7Du8 | 0xB1u8 | 0xB3u8 | 0xB9u8 | 0xBBu8 | 0xBCu8 | 0xBDu8 | 0xBEu8 | 0xBFu8 | 0xD1u8 | 0xD9u8 | 0xDCu8 | 0xDDu8 | 0xF1u8 | 0xF9u8 | 0xFCu8 | 0xFDu8 => true,
        _ => false,
    }
}

/// Whether a branch opcode is taken in a given context: each of the eight
/// tests one flag against one polarity.
pub open spec fn branch_taken_of(op: u8, c: Context) -> bool {
    match op {
        0x10u8 => !c.p.negative,
        0x30u8 => c.p.negative,
        0x50u8 => !c.p.overflow,
        0x70u8 => c.p.overflow,
        0x90u8 => !c.p.carry,
        0xB0u8 => c.p.carry,
        0xD0u8 => !c.p.zero,
        0xF0u8 => c.p.zero,
        _ => false,
    }
}

/// Whether adding the fetched branch offset to PCL crosses a page: the
/// unsigned carry of the add disagrees with the offset's sign.
pub open spec fn branch_page_cross(c: Context) -> bool {
    (c.pc.pcl + c.ops.offset > 255) != (c.ops.offset & 0x80 == 0x80)
}

/// The eight conditional branch opcodes.
pub open spec fn branch_op(op: u8) -> bool {
    match op {
        0x10u8 | 0x30u8 | 0x50u8 | 0x70u8 | 0x90u8 | 0xB0u8 | 0xD0u8 | 0xF0u8 => true,
        _ => false,
    }
}

/// How the tick counter moves through an instruction, cycle by cycle: within
/// the pattern it climbs by one, and the cycle numbered one below the
/// published count is the last — the counter returns to zero and the next
/// cycle fetches an opcode.  The documented exceptions stand out exactly:
/// an indexed read whose recorded index carry crossed a page takes one more
/// cycle, and a branch takes one more cycle exactly when its flag test
/// passes and a second exactly when the offset add crosses a page.
pub open spec fn tm_pattern(op: u8, c: Context, tm_after: u8) -> bool {
    let tm = c.ir.tm;
    if branch_op(op) {
        if tm == 1 {
            tm_after == (if branch_taken_of(op, c) {
                2u8
            } else {
                0u8
            })
        } else if tm == 2 {
            tm_after == (if branch_page_cross(c) {
                3u8
            } else {
                0u8
            })
        } else if tm == 3 {
            tm_after == 0
        } else {
            true
        }
    } else if page_cross_read(op) {
        if 1 <= tm < published_cycles(op) - 1 {
            tm_after == tm + 1
        } else if tm == published_cycles(op) - 1 {
            tm_after == (if c.ops.offset_carry {
                (tm + 1) as u8
            } else {
                0u8
            })
        } else if tm == published_cycles(op) {
            tm_after == 0
        } else {
            true
        }
    } else {
        if 1 <= tm < published_cycles(op) - 1 {
            tm_after == tm + 1
        } else if tm == published_cycles(op) - 1 {
            tm_after == 0
        } else {
            true
        }
    }
}

/// One cycle of BPL, with its exact timing pinned: one extra cycle when
/// the branch is taken, another when the target crosses a page.
#[verifier::rlimit(100)]
#[verifier::spinoff_prover]
fn bpl_cycle<B: Bus>(cpu: &mut Context, bus: &mut B, pinout: &mut Pinout)
    ensures
        one_bus_cycle(
            *old(cpu),
            *old(pinout),
            old(bus).ops(),
            *final(cpu),
            *final(pinout),
            final(bus).ops(),
        ),
        old(pinout).rdy != Pin::On ==> tm_pattern(0x10u8, *old(cpu), final(cpu).ir.tm),
{
    branch::<Bpl, B>(cpu, bus, pinout);
}

/// One cycle of BMI, with its exact timing pinned: one extra cycle when
/// the branch is taken, another when the target crosses a page.
#[verifier::rlimit(100)]
#[verifier::spinoff_prover]
fn bmi_cycle<B: Bus>(cpu: &mut Context, bus: &mut B, pinout: &mut Pinout)
    ensures
        one_bus_cycle(
            *old(cpu),
            *old(pinout),
            old(bus).ops(),
            *final(cpu),
            *final(pinout),
            final(bus).ops(),
        ),
        old(pinout).rdy != Pin::On ==> tm_pattern(0x30u8, *old(cpu), final(cpu).ir.tm),
{
    branch::<Bmi, B>(cpu, bus, pinout);
}

/// One cycle of BVC, with its exact timing pinned: one extra cycle when
/// the branch is taken, another when the target crosses a page.
#[verifier::rlimit(100)]
#[verifier::spinoff_prover]
fn bvc_cycle<B: Bus>(cpu: &mut Context, bus: &mut B, pinout: &mut Pinout)
    ensures
        one_bus_cycle(
            *old(cpu),
            *old(pinout),
            old(bus).ops(),
            *final(cpu),
            *final(pinout),
            final(bus).ops(),
        ),
        old(pinout).rdy != Pin::On ==> tm_pattern(0x50u8, *old(cpu), final(cpu).ir.tm),
{
    branch::<Bvc, B>(cpu, bus, pinout);
}

/// One cycle of BVS, with its exact timing pinned: one extra cycle when
/// the branch is taken, another when the target crosses a page.
#[verifier::rlimit(100)]
#[verifier::spinoff_prover]
fn bvs_cycle<B: Bus>(cpu: &mut Context, bus: &mut B, pinout: &mut Pinout)
    ensures
        one_bus_cycle(
            *old(cpu),
            *old(pinout),
            old(bus).ops(),
            *final(cpu),
            *final(pinout),
            final(bus).ops(),
        ),
        old(pinout).rdy != Pin::On ==> tm_pattern(0x70u8, *old(cpu), final(cpu).ir.tm),
{
    branch::<Bvs, B>(cpu, bus, pinout);
}

/// One cycle of BCC, with its exact timing pinned: one extra cycle when
/// the branch is taken, another when the target crosses a page.
#[verifier::rlimit(100)]
#[verifier::spinoff_prover]
fn bcc_cycle<B: Bus>(cpu: &mut Context, bus: &mut B, pinout: &mut Pinout)
    ensures
        one_bus_cycle(
            *old(cpu),
            *old(pinout),
            old(bus).ops(),
            *final(cpu),
            *final(pinout),
            final(bus).ops(),
        ),
        old(pinout).rdy != Pin::On ==> tm_pattern(0x90u8, *old(cpu), final(cpu).ir.tm),
{
    branch::<Bcc, B>(cpu, bus, pinout);
}

/// One cycle of BCS, with its exact timing pinned: one extra cycle when
/// the branch is taken, another when the target crosses a page.
#[verifier::rlimit(100)]
#[verifier::spinoff_prover]
fn bcs_cycle<B: Bus>(cpu: &mut Context, bus: &mut B, pinout: &mut Pinout)
    ensures
        one_bus_cycle(
            *old(cpu),
            *old(pinout),
            old(bus).ops(),
            *final(cpu),
            *final(pinout),
            final(bus).ops(),
        ),
        old(pinout).rdy != Pin::On ==> tm_pattern(0xB0u8, *old(cpu), final(cpu).ir.tm),
{
    branch::<Bcs, B>(cpu, bus, pinout);
}

/// One cycle of BNE, with its exact timing pinned: one extra cycle when
/// the branch is taken, another when the target crosses a page.
#[verifier::rlimit(100)]
#[verifier::spinoff_prover]
fn bne_cycle<B: Bus>(cpu: &mut Context, bus: &mut B, pinout: &mut Pinout)
    ensures
        one_bus_cycle(
            *old(cpu),
            *old(pinout),
            old(bus).ops(),
            *final(cpu),
            *final(pinout),
            final(bus).ops(),
        ),
        old(pinout).rdy != Pin::On ==> tm_pattern(0xD0u8, *old(cpu), final(cpu).ir.tm),
{
    branch::<Bne, B>(cpu, bus, pinout);
}

/// One cycle of BEQ, with its exact timing pinned: one extra cycle when
/// the branch is taken, another when the target crosses a page.
#[verifier::rlimit(100)]
#[verifier::spinoff_prover]
fn beq_cycle<B: Bus>(cpu: &mut Context, bus: &mut B, pinout: &mut Pinout)
    ensures
        one_bus_cycle(
            *old(cpu),
            *old(pinout),
            old(bus).ops(),
            *final(cpu),
            *final(pinout),
            final(bus).ops(),
        ),
        old(pinout).rdy != Pin::On ==> tm_pattern(0xF0u8, *old(cpu), final(cpu).ir.tm),
{
    branch::<Beq, B>(cpu, bus, pinout);
}

/// One cycle of an instruction already past its fetch, opcodes 0x00 through 0x3F;
/// an opcode outside the block falls back to an opcode fetch.
#[verifier::rlimit(100)]
#[verifier::spinoff_prover]
fn opcode_cycle_00_3f<B: Bus>(cpu: &mut Context, bus: &mut B, pinout: &mut Pinout)
    ensures
        one_bus_cycle(
            *old(cpu),
            *old(pinout),
            old(bus).ops(),
            *final(cpu),
            *final(pinout),
            final(bus).ops(),
        ),
        0x00 <= old(cpu).ir.opcode <= 0x3F && old(pinout).rdy != Pin::On ==> tm_pattern(
            old(cpu).ir.opcode,
            *old(cpu),
            final(cpu).ir.tm,
        ),
{
    match cpu.ir.opcode {
        0x00 => brk_seq(cpu, bus, pinout),
        0x01 => indx_read::<Ora, B>(cpu, bus, pinout),
        0x02 => kil_halt::<Kil, B>(cpu, bus, pinout),
        0x03 => indx_rmw::<Slo, B>(cpu, bus, pinout),
        0x04 => zp_read::<Nop, B>(cpu, bus, pinout),
        0x05 => zp_read::<Ora, B>(cpu, bus, pinout),
        0x06 => zp_rmw::<Asl, B>(cpu, bus, pinout),
        0x07 => zp_rmw::<Slo, B>(cpu, bus, pinout),
        0x08 => push_p(cpu, bus, pinout),
        0x09 => immediate::<Ora, B>(cpu, bus, pinout),
        0x0A => single_byte::<AslAccum, B>(cpu, bus, pinout),
        0x0B => immediate::<Aac, B>(cpu, bus, pinout),
        0x0C => abs_read::<Nop, B>(cpu, bus, pinout),
        0x0D => abs_read::<Ora, B>(cpu, bus, pinout),
        0x0E => abs_rmw::<Asl, B>(cpu, bus, pinout),
        0x0F => abs_rmw::<Slo, B>(cpu, bus, pinout),
        0x10 => bpl_cycle(cpu, bus, pinout),
        0x11 => indy_read::<Ora, B>(cpu, bus, pinout),
        0x12 => kil_halt::<Kil, B>(cpu, bus, pinout),
        0x13 => indy_rmw::<Slo, B>(cpu, bus, pinout),
        0x14 => zpi_read::<Nop, B>(cpu, bus, pinout, false),
        0x15 => zpi_read::<Ora, B>(cpu, bus, pinout, false),
        0x16 => zpi_rmw::<Asl, B>(cpu, bus, pinout, false),
        0x17 => zpi_rmw::<Slo, B>(cpu, bus, pinout, false),
        0x18 => single_byte::<Clc, B>(cpu, bus, pinout),
        0x19 => absi_read::<Ora, B>(cpu, bus, pinout, true),
        0x1A => single_byte::<Nop, B>(cpu, bus, pinout),
        0x1B => absi_rmw::<Slo, B>(cpu, bus, pinout, true),
        0x1C => absi_read::<Nop, B>(cpu, bus, pinout, false),
        0x1D => absi_read::<Ora, B>(cpu, bus, pinout, false),
        0x1E => absi_rmw::<Asl, B>(cpu, bus, pinout, false),
        0x1F => absi_rmw::<Slo, B>(cpu, bus, pinout, false),
        0x20 => jsr(cpu, bus, pinout),
        0x21 => indx_read::<And, B>(cpu, bus, pinout),
        0x22 => kil_halt::<Kil, B>(cpu, bus, pinout),
        0x23 => indx_rmw::<Rla, B>(cpu, bus, pinout),
        0x24 => zp_read::<Bit, B>(cpu, bus, pinout),
        0x25 => zp_read::<And, B>(cpu, bus, pinout),
        0x26 => zp_rmw::<Rol, B>(cpu, bus, pinout),
        0x27 => zp_rmw::<Rla, B>(cpu, bus, pinout),
        0x28 => pull_p(cpu, bus, pinout),
        0x29 => immediate::<And, B>(cpu, bus, pinout),
        0x2A => single_byte::<RolAccum, B>(cpu, bus, pinout),
        0x2B => immediate::<Aac, B>(cpu, bus, pinout),
        0x2C => abs_read::<Bit, B>(cpu, bus, pinout),
        0x2D => abs_read::<And, B>(cpu, bus, pinout),
        0x2E => abs_rmw::<Rol, B>(cpu, bus, pinout),
        0x2F => abs_rmw::<Rla, B>(cpu, bus, pinout),
        0x30 => bmi_cycle(cpu, bus, pinout),
        0x31 => indy_read::<And, B>(cpu, bus, pinout),
        0x32 => kil_halt::<Kil, B>(cpu, bus, pinout),
        0x33 => indy_rmw::<Rla, B>(cpu, bus, pinout),
        0x34 => zpi_read::<Nop, B>(cpu, bus, pinout, false),
        0x35 => zpi_read::<And, B>(cpu, bus, pinout, false),
        0x36 => zpi_rmw::<Rol, B>(cpu, bus, pinout, false),
        0x37 => zpi_rmw::<Rla, B>(cpu, bus, pinout, false),
        0x38 => single_byte::<Sec, B>(cpu, bus, pinout),
        0x39 => absi_read::<And, B>(cpu, bus, pinout, true),
        0x3A => single_byte::<Nop, B>(cpu, bus, pinout),
        0x3B => absi_rmw::<Rla, B>(cpu, bus, pinout, true),
        0x3C => absi_read::<Nop, B>(cpu, bus, pinout, false),
        0x3D => absi_read::<And, B>(cpu, bus, pinout, false),
        0x3E => absi_rmw::<Rol, B>(cpu, bus, pinout, false),
        0x3F => absi_rmw::<Rla, B>(cpu, bus, pinout, false),
        _ => fetch_cycle(cpu, bus, pinout),
    }
}

/// One cycle of an instruction already past its fetch, opcodes 0x40 through 0x7F;
/// an opcode outside the block falls back to an opcode fetch.
#[verifier::rlimit(100)]
#[verifier::spinoff_prover]
fn opcode_cycle_40_7f<B: Bus>(cpu: &mut Context, bus: &mut B, pinout: &mut Pinout)
    ensures
        one_bus_cycle(
            *old(cpu),
            *old(pinout),
            old(bus).ops(),
            *final(cpu),
            *final(pinout),
            final(bus).ops(),
        ),
        0x40 <= old(cpu).ir.opcode <= 0x7F && old(pinout).rdy != Pin::On ==> tm_pattern(
            old(cpu).ir.opcode,
            *old(cpu),
            final(cpu).ir.tm,
        ),
{
    match cpu.ir.opcode {
        0x40 => rti(cpu, bus, pinout),
        0x41 => indx_read::<Eor, B>(cpu, bus, pinout),
        0x42 => kil_halt::<Kil, B>(cpu, bus, pinout),
        0x43 => indx_rmw::<Sre, B>(cpu, bus, pinout),
        0x44 => zp_read::<Nop, B>(cpu, bus, pinout),
        0x45 => zp_read::<Eor, B>(cpu, bus, pinout),
        0x46 => zp_rmw::<Lsr, B>(cpu, bus, pinout),
        0x47 => zp_rmw::<Sre, B>(cpu, bus, pinout),
        0x48 => push_a(cpu, bus, pinout),
        0x49 => immediate::<Eor, B>(cpu, bus, pinout),
        0x4A => single_byte::<LsrAccum, B>(cpu, bus, pinout),
        0x4B => immediate::<Asr, B>(cpu, bus, pinout),
        0x4C => jmp_abs(cpu, bus, pinout),
        0x4D => abs_read::<Eor, B>(cpu, bus, pinout),
        0x4E => abs_rmw::<Lsr, B>(cpu, bus, pinout),
        0x4F => abs_rmw::<Sre, B>(cpu, bus, pinout),
        0x50 => bvc_cycle(cpu, bus, pinout),
        0x51 => indy_read::<Eor, B>(cpu, bus, pinout),
        0x52 => kil_halt::<Kil, B>(cpu, bus, pinout),
        0x53 => indy_rmw::<Sre, B>(cpu, bus, pinout),
        0x54 => zpi_read::<Nop, B>(cpu, bus, pinout, false),
        0x55 => zpi_read::<Eor, B>(cpu, bus, pinout, false),
        0x56 => zpi_rmw::<Lsr, B>(cpu, bus, pinout, false),
        0x57 => zpi_rmw::<Sre, B>(cpu, bus, pinout, false),
        0x58 => single_byte::<Cli, B>(cpu, bus, pinout),
        0x59 => absi_read::<Eor, B>(cpu, bus, pinout, true),
        0x5A => single_byte::<Nop, B>(cpu, bus, pinout),
        0x5B => absi_rmw::<Sre, B>(cpu, bus, pinout, true),
        0x5C => absi_read::<Nop, B>(cpu, bus, pinout, false),
        0x5D => absi_read::<Eor, B>(cpu, bus, pinout, false),
        0x5E => absi_rmw::<Lsr, B>(cpu, bus, pinout, false),
        0x5F => absi_rmw::<Sre, B>(cpu, bus, pinout, false),
        0x60 => rts(cpu, bus, pinout),
        0x61 => indx_read::<AdcNoDec, B>(cpu, bus, pinout),
        0x62 => kil_halt::<Kil, B>(cpu, bus, pinout),
        0x63 => indx_rmw::<Rra, B>(cpu, bus, pinout),
        0x64 => zp_read::<Nop, B>(cpu, bus, pinout),
        0x65 => zp_read::<AdcNoDec, B>(cpu, bus, pinout),
        0x66 => zp_rmw::<Ror, B>(cpu, bus, pinout),
        0x67 => zp_rmw::<Rra, B>(cpu, bus, pinout),
        0x68 => pull_reg::<Lda, B>(cpu, bus, pinout),
        0x69 => immediate::<AdcNoDec, B>(cpu, bus, pinout),
        0x6A => single_byte::<RorAccum, B>(cpu, bus, pinout),
        0x6B => immediate::<Arr, B>(cpu, bus, pinout),
        0x6C => jmp_ind(cpu, bus, pinout),
        0x6D => abs_read::<AdcNoDec, B>(cpu, bus, pinout),
        0x6E => abs_rmw::<Ror, B>(cpu, bus, pinout),
        0x6F => abs_rmw::<Rra, B>(cpu, bus, pinout),
        0x70 => bvs_cycle(cpu, bus, pinout),
        0x71 => indy_read::<AdcNoDec, B>(cpu, bus, pinout),
        0x72 => kil_halt::<Kil, B>(cpu, bus, pinout),
        0x73 => indy_rmw::<Rra, B>(cpu, bus, pinout),
        0x74 => zpi_read::<Nop, B>(cpu, bus, pinout, false),
        0x75 => zpi_read::<AdcNoDec, B>(cpu, bus, pinout, false),
        0x76 => zpi_rmw::<Ror, B>(cpu, bus, pinout, false),
        0x77 => zpi_rmw::<Rra, B>(cpu, bus, pinout, false),
        0x78 => single_byte::<Sei, B>(cpu, bus, pinout),
        0x79 => absi_read::<AdcNoDec, B>(cpu, bus, pinout, true),
        0x7A => single_byte::<Nop, B>(cpu, bus, pinout),
        0x7B => absi_rmw::<Rra, B>(cpu, bus, pinout, true),
        0x7C => absi_read::<Nop, B>(cpu, bus, pinout, false),
        0x7D => absi_read::<AdcNoDec, B>(cpu, bus, pinout, false),
        0x7E => absi_rmw::<Ror, B>(cpu, bus, pinout, false),
        0x7F => absi_rmw::<Rra, B>(cpu, bus, pinout, false),
        _ => fetch_cycle(cpu, bus, pinout),
    }
}

/// One cycle of an instruction already past its fetch, opcodes 0x80 through 0xBF;
/// an opcode outside the block falls back to an opcode fetch.
#[verifier::rlimit(100)]
#[verifier::spinoff_prover]
fn opcode_cycle_80_bf<B: Bus>(cpu: &mut Context, bus: &mut B, pinout: &mut Pinout)
    ensures
        one_bus_cycle(
            *old(cpu),
            *old(pinout),
            old(bus).ops(),
            *final(cpu),
            *final(pinout),
            final(bus).ops(),
        ),
        0x80 <= old(cpu).ir.opcode <= 0xBF && old(pinout).rdy != Pin::On ==> tm_pattern(
            old(cpu).ir.opcode,
            *old(cpu),
            final(cpu).ir.tm,
        ),
{
    match cpu.ir.opcode {
        0x80 => immediate::<Nop, B>(cpu, bus, pinout),
        0x81 => indx_write::<Sta, B>(cpu, bus, pinout),
        0x82 => immediate::<Nop, B>(cpu, bus, pinout),
        0x83 => indx_write::<Aax, B>(cpu, bus, pinout),
        0x84 => zp_write::<Sty, B>(cpu, bus, pinout),
        0x85 => zp_write::<Sta, B>(cpu, bus, pinout),
        0x86 => zp_write::<Stx, B>(cpu, bus, pinout),
        0x87 => zp_write::<Aax, B>(cpu, bus, pinout),
        0x88 => single_byte::<Dey, B>(cpu, bus, pinout),
        0x89 => immediate::<Nop, B>(cpu, bus, pinout),
        0x8A => single_byte::<Txa, B>(cpu, bus, pinout),
        0x8B => immediate::<Xaa, B>(cpu, bus, pinout),
        0x8C => abs_write::<Sty, B>(cpu, bus, pinout),
        0x8D => abs_write::<Sta, B>(cpu, bus, pinout),
        0x8E => abs_write::<Stx, B>(cpu, bus, pinout),
        0x8F => abs_write::<Aax, B>(cpu, bus, pinout),
        0x90 => bcc_cycle(cpu, bus, pinout),
        0x91 => indy_write::<Sta, B>(cpu, bus, pinout),
        0x92 => kil_halt::<Kil, B>(cpu, bus, pinout),
        0x93 => indy_write::<Axa, B>(cpu, bus, pinout),
        0x94 => zpi_write::<Sty, B>(cpu, bus, pinout, false),
        0x95 => zpi_write::<Sta, B>(cpu, bus, pinout, false),
        0x96 => zpi_write::<Stx, B>(cpu, bus, pinout, true),
        0x97 => zpi_write::<Aax, B>(cpu, bus, pinout, true),
        0x98 => single_byte::<Tya, B>(cpu, bus, pinout),
        0x99 => absi_write::<Sta, B>(cpu, bus, pinout, true),
        0x9A => single_byte::<Txs, B>(cpu, bus, pinout),
        0x9B => absi_write::<Xas, B>(cpu, bus, pinout, true),
        0x9C => absi_write::<Sya, B>(cpu, bus, pinout, false),
        0x9D => absi_write::<Sta, B>(cpu, bus, pinout, false),
        0x9E => absi_write::<Sxa, B>(cpu, bus, pinout, true),
        0x9F => absi_write::<Axa, B>(cpu, bus, pinout, true),
        0xA0 => immediate::<Ldy, B>(cpu, bus, pinout),
        0xA1 => indx_read::<Lda, B>(cpu, bus, pinout),
        0xA2 => immediate::<Ldx, B>(cpu, bus, pinout),
        0xA3 => indx_read::<Lax, B>(cpu, bus, pinout),
        0xA4 => zp_read::<Ldy, B>(cpu, bus, pinout),
        0xA5 => zp_read::<Lda, B>(cpu, bus, pinout),
        0xA6 => zp_read::<Ldx, B>(cpu, bus, pinout),
        0xA7 => zp_read::<Lax, B>(cpu, bus, pinout),
        0xA8 => single_byte::<Tay, B>(cpu, bus, pinout),
        0xA9 => immediate::<Lda, B>(cpu, bus, pinout),
        0xAA => single_byte::<Tax, B>(cpu, bus, pinout),
        0xAB => immediate::<Atx, B>(cpu, bus, pinout),
        0xAC => abs_read::<Ldy, B>(cpu, bus, pinout),
        0xAD => abs_read::<Lda, B>(cpu, bus, pinout),
        0xAE => abs_read::<Ldx, B>(cpu, bus, pinout),
        0xAF => abs_read::<Lax, B>(cpu, bus, pinout),
        0xB0 => bcs_cycle(cpu, bus, pinout),
        0xB1 => indy_read::<Lda, B>(cpu, bus, pinout),
        0xB2 => kil_halt::<Kil, B>(cpu, bus, pinout),
        0xB3 => indy_read::<Lax, B>(cpu, bus, pinout),
        0xB4 => zpi_read::<Ldy, B>(cpu, bus, pinout, false),
        0xB5 => zpi_read::<Lda, B>(cpu, bus, pinout, false),
        0xB6 => zpi_read::<Ldx, B>(cpu, bus, pinout, true),
        0xB7 => zpi_read::<Lax, B>(cpu, bus, pinout, true),
        0xB8 => single_byte::<Clv, B>(cpu, bus, pinout),
        0xB9 => absi_read::<Lda, B>(cpu, bus, pinout, true),
        0xBA => single_byte::<Tsx, B>(cpu, bus, pinout),
        0xBB => absi_read::<Lar, B>(cpu, bus, pinout, true),
        0xBC => absi_read::<Ldy, B>(cpu, bus, pinout, false),
        0xBD => absi_read::<Lda, B>(cpu, bus, pinout, false),
        0xBE => absi_read::<Ldx, B>(cpu, bus, pinout, true),
        0xBF => absi_read::<Lax, B>(cpu, bus, pinout, true),
        _ => fetch_cycle(cpu, bus, pinout),
    }
}

/// One cycle of an instruction already past its fetch, opcodes 0xC0 through 0xFF;
/// an opcode outside the block falls back to an opcode fetch.
#[verifier::rlimit(100)]
#[verifier::spinoff_prover]
fn opcode_cycle_c0_ff<B: Bus>(cpu: &mut Context, bus: &mut B, pinout: &mut Pinout)
    ensures
        one_bus_cycle(
            *old(cpu),
            *old(pinout),
            old(bus).ops(),
            *final(cpu),
            *final(pinout),
            final(bus).ops(),
        ),
        0xC0 <= old(cpu).ir.opcode <= 0xFF && old(pinout).rdy != Pin::On ==> tm_pattern(
            old(cpu).ir.opcode,
            *old(cpu),
            final(cpu).ir.tm,
        ),
{
    match cpu.ir.opcode {
        0xC0 => immediate::<Cpy, B>(cpu, bus, pinout),
        0xC1 => indx_read::<Cmp, B>(cpu, bus, pinout),
        0xC2 => immediate::<Nop, B>(cpu, bus, pinout),
        0xC3 => indx_rmw::<Dcp, B>(cpu, bus, pinout),
        0xC4 => zp_read::<Cpy, B>(cpu, bus, pinout),
        0xC5 => zp_read::<Cmp, B>(cpu, bus, pinout),
        0xC6 => zp_rmw::<Dec, B>(cpu, bus, pinout),
        0xC7 => zp_rmw::<Dcp, B>(cpu, bus, pinout),
        0xC8 => single_byte::<Iny, B>(cpu, bus, pinout),
        0xC9 => immediate::<Cmp, B>(cpu, bus, pinout),
        0xCA => single_byte::<Dex, B>(cpu, bus, pinout),
        0xCB => immediate::<Axs, B>(cpu, bus, pinout),
        0xCC => abs_read::<Cpy, B>(cpu, bus, pinout),
        0xCD => abs_read::<Cmp, B>(cpu, bus, pinout),
        0xCE => abs_rmw::<Dec, B>(cpu, bus, pinout),
        0xCF => abs_rmw::<Dcp, B>(cpu, bus, pinout),
        0xD0 => bne_cycle(cpu, bus, pinout),
        0xD1 => indy_read::<Cmp, B>(cpu, bus, pinout),
        0xD2 => kil_halt::<Kil, B>(cpu, bus, pinout),
        0xD3 => indy_rmw::<Dcp, B>(cpu, bus, pinout),
        0xD4 => zpi_read::<Nop, B>(cpu, bus, pinout, false),
        0xD5 => zpi_read::<Cmp, B>(cpu, bus, pinout, false),
        0xD6 => zpi_rmw::<Dec, B>(cpu, bus, pinout, false),
        0xD7 => zpi_rmw::<Dcp, B>(cpu, bus, pinout, false),
        0xD8 => single_byte::<Cld, B>(cpu, bus, pinout),
        0xD9 => absi_read::<Cmp, B>(cpu, bus, pinout, true),
        0xDA => single_byte::<Nop, B>(cpu, bus, pinout),
        0xDB => absi_rmw::<Dcp, B>(cpu, bus, pinout, true),
        0xDC => absi_read::<Nop, B>(cpu, bus, pinout, false),
        0xDD => absi_read::<Cmp, B>(cpu, bus, pinout, false),
        0xDE => absi_rmw::<Dec, B>(cpu, bus, pinout, false),
        0xDF => absi_rmw::<Dcp, B>(cpu, bus, pinout, false),
        0xE0 => immediate::<Cpx, B>(cpu, bus, pinout),
        0xE1 => indx_read::<SbcNoDec, B>(cpu, bus, pinout),
        0xE2 => immediate::<Nop, B>(cpu, bus, pinout),
        0xE3 => indx_rmw::<Isc, B>(cpu, bus, pinout),
        0xE4 => zp_read::<Cpx, B>(cpu, bus, pinout),
        0xE5 => zp_read::<SbcNoDec, B>(cpu, bus, pinout),
        0xE6 => zp_rmw::<Inc, B>(cpu, bus, pinout),
        0xE7 => zp_rmw::<Isc, B>(cpu, bus, pinout),
        0xE8 => single_byte::<Inx, B>(cpu, bus, pinout),
        0xE9 => immediate::<SbcNoDec, B>(cpu, bus, pinout),
        0xEA => single_byte::<Nop, B>(cpu, bus, pinout),
        0xEB => immediate::<SbcNoDec, B>(cpu, bus, pinout),
        0xEC => abs_read::<Cpx, B>(cpu, bus, pinout),
        0xED => abs_read::<SbcNoDec, B>(cpu, bus, pinout),
        0xEE => abs_rmw::<Inc, B>(cpu, bus, pinout),
        0xEF => abs_rmw::<Isc, B>(cpu, bus, pinout),
        0xF0 => beq_cycle(cpu, bus, pinout),
        0xF1 => indy_read::<SbcNoDec, B>(cpu, bus, pinout),
        0xF2 => kil_halt::<Kil, B>(cpu, bus, pinout),
        0xF3 => indy_rmw::<Isc, B>(cpu, bus, pinout),
        0xF4 => zpi_read::<Nop, B>(cpu, bus, pinout, false),
        0xF5 => zpi_read::<SbcNoDec, B>(cpu, bus, pinout, false),
        0xF6 => zpi_rmw::<Inc, B>(cpu, bus, pinout, false),
        0xF7 => zpi_rmw::<Isc, B>(cpu, bus, pinout, false),
        0xF8 => single_byte::<Sed, B>(cpu, bus, pinout),
        0xF9 => absi_read::<SbcNoDec, B>(cpu, bus, pinout, true),
        0xFA => single_byte::<Nop, B>(cpu, bus, pinout),
        0xFB => absi_rmw::<Isc, B>(cpu, bus, pinout, true),
        0xFC => absi_read::<Nop, B>(cpu, bus, pinout, false),
        0xFD => absi_read::<SbcNoDec, B>(cpu, bus, pinout, false),
        0xFE => absi_rmw::<Inc, B>(cpu, bus, pinout, false),
        0xFF => absi_rmw::<Isc, B>(cpu, bus, pinout, false),
        _ => fetch_cycle(cpu, bus, pinout),
    }
}

/// The CPU of the NES: a 6502 core without decimal arithmetic.
pub struct Rp2a03 {
    cpu: Context,
}

impl Rp2a03 {
    /// The context the core will start its next cycle from.
    pub closed spec fn ctx(self) -> Context {
        self.cpu
    }

    /// The context, readable for hosts, debuggers and test harnesses.
    pub fn context(&self) -> (c: &Context)
        ensures
            *c == self.ctx(),
    {
        &self.cpu
    }

    /// A CPU as it comes out of power-on: registers zeroed, reset sequence
    /// pending, and a pinout with `rdy` asserted and the interrupt lines
    /// released.  Drive `rdy` low before ticking, or every read stalls.
    pub fn from_power_on() -> (r: (Rp2a03, Pinout))
        ensures
            r.0.ctx() == power_on_context(),
            r.1 == power_on_pinout(),
    {
        (Rp2a03 { cpu: Context::new() }, Pinout::new())
    }

    /// Advance one machine cycle: sample the interrupt and reset lines, then
    /// perform exactly one bus transaction — the one the returned pinout
    /// reports.  While `rdy` is high and the cycle is a read, the context
    /// (beyond the per-tick bookkeeping) does not move, so the same read
    /// repeats on the next tick.
    #[verifier::rlimit(100)]
    #[verifier::spinoff_prover]
    pub fn tick<B: Bus>(&mut self, bus: &mut B, pinout: Pinout) -> (out: Pinout)
        ensures
            final(bus).ops() == old(bus).ops().push(pin_bus_op(out)),
            inputs_preserved(pinout, out),
            final(self).ctx().cycle == inc64(old(self).ctx().cycle),
            out.rw == Pin::On && pinout.rdy == Pin::On ==> final(self).ctx() == latch_edges(
                old(self).ctx(),
                pinout,
            ),
            ({
                let latched = latch_edges(old(self).ctx(), pinout);
                !latched.rst && latched.ir.tm != 0 && pinout.rdy != Pin::On ==> tm_pattern(
                    latched.ir.opcode,
                    latched,
                    final(self).ctx().ir.tm,
                )
            }),
    {
        let mut pinout = pinout;
        if self.cpu.nmi_prev_high && pinout.nmi == Pin::Off {
            self.cpu.nmi_detected = true;
        }
        self.cpu.nmi_prev_high = pinout.nmi == Pin::On;
        if self.cpu.res_prev_high && pinout.res == Pin::Off {
            self.cpu.rst = true;
            self.cpu.ir.tm = 0;
        }
        self.cpu.res_prev_high = pinout.res == Pin::On;
        self.cpu.cycle = if self.cpu.cycle == u64::MAX {
            0
        } else {
            self.cpu.cycle + 1
        };
        proof {
            assert(self.cpu == latch_edges(old(self).ctx(), pinout));
        }
        let cpu = &mut self.cpu;
        if cpu.rst {
            let tm = cpu.ir.tm;
            if tm == 0 {
                rst_c0(cpu, bus, &mut pinout);
            } else if tm == 1 {
                rst_c1(cpu, bus, &mut pinout);
            } else if tm == 2 {
                rst_c2(cpu, bus, &mut pinout);
            } else if tm == 3 {
                rst_c3(cpu, bus, &mut pinout);
            } else if tm == 4 {
                rst_c4(cpu, bus, &mut pinout);
            } else if tm == 5 {
                rst_c5(cpu, bus, &mut pinout);
            } else if tm == 6 {
                rst_c6(cpu, bus, &mut pinout);
            } else if tm == 7 {
                rst_c7(cpu, bus, &mut pinout);
            } else {
                rst_c8(cpu, bus, &mut pinout);
            }
        } else if cpu.ir.tm == 0 {
            if cpu.ints == InterruptState::Irq || cpu.ints == InterruptState::Nmi {
                int_entry(cpu, bus, &mut pinout);
            } else {
                fetch_cycle(cpu, bus, &mut pinout);
            }
        } else {
            let op = cpu.ir.opcode;
            if op < 0x40 {
                opcode_cycle_00_3f(cpu, bus, &mut pinout);
            } else if op < 0x80 {
                opcode_cycle_40_7f(cpu, bus, &mut pinout);
            } else if op < 0xC0 {
                opcode_cycle_80_bf(cpu, bus, &mut pinout);
            } else {
                opcode_cycle_c0_ff(cpu, bus, &mut pinout);
            }
        }
        pinout
    }
}

} // verus!
