//! Instruction semantics: pure data transformations on the context that
//! realise each opcode's arithmetic, logical, shift, branch, transfer,
//! compare and load/store effect.  Operands are staged in `ops.dl` by the
//! cycle engine; results go back to the registers, the flags, `ops.dl`
//! (for stores and read-modify-write forms) or `ops.branch_taken`.
//!
//! Every opcode is a unit struct implementing [`Instruction`]; its whole
//! behaviour is the spec function `effect`, and `execute` is proved to
//! realise it exactly.

use crate::context::{pc_word, word_high, word_low, Context, FlagsRegister, OpState, ProgramCounter};
use vstd::prelude::*;

verus! {

/// One opcode's data transformation.  `effect` is the mathematical meaning;
/// `execute` applies it to the live context.
pub trait Instruction {
    /// The instruction's whole effect on the context.
    spec fn effect(c: Context) -> Context;

    /// Apply the effect.
    fn execute(cpu: &mut Context)
        ensures
            *final(cpu) == Self::effect(*old(cpu)),
    ;

    /// Every instruction is a pure transformation of the registers, the
    /// flags, the program counter and the scratch bank: the cycle counter,
    /// the instruction register and the interrupt bookkeeping never move.
    proof fn effect_frame(c: Context)
        ensures
            Self::effect(c).cycle == c.cycle,
            Self::effect(c).ir == c.ir,
            Self::effect(c).ints == c.ints,
            Self::effect(c).nmi_detected == c.nmi_detected,
            Self::effect(c).nmi_prev_high == c.nmi_prev_high,
            Self::effect(c).res_prev_high == c.res_prev_high,
            Self::effect(c).rst == c.rst,
    ;
}

/// Whether a result sets the Zero flag.
pub open spec fn is_zero(x: u8) -> bool {
    x == 0
}

/// Whether a result sets the Negative flag (bit 7).
pub open spec fn is_negative(x: u8) -> bool {
    x & 0x80 == 0x80
}

/// Flags after a load or arithmetic result: Zero and Negative follow the
/// result, everything else is kept.
pub open spec fn with_nz(p: FlagsRegister, x: u8) -> FlagsRegister {
    FlagsRegister { zero: is_zero(x), negative: is_negative(x), ..p }
}

/// Subtraction modulo 256.
pub open spec fn sub8(x: u8, y: u8) -> u8 {
    (if x >= y {
        x - y
    } else {
        x - y + 256
    }) as u8
}

/// Addition modulo 256.
pub open spec fn add8(x: u8, y: u8) -> u8 {
    ((x + y) % 256) as u8
}

/// A byte shifted left one bit, the top bit falling off.
pub open spec fn double8(x: u8) -> u8 {
    ((2 * x) % 256) as u8
}

fn set_zero(x: u8) -> (b: bool)
    ensures
        b == is_zero(x),
{
    x == 0
}

fn set_negative(x: u8) -> (b: bool)
    ensures
        b == is_negative(x),
{
    (x & 0x80) == 0x80
}

fn shift_left(x: u8) -> (r: u8)
    ensures
        r == double8(x),
{
    (((x as u16) * 2) % 256) as u8
}

/// Binary-mode add-with-carry of `operand` into A: sum = A + operand + C;
/// the new A is the sum modulo 256, Carry is the carry out, Zero and
/// Negative follow the new A, and Overflow is computed from the original A
/// and the original operand.
pub open spec fn adc_effect(c: Context, operand: u8) -> Context {
    let cin: int = if c.p.carry {
        1
    } else {
        0
    };
    let sum: int = c.a + operand + cin;
    let r: u8 = (sum % 256) as u8;
    Context {
        a: r,
        p: FlagsRegister {
            carry: sum > 255,
            zero: is_zero(r),
            negative: is_negative(r),
            overflow: ((c.a ^ r) & (operand ^ r) & 0x80) == 0x80,
            ..c.p
        },
        ..c
    }
}

/// Flags after a compare of `reg` with `operand`: Carry iff no borrow,
/// Zero iff equal, Negative from the difference modulo 256.
pub open spec fn compare_flags(p: FlagsRegister, reg: u8, operand: u8) -> FlagsRegister {
    FlagsRegister {
        carry: reg >= operand,
        zero: reg == operand,
        negative: is_negative(sub8(reg, operand)),
        ..p
    }
}

/// The context after a branch opcode decided: only `ops.branch_taken` moves.
pub open spec fn branch_effect(c: Context, taken: bool) -> Context {
    Context { ops: OpState { branch_taken: taken, ..c.ops }, ..c }
}

fn adc_exec(cpu: &mut Context, operand: u8)
    ensures
        *final(cpu) == adc_effect(*old(cpu), operand),
{
    let a0 = cpu.a;
    let cin: u16 = if cpu.p.carry {
        1
    } else {
        0
    };
    let sum: u16 = (a0 as u16) + (operand as u16) + cin;
    let r: u8 = (sum % 256) as u8;
    cpu.p.carry = sum > 255;
    cpu.a = r;
    cpu.p.overflow = ((a0 ^ r) & (operand ^ r) & 0x80) == 0x80;
    cpu.p.zero = set_zero(r);
    cpu.p.negative = set_negative(r);
}

//=====================================================
// official opcodes
//=====================================================

/// Add with carry, binary mode only (the RP2A03 has no decimal circuitry).
pub struct AdcNoDec {}

impl Instruction for AdcNoDec {
    open spec fn effect(c: Context) -> Context {
        adc_effect(c, c.ops.dl)
    }

    fn execute(cpu: &mut Context) {
        let dl = cpu.ops.dl;
        adc_exec(cpu, dl);
    }

    proof fn effect_frame(c: Context) {
    }
}

/// Portable add with carry.  On a variant with decimal circuitry the Decimal
/// flag would select BCD arithmetic; this core is for the RP2A03, which
/// executes in binary whatever the flag says.
pub struct Adc {}

impl Instruction for Adc {
    open spec fn effect(c: Context) -> Context {
        adc_effect(c, c.ops.dl)
    }

    fn execute(cpu: &mut Context) {
        let dl = cpu.ops.dl;
        adc_exec(cpu, dl);
    }

    proof fn effect_frame(c: Context) {
    }
}

/// Bitwise AND into A; Zero and Negative from the result.
pub struct And {}

impl Instruction for And {
    open spec fn effect(c: Context) -> Context {
        Context { a: c.a & c.ops.dl, p: with_nz(c.p, c.a & c.ops.dl), ..c }
    }

    fn execute(cpu: &mut Context) {
        let a = cpu.a & cpu.ops.dl;
        cpu.a = a;
        cpu.p.zero = set_zero(a);
        cpu.p.negative = set_negative(a);
    }

    proof fn effect_frame(c: Context) {
    }
}

/// Arithmetic shift left of the data latch; bit 7 becomes the new Carry.
pub struct Asl {}

impl Instruction for Asl {
    open spec fn effect(c: Context) -> Context {
        Context {
            ops: OpState { dl: double8(c.ops.dl), ..c.ops },
            p: FlagsRegister { carry: c.ops.dl & 0x80 == 0x80, ..with_nz(c.p, double8(c.ops.dl)) },
            ..c
        }
    }

    fn execute(cpu: &mut Context) {
        let new_carry = (cpu.ops.dl & 0x80) == 0x80;
        cpu.ops.dl = shift_left(cpu.ops.dl);
        cpu.p.carry = new_carry;
        cpu.p.zero = set_zero(cpu.ops.dl);
        cpu.p.negative = set_negative(cpu.ops.dl);
    }

    proof fn effect_frame(c: Context) {
    }
}

/// Arithmetic shift left of A; bit 7 becomes the new Carry.
pub struct AslAccum {}

impl Instruction for AslAccum {
    open spec fn effect(c: Context) -> Context {
        Context {
            a: double8(c.a),
            p: FlagsRegister { carry: c.a & 0x80 == 0x80, ..with_nz(c.p, double8(c.a)) },
            ..c
        }
    }

    fn execute(cpu: &mut Context) {
        let new_carry = (cpu.a & 0x80) == 0x80;
        cpu.a = shift_left(cpu.a);
        cpu.p.carry = new_carry;
        cpu.p.zero = set_zero(cpu.a);
        cpu.p.negative = set_negative(cpu.a);
    }

    proof fn effect_frame(c: Context) {
    }
}

/// Branch if Carry clear.
pub struct Bcc {}

impl Instruction for Bcc {
    open spec fn effect(c: Context) -> Context {
        branch_effect(c, !c.p.carry)
    }

    fn execute(cpu: &mut Context) {
        cpu.ops.branch_taken = !cpu.p.carry;
    }

    proof fn effect_frame(c: Context) {
    }
}

/// Branch if Carry set.
pub struct Bcs {}

impl Instruction for Bcs {
    open spec fn effect(c: Context) -> Context {
        branch_effect(c, c.p.carry)
    }

    fn execute(cpu: &mut Context) {
        cpu.ops.branch_taken = cpu.p.carry;
    }

    proof fn effect_frame(c: Context) {
    }
}

/// Branch if equal (Zero set).
pub struct Beq {}

impl Instruction for Beq {
    open spec fn effect(c: Context) -> Context {
        branch_effect(c, c.p.zero)
    }

    fn execute(cpu: &mut Context) {
        cpu.ops.branch_taken = cpu.p.zero;
    }

    proof fn effect_frame(c: Context) {
    }
}

/// Bit test: Zero from A AND DL, Negative from DL bit 7, Overflow from DL
/// bit 6.  A is not touched.
pub struct Bit {}

impl Instruction for Bit {
    open spec fn effect(c: Context) -> Context {
        Context {
            p: FlagsRegister {
                zero: is_zero(c.a & c.ops.dl),
                negative: c.ops.dl & 0x80 == 0x80,
                overflow: c.ops.dl & 0x40 == 0x40,
                ..c.p
            },
            ..c
        }
    }

    fn execute(cpu: &mut Context) {
        let x = cpu.a & cpu.ops.dl;
        cpu.p.negative = (cpu.ops.dl & 0x80) == 0x80;
        cpu.p.overflow = (cpu.ops.dl & 0x40) == 0x40;
        cpu.p.zero = set_zero(x);
    }

    proof fn effect_frame(c: Context) {
    }
}

/// Branch if minus (Negative set).
pub struct Bmi {}

impl Instruction for Bmi {
    open spec fn effect(c: Context) -> Context {
        branch_effect(c, c.p.negative)
    }

    fn execute(cpu: &mut Context) {
        cpu.ops.branch_taken = cpu.p.negative;
    }

    proof fn effect_frame(c: Context) {
    }
}

/// Branch if not equal (Zero clear).
pub struct Bne {}

impl Instruction for Bne {
    open spec fn effect(c: Context) -> Context {
        branch_effect(c, !c.p.zero)
    }

    fn execute(cpu: &mut Context) {
        cpu.ops.branch_taken = !cpu.p.zero;
    }

    proof fn effect_frame(c: Context) {
    }
}

/// Branch if plus (Negative clear).
pub struct Bpl {}

impl Instruction for Bpl {
    open spec fn effect(c: Context) -> Context {
        branch_effect(c, !c.p.negative)
    }

    fn execute(cpu: &mut Context) {
        cpu.ops.branch_taken = !cpu.p.negative;
    }

    proof fn effect_frame(c: Context) {
    }
}

/// Branch if Overflow clear.
pub struct Bvc {}

impl Instruction for Bvc {
    open spec fn effect(c: Context) -> Context {
        branch_effect(c, !c.p.overflow)
    }

    fn execute(cpu: &mut Context) {
        cpu.ops.branch_taken = !cpu.p.overflow;
    }

    proof fn effect_frame(c: Context) {
    }
}

/// Branch if Overflow set.
pub struct Bvs {}

impl Instruction for Bvs {
    open spec fn effect(c: Context) -> Context {
        branch_effect(c, c.p.overflow)
    }

    fn execute(cpu: &mut Context) {
        cpu.ops.branch_taken = cpu.p.overflow;
    }

    proof fn effect_frame(c: Context) {
    }
}

/// Clear Carry.
pub struct Clc {}

impl Instruction for Clc {
    open spec fn effect(c: Context) -> Context {
        Context { p: FlagsRegister { carry: false, ..c.p }, ..c }
    }

    fn execute(cpu: &mut Context) {
        cpu.p.carry = false;
    }

    proof fn effect_frame(c: Context) {
    }
}

/// Clear Decimal.
pub struct Cld {}

impl Instruction for Cld {
    open spec fn effect(c: Context) -> Context {
        Context { p: FlagsRegister { decimal: false, ..c.p }, ..c }
    }

    fn execute(cpu: &mut Context) {
        cpu.p.decimal = false;
    }

    proof fn effect_frame(c: Context) {
    }
}

/// Clear Interrupt-Disable.
pub struct Cli {}

impl Instruction for Cli {
    open spec fn effect(c: Context) -> Context {
        Context { p: FlagsRegister { interrupt_disable: false, ..c.p }, ..c }
    }

    fn execute(cpu: &mut Context) {
        cpu.p.interrupt_disable = false;
    }

    proof fn effect_frame(c: Context) {
    }
}

/// Clear Overflow.
pub struct Clv {}

impl Instruction for Clv {
    open spec fn effect(c: Context) -> Context {
        Context { p: FlagsRegister { overflow: false, ..c.p }, ..c }
    }

    fn execute(cpu: &mut Context) {
        cpu.p.overflow = false;
    }

    proof fn effect_frame(c: Context) {
    }
}

/// Compare A with the data latch; A is not mutated.
pub struct Cmp {}

impl Instruction for Cmp {
    open spec fn effect(c: Context) -> Context {
        Context { p: compare_flags(c.p, c.a, c.ops.dl), ..c }
    }

    fn execute(cpu: &mut Context) {
        cpu.p.carry = cpu.a >= cpu.ops.dl;
        cpu.p.zero = cpu.a == cpu.ops.dl;
        cpu.p.negative = set_negative(cpu.a.wrapping_sub(cpu.ops.dl));
    }

    proof fn effect_frame(c: Context) {
    }
}

/// Compare X with the data latch.
pub struct Cpx {}

impl Instruction for Cpx {
    open spec fn effect(c: Context) -> Context {
        Context { p: compare_flags(c.p, c.x, c.ops.dl), ..c }
    }

    fn execute(cpu: &mut Context) {
        cpu.p.carry = cpu.x >= cpu.ops.dl;
        cpu.p.zero = cpu.x == cpu.ops.dl;
        cpu.p.negative = set_negative(cpu.x.wrapping_sub(cpu.ops.dl));
    }

    proof fn effect_frame(c: Context) {
    }
}

/// Compare Y with the data latch.
pub struct Cpy {}

impl Instruction for Cpy {
    open spec fn effect(c: Context) -> Context {
        Context { p: compare_flags(c.p, c.y, c.ops.dl), ..c }
    }

    fn execute(cpu: &mut Context) {
        cpu.p.carry = cpu.y >= cpu.ops.dl;
        cpu.p.zero = cpu.y == cpu.ops.dl;
        cpu.p.negative = set_negative(cpu.y.wrapping_sub(cpu.ops.dl));
    }

    proof fn effect_frame(c: Context) {
    }
}

/// Decrement the data latch, wrapping modulo 256.
pub struct Dec {}

impl Instruction for Dec {
    open spec fn effect(c: Context) -> Context {
        Context {
            ops: OpState { dl: sub8(c.ops.dl, 1), ..c.ops },
            p: with_nz(c.p, sub8(c.ops.dl, 1)),
            ..c
        }
    }

    fn execute(cpu: &mut Context) {
        cpu.ops.dl = cpu.ops.dl.wrapping_sub(1);
        cpu.p.zero = set_zero(cpu.ops.dl);
        cpu.p.negative = set_negative(cpu.ops.dl);
    }

    proof fn effect_frame(c: Context) {
    }
}

/// Decrement X, wrapping modulo 256.
pub struct Dex {}

impl Instruction for Dex {
    open spec fn effect(c: Context) -> Context {
        Context { x: sub8(c.x, 1), p: with_nz(c.p, sub8(c.x, 1)), ..c }
    }

    fn execute(cpu: &mut Context) {
        cpu.x = cpu.x.wrapping_sub(1);
        cpu.p.zero = set_zero(cpu.x);
        cpu.p.negative = set_negative(cpu.x);
    }

    proof fn effect_frame(c: Context) {
    }
}

/// Decrement Y, wrapping modulo 256.
pub struct Dey {}

impl Instruction for Dey {
    open spec fn effect(c: Context) -> Context {
        Context { y: sub8(c.y, 1), p: with_nz(c.p, sub8(c.y, 1)), ..c }
    }

    fn execute(cpu: &mut Context) {
        cpu.y = cpu.y.wrapping_sub(1);
        cpu.p.zero = set_zero(cpu.y);
        cpu.p.negative = set_negative(cpu.y);
    }

    proof fn effect_frame(c: Context) {
    }
}

/// Bitwise exclusive-or into A.
pub struct Eor {}

impl Instruction for Eor {
    open spec fn effect(c: Context) -> Context {
        Context { a: c.a ^ c.ops.dl, p: with_nz(c.p, c.a ^ c.ops.dl), ..c }
    }

    fn execute(cpu: &mut Context) {
        cpu.a = cpu.a ^ cpu.ops.dl;
        cpu.p.zero = set_zero(cpu.a);
        cpu.p.negative = set_negative(cpu.a);
    }

    proof fn effect_frame(c: Context) {
    }
}

/// Increment the data latch, wrapping modulo 256.
pub struct Inc {}

impl Instruction for Inc {
    open spec fn effect(c: Context) -> Context {
        Context {
            ops: OpState { dl: add8(c.ops.dl, 1), ..c.ops },
            p: with_nz(c.p, add8(c.ops.dl, 1)),
            ..c
        }
    }

    fn execute(cpu: &mut Context) {
        cpu.ops.dl = cpu.ops.dl.wrapping_add(1);
        cpu.p.zero = set_zero(cpu.ops.dl);
        cpu.p.negative = set_negative(cpu.ops.dl);
    }

    proof fn effect_frame(c: Context) {
    }
}

/// Increment X, wrapping modulo 256.
pub struct Inx {}

impl Instruction for Inx {
    open spec fn effect(c: Context) -> Context {
        Context { x: add8(c.x, 1), p: with_nz(c.p, add8(c.x, 1)), ..c }
    }

    fn execute(cpu: &mut Context) {
        cpu.x = cpu.x.wrapping_add(1);
        cpu.p.zero = set_zero(cpu.x);
        cpu.p.negative = set_negative(cpu.x);
    }

    proof fn effect_frame(c: Context) {
    }
}

/// Increment Y, wrapping modulo 256.
pub struct Iny {}

impl Instruction for Iny {
    open spec fn effect(c: Context) -> Context {
        Context { y: add8(c.y, 1), p: with_nz(c.p, add8(c.y, 1)), ..c }
    }

    fn execute(cpu: &mut Context) {
        cpu.y = cpu.y.wrapping_add(1);
        cpu.p.zero = set_zero(cpu.y);
        cpu.p.negative = set_negative(cpu.y);
    }

    proof fn effect_frame(c: Context) {
    }
}

/// Load A from the data latch.
pub struct Lda {}

impl Instruction for Lda {
    open spec fn effect(c: Context) -> Context {
        Context { a: c.ops.dl, p: with_nz(c.p, c.ops.dl), ..c }
    }

    fn execute(cpu: &mut Context) {
        cpu.a = cpu.ops.dl;
        cpu.p.zero = set_zero(cpu.a);
        cpu.p.negative = set_negative(cpu.a);
    }

    proof fn effect_frame(c: Context) {
    }
}

/// Load X from the data latch.
pub struct Ldx {}

impl Instruction for Ldx {
    open spec fn effect(c: Context) -> Context {
        Context { x: c.ops.dl, p: with_nz(c.p, c.ops.dl), ..c }
    }

    fn execute(cpu: &mut Context) {
        cpu.x = cpu.ops.dl;
        cpu.p.zero = set_zero(cpu.x);
        cpu.p.negative = set_negative(cpu.x);
    }

    proof fn effect_frame(c: Context) {
    }
}

/// Load Y from the data latch.
pub struct Ldy {}

impl Instruction for Ldy {
    open spec fn effect(c: Context) -> Context {
        Context { y: c.ops.dl, p: with_nz(c.p, c.ops.dl), ..c }
    }

    fn execute(cpu: &mut Context) {
        cpu.y = cpu.ops.dl;
        cpu.p.zero = set_zero(cpu.y);
        cpu.p.negative = set_negative(cpu.y);
    }

    proof fn effect_frame(c: Context) {
    }
}

/// Logical shift right of the data latch: the new Carry is the old bit 0,
/// the new value is the old one halved, and Negative is always clear.
pub struct Lsr {}

impl Instruction for Lsr {
    open spec fn effect(c: Context) -> Context {
        Context {
            ops: OpState { dl: c.ops.dl / 2, ..c.ops },
            p: FlagsRegister { carry: c.ops.dl & 0x01 == 0x01, ..with_nz(c.p, c.ops.dl / 2) },
            ..c
        }
    }

    fn execute(cpu: &mut Context) {
        let out_carry = (cpu.ops.dl & 0x01) == 0x01;
        cpu.ops.dl = cpu.ops.dl / 2;
        cpu.p.carry = out_carry;
        cpu.p.zero = set_zero(cpu.ops.dl);
        cpu.p.negative = set_negative(cpu.ops.dl);
    }

    proof fn effect_frame(c: Context) {
    }
}

/// Logical shift right of A.
pub struct LsrAccum {}

impl Instruction for LsrAccum {
    open spec fn effect(c: Context) -> Context {
        Context {
            a: c.a / 2,
            p: FlagsRegister { carry: c.a & 0x01 == 0x01, ..with_nz(c.p, c.a / 2) },
            ..c
        }
    }

    fn execute(cpu: &mut Context) {
        let out_carry = (cpu.a & 0x01) == 0x01;
        cpu.a = cpu.a / 2;
        cpu.p.carry = out_carry;
        cpu.p.zero = set_zero(cpu.a);
        cpu.p.negative = set_negative(cpu.a);
    }

    proof fn effect_frame(c: Context) {
    }
}

/// No operation.
pub struct Nop {}

impl Instruction for Nop {
    open spec fn effect(c: Context) -> Context {
        c
    }

    fn execute(cpu: &mut Context) {
        let _ = cpu;
    }

    proof fn effect_frame(c: Context) {
    }
}

/// Bitwise OR into A.
pub struct Ora {}

impl Instruction for Ora {
    open spec fn effect(c: Context) -> Context {
        Context { a: c.a | c.ops.dl, p: with_nz(c.p, c.a | c.ops.dl), ..c }
    }

    fn execute(cpu: &mut Context) {
        cpu.a = cpu.a | cpu.ops.dl;
        cpu.p.zero = set_zero(cpu.a);
        cpu.p.negative = set_negative(cpu.a);
    }

    proof fn effect_frame(c: Context) {
    }
}

/// The value rotated left through the carry: the old Carry enters bit 0.
pub open spec fn rol_val(x: u8, carry: bool) -> u8 {
    double8(x) | (if carry {
        1u8
    } else {
        0u8
    })
}

/// The value rotated right through the carry: the old Carry enters bit 7.
pub open spec fn ror_val(x: u8, carry: bool) -> u8 {
    (x / 2) | (if carry {
        0x80u8
    } else {
        0u8
    })
}

/// Rotate the data latch left through the Carry.
pub struct Rol {}

impl Instruction for Rol {
    open spec fn effect(c: Context) -> Context {
        Context {
            ops: OpState { dl: rol_val(c.ops.dl, c.p.carry), ..c.ops },
            p: FlagsRegister {
                carry: c.ops.dl & 0x80 == 0x80,
                ..with_nz(c.p, rol_val(c.ops.dl, c.p.carry))
            },
            ..c
        }
    }

    fn execute(cpu: &mut Context) {
        let new_carry = (cpu.ops.dl & 0x80) == 0x80;
        cpu.ops.dl = shift_left(cpu.ops.dl) | (if cpu.p.carry {
            1
        } else {
            0
        });
        cpu.p.carry = new_carry;
        cpu.p.negative = set_negative(cpu.ops.dl);
        cpu.p.zero = set_zero(cpu.ops.dl);
    }

    proof fn effect_frame(c: Context) {
    }
}

/// Rotate A left through the Carry.
pub struct RolAccum {}

impl Instruction for RolAccum {
    open spec fn effect(c: Context) -> Context {
        Context {
            a: rol_val(c.a, c.p.carry),
            p: FlagsRegister { carry: c.a & 0x80 == 0x80, ..with_nz(c.p, rol_val(c.a, c.p.carry)) },
            ..c
        }
    }

    fn execute(cpu: &mut Context) {
        let new_carry = (cpu.a & 0x80) == 0x80;
        cpu.a = shift_left(cpu.a) | (if cpu.p.carry {
            1
        } else {
            0
        });
        cpu.p.carry = new_carry;
        cpu.p.negative = set_negative(cpu.a);
        cpu.p.zero = set_zero(cpu.a);
    }

    proof fn effect_frame(c: Context) {
    }
}

/// Rotate the data latch right through the Carry.
pub struct Ror {}

impl Instruction for Ror {
    open spec fn effect(c: Context) -> Context {
        Context {
            ops: OpState { dl: ror_val(c.ops.dl, c.p.carry), ..c.ops },
            p: FlagsRegister {
                carry: c.ops.dl & 0x01 == 0x01,
                ..with_nz(c.p, ror_val(c.ops.dl, c.p.carry))
            },
            ..c
        }
    }

    fn execute(cpu: &mut Context) {
        let new_carry = (cpu.ops.dl & 0x01) == 0x01;
        cpu.ops.dl = (cpu.ops.dl / 2) | (if cpu.p.carry {
            0x80
        } else {
            0
        });
        cpu.p.carry = new_carry;
        cpu.p.zero = set_zero(cpu.ops.dl);
        cpu.p.negative = set_negative(cpu.ops.dl);
    }

    proof fn effect_frame(c: Context) {
    }
}

/// Rotate A right through the Carry.
pub struct RorAccum {}

impl Instruction for RorAccum {
    open spec fn effect(c: Context) -> Context {
        Context {
            a: ror_val(c.a, c.p.carry),
            p: FlagsRegister { carry: c.a & 0x01 == 0x01, ..with_nz(c.p, ror_val(c.a, c.p.carry)) },
            ..c
        }
    }

    fn execute(cpu: &mut Context) {
        let new_carry = (cpu.a & 0x01) == 0x01;
        cpu.a = (cpu.a / 2) | (if cpu.p.carry {
            0x80
        } else {
            0
        });
        cpu.p.carry = new_carry;
        cpu.p.zero = set_zero(cpu.a);
        cpu.p.negative = set_negative(cpu.a);
    }

    proof fn effect_frame(c: Context) {
    }
}

/// Subtract with borrow, binary mode only: identical to add-with-carry of
/// the operand's complement.
pub struct SbcNoDec {}

impl Instruction for SbcNoDec {
    open spec fn effect(c: Context) -> Context {
        adc_effect(c, c.ops.dl ^ 0xFF)
    }

    fn execute(cpu: &mut Context) {
        let dl = cpu.ops.dl ^ 0xFF;
        adc_exec(cpu, dl);
    }

    proof fn effect_frame(c: Context) {
    }
}

/// Portable subtract with borrow; on the RP2A03 the Decimal flag selects
/// nothing, so this executes in binary like [`SbcNoDec`].
pub struct Sbc {}

impl Instruction for Sbc {
    open spec fn effect(c: Context) -> Context {
        adc_effect(c, c.ops.dl ^ 0xFF)
    }

    fn execute(cpu: &mut Context) {
        let dl = cpu.ops.dl ^ 0xFF;
        adc_exec(cpu, dl);
    }

    proof fn effect_frame(c: Context) {
    }
}

/// Set Carry.
pub struct Sec {}

impl Instruction for Sec {
    open spec fn effect(c: Context) -> Context {
        Context { p: FlagsRegister { carry: true, ..c.p }, ..c }
    }

    fn execute(cpu: &mut Context) {
        cpu.p.carry = true;
    }

    proof fn effect_frame(c: Context) {
    }
}

/// Set Decimal.
pub struct Sed {}

impl Instruction for Sed {
    open spec fn effect(c: Context) -> Context {
        Context { p: FlagsRegister { decimal: true, ..c.p }, ..c }
    }

    fn execute(cpu: &mut Context) {
        cpu.p.decimal = true;
    }

    proof fn effect_frame(c: Context) {
    }
}

/// Set Interrupt-Disable.
pub struct Sei {}

impl Instruction for Sei {
    open spec fn effect(c: Context) -> Context {
        Context { p: FlagsRegister { interrupt_disable: true, ..c.p }, ..c }
    }

    fn execute(cpu: &mut Context) {
        cpu.p.interrupt_disable = true;
    }

    proof fn effect_frame(c: Context) {
    }
}

/// Store A: the value to be written is staged in the data latch.
pub struct Sta {}

impl Instruction for Sta {
    open spec fn effect(c: Context) -> Context {
        Context { ops: OpState { dl: c.a, ..c.ops }, ..c }
    }

    fn execute(cpu: &mut Context) {
        cpu.ops.dl = cpu.a;
    }

    proof fn effect_frame(c: Context) {
    }
}

/// Store X: the value to be written is staged in the data latch.
pub struct Stx {}

impl Instruction for Stx {
    open spec fn effect(c: Context) -> Context {
        Context { ops: OpState { dl: c.x, ..c.ops }, ..c }
    }

    fn execute(cpu: &mut Context) {
        cpu.ops.dl = cpu.x;
    }

    proof fn effect_frame(c: Context) {
    }
}

/// Store Y: the value to be written is staged in the data latch.
pub struct Sty {}

impl Instruction for Sty {
    open spec fn effect(c: Context) -> Context {
        Context { ops: OpState { dl: c.y, ..c.ops }, ..c }
    }

    fn execute(cpu: &mut Context) {
        cpu.ops.dl = cpu.y;
    }

    proof fn effect_frame(c: Context) {
    }
}

/// Transfer A to X.
pub struct Tax {}

impl Instruction for Tax {
    open spec fn effect(c: Context) -> Context {
        Context { x: c.a, p: with_nz(c.p, c.a), ..c }
    }

    fn execute(cpu: &mut Context) {
        cpu.x = cpu.a;
        cpu.p.zero = set_zero(cpu.x);
        cpu.p.negative = set_negative(cpu.x);
    }

    proof fn effect_frame(c: Context) {
    }
}

/// Transfer A to Y.
pub struct Tay {}

impl Instruction for Tay {
    open spec fn effect(c: Context) -> Context {
        Context { y: c.a, p: with_nz(c.p, c.a), ..c }
    }

    fn execute(cpu: &mut Context) {
        cpu.y = cpu.a;
        cpu.p.zero = set_zero(cpu.y);
        cpu.p.negative = set_negative(cpu.y);
    }

    proof fn effect_frame(c: Context) {
    }
}

/// Transfer SP to X.
pub struct Tsx {}

impl Instruction for Tsx {
    open spec fn effect(c: Context) -> Context {
        Context { x: c.sp, p: with_nz(c.p, c.sp), ..c }
    }

    fn execute(cpu: &mut Context) {
        cpu.x = cpu.sp;
        cpu.p.zero = set_zero(cpu.x);
        cpu.p.negative = set_negative(cpu.x);
    }

    proof fn effect_frame(c: Context) {
    }
}

/// Transfer X to A.
pub struct Txa {}

impl Instruction for Txa {
    open spec fn effect(c: Context) -> Context {
        Context { a: c.x, p: with_nz(c.p, c.x), ..c }
    }

    fn execute(cpu: &mut Context) {
        cpu.a = cpu.x;
        cpu.p.zero = set_zero(cpu.a);
        cpu.p.negative = set_negative(cpu.a);
    }

    proof fn effect_frame(c: Context) {
    }
}

/// Transfer X to SP; the only transfer that does not touch the flags.
pub struct Txs {}

impl Instruction for Txs {
    open spec fn effect(c: Context) -> Context {
        Context { sp: c.x, ..c }
    }

    fn execute(cpu: &mut Context) {
        cpu.sp = cpu.x;
    }

    proof fn effect_frame(c: Context) {
    }
}

/// Transfer Y to A.
pub struct Tya {}

impl Instruction for Tya {
    open spec fn effect(c: Context) -> Context {
        Context { a: c.y, p: with_nz(c.p, c.y), ..c }
    }

    fn execute(cpu: &mut Context) {
        cpu.a = cpu.y;
        cpu.p.zero = set_zero(cpu.a);
        cpu.p.negative = set_negative(cpu.a);
    }

    proof fn effect_frame(c: Context) {
    }
}

//=====================================================
// undocumented opcodes
//=====================================================

/// AND the immediate into A, then copy the Negative flag into Carry
/// (also cited as ANC).
pub struct Aac {}

impl Instruction for Aac {
    open spec fn effect(c: Context) -> Context {
        Context {
            a: c.a & c.ops.dl,
            p: FlagsRegister {
                carry: is_negative(c.a & c.ops.dl),
                ..with_nz(c.p, c.a & c.ops.dl)
            },
            ..c
        }
    }

    fn execute(cpu: &mut Context) {
        cpu.a = cpu.a & cpu.ops.dl;
        cpu.p.zero = set_zero(cpu.a);
        cpu.p.negative = set_negative(cpu.a);
        cpu.p.carry = cpu.p.negative;
    }

    proof fn effect_frame(c: Context) {
    }
}

/// Stage A AND X for a store (also cited as SAX); no flags are touched.
pub struct Aax {}

impl Instruction for Aax {
    open spec fn effect(c: Context) -> Context {
        Context { ops: OpState { dl: c.a & c.x, ..c.ops }, ..c }
    }

    fn execute(cpu: &mut Context) {
        cpu.ops.dl = cpu.a & cpu.x;
    }

    proof fn effect_frame(c: Context) {
    }
}

/// AND the immediate into A, rotate A right through the Carry, then set
/// Carry from bit 6 and Overflow from bit 6 xor bit 5 of the result.
pub struct Arr {}

impl Instruction for Arr {
    open spec fn effect(c: Context) -> Context {
        let r = ror_val(c.a & c.ops.dl, c.p.carry);
        Context {
            a: r,
            p: FlagsRegister {
                carry: r & 0x40 == 0x40,
                overflow: (r & 0x40 == 0x40) != (r & 0x20 == 0x20),
                ..with_nz(c.p, r)
            },
            ..c
        }
    }

    fn execute(cpu: &mut Context) {
        let masked = cpu.a & cpu.ops.dl;
        let r = (masked / 2) | (if cpu.p.carry {
            0x80
        } else {
            0
        });
        cpu.a = r;
        cpu.p.carry = (r & 0x40) == 0x40;
        cpu.p.overflow = ((r & 0x40) == 0x40) != ((r & 0x20) == 0x20);
        cpu.p.zero = set_zero(r);
        cpu.p.negative = set_negative(r);
    }

    proof fn effect_frame(c: Context) {
    }
}

/// AND the immediate into A, then shift A right; the Carry comes from
/// bit 0 of the masked value (also cited as ALR).
pub struct Asr {}

impl Instruction for Asr {
    open spec fn effect(c: Context) -> Context {
        let masked = c.a & c.ops.dl;
        Context {
            a: masked / 2,
            p: FlagsRegister { carry: masked & 0x01 == 0x01, ..with_nz(c.p, masked / 2) },
            ..c
        }
    }

    fn execute(cpu: &mut Context) {
        let masked = cpu.a & cpu.ops.dl;
        let out_carry = (masked & 0x01) == 0x01;
        cpu.a = masked / 2;
        cpu.p.carry = out_carry;
        cpu.p.zero = set_zero(cpu.a);
        cpu.p.negative = set_negative(cpu.a);
    }

    proof fn effect_frame(c: Context) {
    }
}

/// AND the immediate into A and copy the result to X (also cited as LXA).
pub struct Atx {}

impl Instruction for Atx {
    open spec fn effect(c: Context) -> Context {
        Context { a: c.a & c.ops.dl, x: c.a & c.ops.dl, p: with_nz(c.p, c.a & c.ops.dl), ..c }
    }

    fn execute(cpu: &mut Context) {
        cpu.a = cpu.a & cpu.ops.dl;
        cpu.x = cpu.a;
        cpu.p.zero = set_zero(cpu.a);
        cpu.p.negative = set_negative(cpu.a);
    }

    proof fn effect_frame(c: Context) {
    }
}

/// Stage A AND X AND (high address byte + 1) for a store (also cited as
/// AHX); no flags are touched.
pub struct Axa {}

impl Instruction for Axa {
    open spec fn effect(c: Context) -> Context {
        Context { ops: OpState { dl: c.a & c.x & add8(c.ops.adh, 1), ..c.ops }, ..c }
    }

    fn execute(cpu: &mut Context) {
        cpu.ops.dl = cpu.a & cpu.x & cpu.ops.adh.wrapping_add(1);
    }

    proof fn effect_frame(c: Context) {
    }
}

/// X becomes (A AND X) minus the immediate, with compare-style flags
/// (also cited as SBX).
pub struct Axs {}

impl Instruction for Axs {
    open spec fn effect(c: Context) -> Context {
        Context {
            x: sub8(c.a & c.x, c.ops.dl),
            p: compare_flags(c.p, c.a & c.x, c.ops.dl),
            ..c
        }
    }

    fn execute(cpu: &mut Context) {
        let masked = cpu.a & cpu.x;
        cpu.x = masked.wrapping_sub(cpu.ops.dl);
        cpu.p.carry = masked >= cpu.ops.dl;
        cpu.p.zero = masked == cpu.ops.dl;
        cpu.p.negative = set_negative(cpu.x);
    }

    proof fn effect_frame(c: Context) {
    }
}

/// Decrement the data latch, then compare A with it.
pub struct Dcp {}

impl Instruction for Dcp {
    open spec fn effect(c: Context) -> Context {
        Context {
            ops: OpState { dl: sub8(c.ops.dl, 1), ..c.ops },
            p: compare_flags(c.p, c.a, sub8(c.ops.dl, 1)),
            ..c
        }
    }

    fn execute(cpu: &mut Context) {
        cpu.ops.dl = cpu.ops.dl.wrapping_sub(1);
        cpu.p.carry = cpu.a >= cpu.ops.dl;
        cpu.p.zero = cpu.a == cpu.ops.dl;
        cpu.p.negative = set_negative(cpu.a.wrapping_sub(cpu.ops.dl));
    }

    proof fn effect_frame(c: Context) {
    }
}

/// Increment the data latch, then subtract it from A with borrow.
pub struct Isc {}

impl Instruction for Isc {
    open spec fn effect(c: Context) -> Context {
        let d2 = add8(c.ops.dl, 1);
        adc_effect(Context { ops: OpState { dl: d2, ..c.ops }, ..c }, d2 ^ 0xFF)
    }

    fn execute(cpu: &mut Context) {
        cpu.ops.dl = cpu.ops.dl.wrapping_add(1);
        let dl = cpu.ops.dl ^ 0xFF;
        adc_exec(cpu, dl);
    }

    proof fn effect_frame(c: Context) {
    }
}

/// Halt: rewind the program counter by one each cycle, so the processor
/// fetches the same opcode forever; only reset recovers.
pub struct Kil {}

impl Instruction for Kil {
    open spec fn effect(c: Context) -> Context {
        let w = pc_word(c.pc);
        let back: u16 = if w == 0 {
            0xFFFFu16
        } else {
            (w - 1) as u16
        };
        Context { pc: (ProgramCounter { pcl: word_low(back), pch: word_high(back) }), ..c }
    }

    fn execute(cpu: &mut Context) {
        let addr = u16::from(cpu.pc);
        let back = addr.wrapping_sub(1);
        cpu.pc = ProgramCounter::from(back);
    }

    proof fn effect_frame(c: Context) {
    }
}

/// A, X and SP all become SP AND the data latch (also cited as LAS).
pub struct Lar {}

impl Instruction for Lar {
    open spec fn effect(c: Context) -> Context {
        let r = c.sp & c.ops.dl;
        Context { a: r, x: r, sp: r, p: with_nz(c.p, r), ..c }
    }

    fn execute(cpu: &mut Context) {
        cpu.a = cpu.sp & cpu.ops.dl;
        cpu.x = cpu.a;
        cpu.sp = cpu.a;
        cpu.p.zero = set_zero(cpu.a);
        cpu.p.negative = set_negative(cpu.a);
    }

    proof fn effect_frame(c: Context) {
    }
}

/// Load A and X together from the data latch.
pub struct Lax {}

impl Instruction for Lax {
    open spec fn effect(c: Context) -> Context {
        Context { a: c.ops.dl, x: c.ops.dl, p: with_nz(c.p, c.ops.dl), ..c }
    }

    fn execute(cpu: &mut Context) {
        cpu.a = cpu.ops.dl;
        cpu.x = cpu.ops.dl;
        cpu.p.zero = set_zero(cpu.a);
        cpu.p.negative = set_negative(cpu.a);
    }

    proof fn effect_frame(c: Context) {
    }
}

/// Rotate the data latch left through the Carry, then AND it into A.
pub struct Rla {}

impl Instruction for Rla {
    open spec fn effect(c: Context) -> Context {
        let d2 = rol_val(c.ops.dl, c.p.carry);
        Context {
            a: c.a & d2,
            ops: OpState { dl: d2, ..c.ops },
            p: FlagsRegister { carry: c.ops.dl & 0x80 == 0x80, ..with_nz(c.p, c.a & d2) },
            ..c
        }
    }

    fn execute(cpu: &mut Context) {
        let new_carry = (cpu.ops.dl & 0x80) == 0x80;
        cpu.ops.dl = shift_left(cpu.ops.dl) | (if cpu.p.carry {
            1
        } else {
            0
        });
        cpu.p.carry = new_carry;
        cpu.a = cpu.a & cpu.ops.dl;
        cpu.p.zero = set_zero(cpu.a);
        cpu.p.negative = set_negative(cpu.a);
    }

    proof fn effect_frame(c: Context) {
    }
}

/// Rotate the data latch right through the Carry, then add it to A with
/// the carry that fell out of the rotation.
pub struct Rra {}

impl Instruction for Rra {
    open spec fn effect(c: Context) -> Context {
        let d2 = ror_val(c.ops.dl, c.p.carry);
        let mid = Context {
            ops: OpState { dl: d2, ..c.ops },
            p: FlagsRegister { carry: c.ops.dl & 0x01 == 0x01, ..c.p },
            ..c
        };
        adc_effect(mid, d2)
    }

    fn execute(cpu: &mut Context) {
        let new_carry = (cpu.ops.dl & 0x01) == 0x01;
        cpu.ops.dl = (cpu.ops.dl / 2) | (if cpu.p.carry {
            0x80
        } else {
            0
        });
        cpu.p.carry = new_carry;
        let dl = cpu.ops.dl;
        adc_exec(cpu, dl);
    }

    proof fn effect_frame(c: Context) {
    }
}

/// Shift the data latch left, then OR it into A.
pub struct Slo {}

impl Instruction for Slo {
    open spec fn effect(c: Context) -> Context {
        let d2 = double8(c.ops.dl);
        Context {
            a: c.a | d2,
            ops: OpState { dl: d2, ..c.ops },
            p: FlagsRegister { carry: c.ops.dl & 0x80 == 0x80, ..with_nz(c.p, c.a | d2) },
            ..c
        }
    }

    fn execute(cpu: &mut Context) {
        let new_carry = (cpu.ops.dl & 0x80) == 0x80;
        cpu.ops.dl = shift_left(cpu.ops.dl);
        cpu.p.carry = new_carry;
        cpu.a = cpu.a | cpu.ops.dl;
        cpu.p.zero = set_zero(cpu.a);
        cpu.p.negative = set_negative(cpu.a);
    }

    proof fn effect_frame(c: Context) {
    }
}

/// Shift the data latch right, then exclusive-or it into A.
pub struct Sre {}

impl Instruction for Sre {
    open spec fn effect(c: Context) -> Context {
        let d2 = c.ops.dl / 2;
        Context {
            a: c.a ^ d2,
            ops: OpState { dl: d2, ..c.ops },
            p: FlagsRegister { carry: c.ops.dl & 0x01 == 0x01, ..with_nz(c.p, c.a ^ d2) },
            ..c
        }
    }

    fn execute(cpu: &mut Context) {
        let out_carry = (cpu.ops.dl & 0x01) == 0x01;
        cpu.ops.dl = cpu.ops.dl / 2;
        cpu.p.carry = out_carry;
        cpu.a = cpu.a ^ cpu.ops.dl;
        cpu.p.zero = set_zero(cpu.a);
        cpu.p.negative = set_negative(cpu.a);
    }

    proof fn effect_frame(c: Context) {
    }
}

/// Stage X AND (high address byte + 1) for a store (also cited as SHX);
/// no flags are touched.
pub struct Sxa {}

impl Instruction for Sxa {
    open spec fn effect(c: Context) -> Context {
        Context { ops: OpState { dl: c.x & add8(c.ops.adh, 1), ..c.ops }, ..c }
    }

    fn execute(cpu: &mut Context) {
        cpu.ops.dl = cpu.x & cpu.ops.adh.wrapping_add(1);
    }

    proof fn effect_frame(c: Context) {
    }
}

/// Stage Y AND (high address byte + 1) for a store (also cited as SHY);
/// no flags are touched.
pub struct Sya {}

impl Instruction for Sya {
    open spec fn effect(c: Context) -> Context {
        Context { ops: OpState { dl: c.y & add8(c.ops.adh, 1), ..c.ops }, ..c }
    }

    fn execute(cpu: &mut Context) {
        cpu.ops.dl = cpu.y & cpu.ops.adh.wrapping_add(1);
    }

    proof fn effect_frame(c: Context) {
    }
}

/// A becomes X AND the immediate.  Real silicon mixes in an unstable
/// "magic" constant; this core uses the variant where the constant is 0xFF.
pub struct Xaa {}

impl Instruction for Xaa {
    open spec fn effect(c: Context) -> Context {
        Context { a: c.x & c.ops.dl, p: with_nz(c.p, c.x & c.ops.dl), ..c }
    }

    fn execute(cpu: &mut Context) {
        cpu.a = cpu.x & cpu.ops.dl;
        cpu.p.zero = set_zero(cpu.a);
        cpu.p.negative = set_negative(cpu.a);
    }

    proof fn effect_frame(c: Context) {
    }
}

/// SP becomes A AND X, and SP AND (high address byte + 1) is staged for a
/// store (also cited as TAS); no flags are touched.
pub struct Xas {}

impl Instruction for Xas {
    open spec fn effect(c: Context) -> Context {
        let sp2 = c.a & c.x;
        Context { sp: sp2, ops: OpState { dl: sp2 & add8(c.ops.adh, 1), ..c.ops }, ..c }
    }

    fn execute(cpu: &mut Context) {
        cpu.sp = cpu.a & cpu.x;
        cpu.ops.dl = cpu.sp & cpu.ops.adh.wrapping_add(1);
    }

    proof fn effect_frame(c: Context) {
    }
}

/// The add-with-carry identity: the new A and the carry out together encode
/// the exact sum of the old A, the operand and the carry in, for every
/// A, operand and carry.
pub proof fn lemma_adc_sum_identity(c: Context, operand: u8)
    ensures
        ({
            let r = adc_effect(c, operand);
            r.a + 256 * (if r.p.carry {
                1int
            } else {
                0int
            }) == c.a + operand + (if c.p.carry {
                1int
            } else {
                0int
            })
        }),
{
}

/// Subtract-with-borrow is add-with-carry of the complemented operand: for
/// every context, SBC leaves exactly the accumulator and flags that ADC
/// leaves when handed the operand with all bits inverted.
pub proof fn lemma_sbc_is_adc_of_complement(c: Context)
    ensures
        SbcNoDec::effect(c).a == AdcNoDec::effect(
            (Context { ops: (OpState { dl: c.ops.dl ^ 0xFF, ..c.ops }), ..c }),
        ).a,
        SbcNoDec::effect(c).p == AdcNoDec::effect(
            (Context { ops: (OpState { dl: c.ops.dl ^ 0xFF, ..c.ops }), ..c }),
        ).p,
{
}

/// Logical shift right: for every data latch value, the carry out is the
/// old bit 0, the new value is the old one shifted right a bit, and the
/// Negative flag always comes out clear.
pub proof fn lemma_lsr_shifts_right(c: Context)
    ensures
        Lsr::effect(c).p.carry == (c.ops.dl & 0x01 == 0x01),
        Lsr::effect(c).ops.dl == c.ops.dl / 2,
        Lsr::effect(c).ops.dl == c.ops.dl >> 1u8,
        !Lsr::effect(c).p.negative,
{
    let d = c.ops.dl;
    assert(d / 2 & 0x80 != 0x80 && d / 2 == d >> 1u8) by (bit_vector);
}

} // verus!
