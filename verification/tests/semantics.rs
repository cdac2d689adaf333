use mos6502::context::Context;
use mos6502::instructions::{
    Aac, AdcNoDec, Arr, Asl, AslAccum, Asr, Atx, Axs, Beq, Bit, Cmp, Dcp, Dex, Eor, Inc,
    Instruction, Isc, Kil, Lar, Lax, Lsr, Ora, Rla, Rol, Ror, Rra, SbcNoDec, Slo, Sre, Sta, Tax,
    Txs, Xaa,
};

fn fresh() -> Context {
    Context::new()
}

#[test]
fn adc_exact_sum_and_carry() {
    // 0xC8 + 0x64 + 1 = 0x12D: A' = 0x2D, carry out set
    let mut c = fresh();
    c.a = 0xC8;
    c.ops.dl = 0x64;
    c.p.carry = true;
    AdcNoDec::execute(&mut c);
    assert_eq!(c.a, 0x2D);
    assert!(c.p.carry);
    assert!(!c.p.zero);
    assert!(!c.p.negative);
    assert!(!c.p.overflow);
}

#[test]
fn adc_signed_overflow() {
    // 0x50 + 0x50 overflows signed arithmetic: A' = 0xA0, V and N set
    let mut c = fresh();
    c.a = 0x50;
    c.ops.dl = 0x50;
    c.p.carry = false;
    AdcNoDec::execute(&mut c);
    assert_eq!(c.a, 0xA0);
    assert!(!c.p.carry);
    assert!(c.p.overflow);
    assert!(c.p.negative);
    assert!(!c.p.zero);
}

#[test]
fn adc_sum_identity_concrete() {
    // A' + 256*C' always equals A + DL + C; spot-check a carrying case
    let mut c = fresh();
    c.a = 0xFF;
    c.ops.dl = 0xFF;
    c.p.carry = true;
    AdcNoDec::execute(&mut c);
    let carry_out: u32 = if c.p.carry { 1 } else { 0 };
    assert_eq!(c.a as u32 + 256 * carry_out, 0xFF + 0xFF + 1);
}

#[test]
fn sbc_equals_adc_of_complement() {
    let mut s = fresh();
    s.a = 0x42;
    s.ops.dl = 0x17;
    s.p.carry = true;
    let mut a = s.clone();
    a.ops.dl = 0x17 ^ 0xFF;
    SbcNoDec::execute(&mut s);
    AdcNoDec::execute(&mut a);
    assert_eq!(s.a, a.a);
    assert_eq!(s.p, a.p);
    assert_eq!(s.a, 0x42 - 0x17);
    assert!(s.p.carry);
}

#[test]
fn sbc_with_borrow() {
    // 0x10 - 0x20 with carry set: A' = 0xF0, borrow (carry clear), N set
    let mut c = fresh();
    c.a = 0x10;
    c.ops.dl = 0x20;
    c.p.carry = true;
    SbcNoDec::execute(&mut c);
    assert_eq!(c.a, 0xF0);
    assert!(!c.p.carry);
    assert!(c.p.negative);
}

#[test]
fn lsr_carry_from_bit_0() {
    let mut c = fresh();
    c.ops.dl = 0x81;
    c.p.negative = true;
    Lsr::execute(&mut c);
    assert_eq!(c.ops.dl, 0x40);
    assert!(c.p.carry);
    assert!(!c.p.negative);
    assert!(!c.p.zero);

    let mut d = fresh();
    d.ops.dl = 0x01;
    Lsr::execute(&mut d);
    assert_eq!(d.ops.dl, 0x00);
    assert!(d.p.carry);
    assert!(d.p.zero);
    assert!(!d.p.negative);
}

#[test]
fn shifts_and_rotates() {
    let mut c = fresh();
    c.ops.dl = 0xC1;
    Asl::execute(&mut c);
    assert_eq!(c.ops.dl, 0x82);
    assert!(c.p.carry);
    assert!(c.p.negative);

    let mut r = fresh();
    r.ops.dl = 0x80;
    r.p.carry = true;
    Rol::execute(&mut r);
    assert_eq!(r.ops.dl, 0x01);
    assert!(r.p.carry);

    let mut q = fresh();
    q.ops.dl = 0x01;
    q.p.carry = true;
    Ror::execute(&mut q);
    assert_eq!(q.ops.dl, 0x80);
    assert!(q.p.carry);
    assert!(q.p.negative);

    let mut a = fresh();
    a.a = 0x40;
    AslAccum::execute(&mut a);
    assert_eq!(a.a, 0x80);
    assert!(!a.p.carry);
    assert!(a.p.negative);
}

#[test]
fn compare_sets_borrowless_carry() {
    let mut c = fresh();
    c.a = 0x30;
    c.ops.dl = 0x30;
    Cmp::execute(&mut c);
    assert!(c.p.carry);
    assert!(c.p.zero);
    assert!(!c.p.negative);

    let mut d = fresh();
    d.a = 0x10;
    d.ops.dl = 0x20;
    Cmp::execute(&mut d);
    assert!(!d.p.carry);
    assert!(!d.p.zero);
    assert!(d.p.negative);
    assert_eq!(d.a, 0x10);
}

#[test]
fn bit_reads_operand_bits() {
    let mut c = fresh();
    c.a = 0x0F;
    c.ops.dl = 0xC0;
    Bit::execute(&mut c);
    assert!(c.p.zero);
    assert!(c.p.negative);
    assert!(c.p.overflow);
    assert_eq!(c.a, 0x0F);
}

#[test]
fn logic_and_loads() {
    let mut c = fresh();
    c.a = 0xF0;
    c.ops.dl = 0x0F;
    Ora::execute(&mut c);
    assert_eq!(c.a, 0xFF);
    assert!(c.p.negative);

    let mut e = fresh();
    e.a = 0xFF;
    e.ops.dl = 0xFF;
    Eor::execute(&mut e);
    assert_eq!(e.a, 0x00);
    assert!(e.p.zero);

    let mut l = fresh();
    l.ops.dl = 0x99;
    Lax::execute(&mut l);
    assert_eq!(l.a, 0x99);
    assert_eq!(l.x, 0x99);
    assert!(l.p.negative);
}

#[test]
fn increments_decrements_wrap() {
    let mut c = fresh();
    c.ops.dl = 0xFF;
    Inc::execute(&mut c);
    assert_eq!(c.ops.dl, 0x00);
    assert!(c.p.zero);

    let mut d = fresh();
    d.x = 0x00;
    Dex::execute(&mut d);
    assert_eq!(d.x, 0xFF);
    assert!(d.p.negative);
}

#[test]
fn transfers_and_stores() {
    let mut c = fresh();
    c.a = 0x00;
    Tax::execute(&mut c);
    assert_eq!(c.x, 0);
    assert!(c.p.zero);

    // TXS moves X to SP without touching the flags
    let mut t = fresh();
    t.x = 0x80;
    t.p.zero = true;
    Txs::execute(&mut t);
    assert_eq!(t.sp, 0x80);
    assert!(t.p.zero);
    assert!(!t.p.negative);

    // a store stages its register in the data latch
    let mut s = fresh();
    s.a = 0x77;
    s.ops.dl = 0;
    Sta::execute(&mut s);
    assert_eq!(s.ops.dl, 0x77);
}

#[test]
fn branch_decision_only_sets_latch() {
    let mut c = fresh();
    c.p.zero = true;
    Beq::execute(&mut c);
    assert!(c.ops.branch_taken);
    let mut d = fresh();
    d.p.zero = false;
    Beq::execute(&mut d);
    assert!(!d.ops.branch_taken);
}

#[test]
fn undocumented_combined_ops() {
    // SLO: shift left then OR into A
    let mut c = fresh();
    c.a = 0x01;
    c.ops.dl = 0x81;
    Slo::execute(&mut c);
    assert_eq!(c.ops.dl, 0x02);
    assert_eq!(c.a, 0x03);
    assert!(c.p.carry);

    // SRE: shift right then EOR into A
    let mut s = fresh();
    s.a = 0x02;
    s.ops.dl = 0x05;
    Sre::execute(&mut s);
    assert_eq!(s.ops.dl, 0x02);
    assert_eq!(s.a, 0x00);
    assert!(s.p.carry);
    assert!(s.p.zero);

    // RLA: rotate left then AND into A
    let mut r = fresh();
    r.a = 0x03;
    r.ops.dl = 0x01;
    r.p.carry = true;
    Rla::execute(&mut r);
    assert_eq!(r.ops.dl, 0x03);
    assert_eq!(r.a, 0x03);
    assert!(!r.p.carry);

    // RRA: rotate right then add with the rotated-out carry
    let mut q = fresh();
    q.a = 0x10;
    q.ops.dl = 0x03;
    q.p.carry = false;
    Rra::execute(&mut q);
    assert_eq!(q.ops.dl, 0x01);
    assert_eq!(q.a, 0x12);
    assert!(!q.p.carry);

    // DCP: decrement then compare
    let mut k = fresh();
    k.a = 0x10;
    k.ops.dl = 0x11;
    Dcp::execute(&mut k);
    assert_eq!(k.ops.dl, 0x10);
    assert!(k.p.carry);
    assert!(k.p.zero);

    // ISC: increment then subtract
    let mut i = fresh();
    i.a = 0x10;
    i.ops.dl = 0x0F;
    i.p.carry = true;
    Isc::execute(&mut i);
    assert_eq!(i.ops.dl, 0x10);
    assert_eq!(i.a, 0x00);
    assert!(i.p.zero);
    assert!(i.p.carry);
}

#[test]
fn undocumented_immediate_ops() {
    // ANC: AND then copy N into C
    let mut c = fresh();
    c.a = 0xFF;
    c.ops.dl = 0x80;
    Aac::execute(&mut c);
    assert_eq!(c.a, 0x80);
    assert!(c.p.negative);
    assert!(c.p.carry);

    // ALR: AND then shift right, carry from the masked bit 0
    let mut r = fresh();
    r.a = 0xFF;
    r.ops.dl = 0x03;
    Asr::execute(&mut r);
    assert_eq!(r.a, 0x01);
    assert!(r.p.carry);

    // ARR: AND then rotate right, C from bit 6, V from bit 6 xor bit 5
    let mut a = fresh();
    a.a = 0xFF;
    a.ops.dl = 0xFF;
    a.p.carry = true;
    Arr::execute(&mut a);
    assert_eq!(a.a, 0xFF);
    assert!(a.p.carry);
    assert!(!a.p.overflow);
    assert!(a.p.negative);

    // SBX: X = (A & X) - imm with compare-style carry
    let mut x = fresh();
    x.a = 0xF0;
    x.x = 0x0F;
    x.ops.dl = 0x01;
    Axs::execute(&mut x);
    assert_eq!(x.x, 0xFF);
    assert!(!x.p.carry);
    assert!(x.p.negative);

    // LXA variant: A and X both become A & imm
    let mut t = fresh();
    t.a = 0x3C;
    t.ops.dl = 0x0F;
    Atx::execute(&mut t);
    assert_eq!(t.a, 0x0C);
    assert_eq!(t.x, 0x0C);

    // XAA variant: A becomes X & imm
    let mut w = fresh();
    w.a = 0x00;
    w.x = 0xF0;
    w.ops.dl = 0xAA;
    Xaa::execute(&mut w);
    assert_eq!(w.a, 0xA0);
    assert!(w.p.negative);

    // LAS: A, X and SP all become SP & operand
    let mut l = fresh();
    l.sp = 0xF0;
    l.ops.dl = 0x33;
    Lar::execute(&mut l);
    assert_eq!(l.a, 0x30);
    assert_eq!(l.x, 0x30);
    assert_eq!(l.sp, 0x30);
}

#[test]
fn kil_rewinds_pc() {
    let mut c = fresh();
    c.pc.pcl = 0x00;
    c.pc.pch = 0x80;
    Kil::execute(&mut c);
    assert_eq!(u16::from(c.pc), 0x7FFF);
    let mut z = fresh();
    z.pc.pcl = 0;
    z.pc.pch = 0;
    Kil::execute(&mut z);
    assert_eq!(u16::from(z.pc), 0xFFFF);
}
