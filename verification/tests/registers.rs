use mos6502::context::{FlagsRegister, InstructionRegister, OpState, ProgramCounter};
use mos6502::pins::{
    get_address_pins, get_data_pins, is_pin_off, is_pin_on, set_address_pins, set_data_pins,
    set_pin_off, set_pin_on, RDY_PIN, RW_PIN, SYNC_PIN,
};

#[test]
fn pc_increments_and_wraps() {
    let mut pc = ProgramCounter::from(0x12FF);
    pc.increment();
    assert_eq!(u16::from(pc), 0x1300);

    let mut top = ProgramCounter { pcl: 0xFF, pch: 0xFF };
    top.increment();
    assert_eq!(top.pcl, 0x00);
    assert_eq!(top.pch, 0x00);
    assert_eq!(u16::from(top), 0x0000);
}

#[test]
fn pc_word_conversions() {
    let pc = ProgramCounter::from(0xABCD);
    assert_eq!(pc.pcl, 0xCD);
    assert_eq!(pc.pch, 0xAB);
    assert_eq!(u16::from(pc), 0xABCD);
    let zero = ProgramCounter::new();
    assert_eq!(u16::from(zero), 0);
}

#[test]
fn flags_byte_round_trip() {
    let f = FlagsRegister {
        carry: true,
        zero: false,
        interrupt_disable: true,
        decimal: false,
        overflow: true,
        negative: false,
    };
    let mut g = f;
    // pushed with B set: flags | 0x10, bit 5 always set
    let with_b = g.push_with_b_set();
    assert_eq!(with_b, 0x01 | 0x04 | 0x40 | 0x20 | 0x10);
    let without_b = g.push_with_b_clear();
    assert_eq!(without_b, 0x01 | 0x04 | 0x40 | 0x20);
    // pulling either image restores every meaningful flag
    assert_eq!(FlagsRegister::pull(with_b), f);
    assert_eq!(FlagsRegister::pull(without_b), f);
}

#[test]
fn flags_pull_ignores_bits_4_and_5() {
    let restored = FlagsRegister::pull(0xFF);
    assert!(restored.carry);
    assert!(restored.zero);
    assert!(restored.interrupt_disable);
    assert!(restored.decimal);
    assert!(restored.overflow);
    assert!(restored.negative);
    let cleared = FlagsRegister::pull(0x30);
    assert_eq!(u8::from(cleared), 0x20);
}

#[test]
fn flags_from_byte_0x24() {
    let f = FlagsRegister::from(0x24u8);
    assert!(f.interrupt_disable);
    assert!(!f.carry && !f.zero && !f.decimal && !f.overflow && !f.negative);
    assert_eq!(u8::from(f), 0x24);
}

#[test]
fn instruction_register_counts_ticks() {
    let mut ir = InstructionRegister::new();
    ir.reset(0xA9);
    assert_eq!(ir.opcode, 0xA9);
    assert_eq!(ir.tm, 0);
    ir.increment();
    ir.increment();
    assert_eq!(ir.tm, 2);
    assert_eq!(u16::from(ir), 0xA902);
    let back = InstructionRegister::from(0xA902u16);
    assert_eq!(back.opcode, 0xA9);
    assert_eq!(back.tm, 2);
}

#[test]
fn op_state_resets_to_zero() {
    let mut ops = OpState::new();
    ops.bal = 7;
    ops.dl = 99;
    ops.branch_taken = true;
    ops.offset_carry = true;
    ops.reset();
    assert_eq!(ops, OpState::new());
    assert_eq!(ops.dl, 0);
    assert!(!ops.branch_taken);
}

#[test]
fn packed_pinout_lines() {
    let w = set_address_pins(0, 0xBEEF);
    assert_eq!(get_address_pins(w), 0xBEEF);
    let w = set_data_pins(w, 0x5A);
    assert_eq!(get_data_pins(w), 0x5A);
    assert_eq!(get_address_pins(w), 0xBEEF);
    let w = set_pin_on(w, RW_PIN);
    let w = set_pin_on(w, SYNC_PIN);
    let w = set_pin_off(w, SYNC_PIN);
    assert!(is_pin_on(w, RW_PIN));
    assert!(is_pin_off(w, SYNC_PIN));
    assert!(is_pin_off(w, RDY_PIN));
    assert_eq!(get_address_pins(w), 0xBEEF);
    assert_eq!(get_data_pins(w), 0x5A);
}
