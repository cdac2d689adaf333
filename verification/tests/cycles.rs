use mos6502::bus::FlatRam;
use mos6502::pins::{Pin, Pinout};
use mos6502::rp2a03::Rp2a03;

/// Board with the reset vector wired and `rdy` released, ready to tick.
fn board(reset_target: u16) -> (Rp2a03, Pinout, FlatRam) {
    let mut ram = FlatRam::new();
    ram.poke(0xFFFC, (reset_target & 0xFF) as u8);
    ram.poke(0xFFFD, (reset_target >> 8) as u8);
    let (cpu, mut pinout) = Rp2a03::from_power_on();
    pinout.rdy = Pin::Off;
    (cpu, pinout, ram)
}

fn run_reset(cpu: &mut Rp2a03, ram: &mut FlatRam, mut pinout: Pinout) -> Pinout {
    for _ in 0..9 {
        pinout = cpu.tick(ram, pinout);
    }
    pinout
}

#[test]
fn reset_sequence_loads_vector() {
    let (mut cpu, mut pinout, mut ram) = board(0x8000);
    pinout = run_reset(&mut cpu, &mut ram, pinout);
    let ctx = cpu.context();
    assert_eq!(ctx.pc.pcl, 0x00);
    assert_eq!(ctx.pc.pch, 0x80);
    assert_eq!(u16::from(ctx.pc), 0x8000);
    assert_eq!(ctx.sp, 0xFD);
    assert_eq!(u8::from(ctx.p), 0x24);
    assert!(!ctx.rst);
    // the next cycle is the first opcode fetch, at the vector target
    pinout = cpu.tick(&mut ram, pinout);
    assert_eq!(pinout.sync, Pin::On);
    assert_eq!(pinout.address, 0x8000);
}

#[test]
fn reset_stack_pointer_drops_by_three() {
    // a mid-run reset decrements whatever SP was, rather than forcing 0xFD
    let (mut cpu, mut pinout, mut ram) = board(0x8000);
    ram.poke(0x8000, 0xEA); // NOP
    pinout = run_reset(&mut cpu, &mut ram, pinout);
    pinout = cpu.tick(&mut ram, pinout); // NOP fetch
    pinout = cpu.tick(&mut ram, pinout); // NOP execute
    assert_eq!(cpu.context().sp, 0xFD);
    // pulse RES: high one tick, low the next starts the 9-cycle sequence
    pinout.res = Pin::On;
    pinout = cpu.tick(&mut ram, pinout);
    pinout.res = Pin::Off;
    pinout = run_reset(&mut cpu, &mut ram, pinout);
    assert_eq!(cpu.context().sp, 0xFA);
    assert_eq!(u16::from(cpu.context().pc), 0x8000);
}

#[test]
fn immediate_load_and_add_overflow() {
    // LDA #$50; ADC #$50 — the add overflows signed arithmetic
    let (mut cpu, mut pinout, mut ram) = board(0x8000);
    ram.poke(0x8000, 0xA9);
    ram.poke(0x8001, 0x50);
    ram.poke(0x8002, 0x69);
    ram.poke(0x8003, 0x50);
    pinout = run_reset(&mut cpu, &mut ram, pinout);
    for _ in 0..4 {
        pinout = cpu.tick(&mut ram, pinout);
    }
    let ctx = cpu.context();
    assert_eq!(ctx.a, 0xA0);
    assert!(!ctx.p.carry);
    assert!(ctx.p.overflow);
    assert!(ctx.p.negative);
    assert!(!ctx.p.zero);
    assert_eq!(u16::from(ctx.pc), 0x8004);
    // both instructions took their published two cycles: next tick is a fetch
    pinout = cpu.tick(&mut ram, pinout);
    assert_eq!(pinout.sync, Pin::On);
    assert_eq!(pinout.address, 0x8004);
}

#[test]
fn taken_branch_with_page_cross_takes_four_cycles() {
    // at 0x80FB: LDA #$00 (sets Z); at 0x80FD: BEQ +4
    let (mut cpu, mut pinout, mut ram) = board(0x80FB);
    ram.poke(0x80FB, 0xA9);
    ram.poke(0x80FC, 0x00);
    ram.poke(0x80FD, 0xF0);
    ram.poke(0x80FE, 0x04);
    pinout = run_reset(&mut cpu, &mut ram, pinout);
    pinout = cpu.tick(&mut ram, pinout); // LDA fetch
    pinout = cpu.tick(&mut ram, pinout); // LDA operand
    assert!(cpu.context().p.zero);

    // cycle 1: opcode fetch
    pinout = cpu.tick(&mut ram, pinout);
    assert_eq!(pinout.sync, Pin::On);
    assert_eq!(pinout.address, 0x80FD);
    // cycle 2: offset fetch
    pinout = cpu.tick(&mut ram, pinout);
    assert_eq!(pinout.address, 0x80FE);
    // cycle 3: dummy read at the un-fixed page: 0x80FF + 4 without carry
    pinout = cpu.tick(&mut ram, pinout);
    assert_eq!(pinout.address, 0x8003);
    assert_eq!(pinout.rw, Pin::On);
    // cycle 4: fix-up at the correct page
    pinout = cpu.tick(&mut ram, pinout);
    assert_eq!(pinout.address, 0x8103);
    assert_eq!(u16::from(cpu.context().pc), 0x8103);
    // cycle count was exactly 4: the next cycle fetches the next opcode
    pinout = cpu.tick(&mut ram, pinout);
    assert_eq!(pinout.sync, Pin::On);
    assert_eq!(pinout.address, 0x8103);
}

#[test]
fn taken_branch_without_cross_takes_three_cycles() {
    // at 0x8000: LDA #$00; at 0x8002: BEQ +2
    let (mut cpu, mut pinout, mut ram) = board(0x8000);
    ram.poke(0x8000, 0xA9);
    ram.poke(0x8001, 0x00);
    ram.poke(0x8002, 0xF0);
    ram.poke(0x8003, 0x02);
    pinout = run_reset(&mut cpu, &mut ram, pinout);
    for _ in 0..2 {
        pinout = cpu.tick(&mut ram, pinout);
    }
    for _ in 0..3 {
        pinout = cpu.tick(&mut ram, pinout);
    }
    assert_eq!(u16::from(cpu.context().pc), 0x8006);
    pinout = cpu.tick(&mut ram, pinout);
    assert_eq!(pinout.sync, Pin::On);
    assert_eq!(pinout.address, 0x8006);
}

#[test]
fn jmp_indirect_page_wrap_bug() {
    // JMP ($30FF): low byte from 0x30FF, high byte from 0x3000, not 0x3100
    let (mut cpu, mut pinout, mut ram) = board(0x8000);
    ram.poke(0x8000, 0x6C);
    ram.poke(0x8001, 0xFF);
    ram.poke(0x8002, 0x30);
    ram.poke(0x30FF, 0x40);
    ram.poke(0x3000, 0x80);
    ram.poke(0x3100, 0x50);
    pinout = run_reset(&mut cpu, &mut ram, pinout);
    pinout = cpu.tick(&mut ram, pinout); // fetch
    pinout = cpu.tick(&mut ram, pinout); // pointer low
    pinout = cpu.tick(&mut ram, pinout); // pointer high
    pinout = cpu.tick(&mut ram, pinout); // target low at 0x30FF
    assert_eq!(pinout.address, 0x30FF);
    pinout = cpu.tick(&mut ram, pinout); // target high, wrapped to 0x3000
    assert_eq!(pinout.address, 0x3000);
    assert_eq!(u16::from(cpu.context().pc), 0x8040);
}

#[test]
fn absolute_indexed_page_cross_retries_read() {
    // LDX #$01; LDA $30FF,X reads 0x3100 after a dummy read at 0x3000
    let (mut cpu, mut pinout, mut ram) = board(0x8000);
    ram.poke(0x8000, 0xA2);
    ram.poke(0x8001, 0x01);
    ram.poke(0x8002, 0xBD);
    ram.poke(0x8003, 0xFF);
    ram.poke(0x8004, 0x30);
    ram.poke(0x3000, 0x11);
    ram.poke(0x3100, 0x22);
    pinout = run_reset(&mut cpu, &mut ram, pinout);
    for _ in 0..2 {
        pinout = cpu.tick(&mut ram, pinout);
    }
    pinout = cpu.tick(&mut ram, pinout); // LDA fetch
    pinout = cpu.tick(&mut ram, pinout); // base low
    pinout = cpu.tick(&mut ram, pinout); // base high
    pinout = cpu.tick(&mut ram, pinout); // read at the un-fixed page
    assert_eq!(pinout.address, 0x3000);
    pinout = cpu.tick(&mut ram, pinout); // retry one page up
    assert_eq!(pinout.address, 0x3100);
    assert_eq!(cpu.context().a, 0x22);
}

#[test]
fn store_and_read_modify_write() {
    // LDA #$41; STA $0200; INC $0200
    let (mut cpu, mut pinout, mut ram) = board(0x8000);
    ram.poke(0x8000, 0xA9);
    ram.poke(0x8001, 0x41);
    ram.poke(0x8002, 0x8D);
    ram.poke(0x8003, 0x00);
    ram.poke(0x8004, 0x02);
    ram.poke(0x8005, 0xEE);
    ram.poke(0x8006, 0x00);
    ram.poke(0x8007, 0x02);
    pinout = run_reset(&mut cpu, &mut ram, pinout);
    for _ in 0..2 {
        pinout = cpu.tick(&mut ram, pinout);
    }
    for _ in 0..4 {
        pinout = cpu.tick(&mut ram, pinout);
    }
    assert_eq!(ram.peek(0x0200), 0x41);
    for _ in 0..4 {
        pinout = cpu.tick(&mut ram, pinout);
    }
    // fifth cycle of the RMW: the unchanged byte is written back
    pinout = cpu.tick(&mut ram, pinout);
    assert_eq!(pinout.rw, Pin::Off);
    assert_eq!(pinout.address, 0x0200);
    assert_eq!(pinout.data, 0x41);
    // sixth cycle: the modified byte
    pinout = cpu.tick(&mut ram, pinout);
    assert_eq!(ram.peek(0x0200), 0x42);
    assert_eq!(pinout.rw, Pin::Off);
    assert_eq!(pinout.address, 0x0200);
    assert_eq!(pinout.data, 0x42);
}

#[test]
fn jsr_and_rts_round_trip() {
    // JSR $9000; ... at 0x9000: RTS — control returns past the JSR
    let (mut cpu, mut pinout, mut ram) = board(0x8000);
    ram.poke(0x8000, 0x20);
    ram.poke(0x8001, 0x00);
    ram.poke(0x8002, 0x90);
    ram.poke(0x9000, 0x60);
    pinout = run_reset(&mut cpu, &mut ram, pinout);
    for _ in 0..6 {
        pinout = cpu.tick(&mut ram, pinout);
    }
    assert_eq!(u16::from(cpu.context().pc), 0x9000);
    assert_eq!(cpu.context().sp, 0xFB);
    // the pushed return address points at the last byte of the JSR
    assert_eq!(ram.peek(0x01FD), 0x80);
    assert_eq!(ram.peek(0x01FC), 0x02);
    for _ in 0..6 {
        pinout = cpu.tick(&mut ram, pinout);
    }
    assert_eq!(u16::from(cpu.context().pc), 0x8003);
    assert_eq!(cpu.context().sp, 0xFD);
    let _ = pinout;
}

#[test]
fn nmi_hijacks_brk_vector() {
    // enter BRK, assert NMI before cycle 5: the vector comes from 0xFFFA,
    // the pushed flags still carry B = 1, and PC ends at the NMI handler
    let (mut cpu, mut pinout, mut ram) = board(0x8000);
    ram.poke(0x8000, 0x00); // BRK
    ram.poke(0xFFFA, 0x00);
    ram.poke(0xFFFB, 0x90);
    ram.poke(0xFFFE, 0x00);
    ram.poke(0xFFFF, 0x70);
    pinout = run_reset(&mut cpu, &mut ram, pinout);
    pinout = cpu.tick(&mut ram, pinout); // cycle 1: BRK fetch
    pinout.nmi = Pin::On;
    pinout = cpu.tick(&mut ram, pinout); // cycle 2: signature byte
    pinout.nmi = Pin::Off;
    pinout = cpu.tick(&mut ram, pinout); // cycle 3: push PCH; NMI edge latched
    assert!(cpu.context().nmi_detected);
    pinout = cpu.tick(&mut ram, pinout); // cycle 4: push PCL
    pinout = cpu.tick(&mut ram, pinout); // cycle 5: push P with B = 1
    assert_eq!(pinout.rw, Pin::Off);
    assert_eq!(pinout.data & 0x10, 0x10);
    pinout = cpu.tick(&mut ram, pinout); // cycle 6: vector low, hijacked
    assert_eq!(pinout.address, 0xFFFA);
    pinout = cpu.tick(&mut ram, pinout); // cycle 7: vector high
    assert_eq!(pinout.address, 0xFFFB);
    assert_eq!(u16::from(cpu.context().pc), 0x9000);
    assert!(cpu.context().p.interrupt_disable);
}

#[test]
fn brk_without_nmi_uses_irq_vector() {
    let (mut cpu, mut pinout, mut ram) = board(0x8000);
    ram.poke(0x8000, 0x00);
    ram.poke(0xFFFE, 0x00);
    ram.poke(0xFFFF, 0x70);
    pinout = run_reset(&mut cpu, &mut ram, pinout);
    for _ in 0..5 {
        pinout = cpu.tick(&mut ram, pinout);
    }
    pinout = cpu.tick(&mut ram, pinout);
    assert_eq!(pinout.address, 0xFFFE);
    pinout = cpu.tick(&mut ram, pinout);
    assert_eq!(pinout.address, 0xFFFF);
    assert_eq!(u16::from(cpu.context().pc), 0x7000);
    // the pushed return address skipped the signature byte
    assert_eq!(ram.peek(0x01FD), 0x80);
    assert_eq!(ram.peek(0x01FC), 0x02);
}

#[test]
fn irq_entry_after_cli_is_one_instruction_late() {
    // CLI; NOP with IRQ held: the poll at the end of CLI still sees the old
    // Interrupt-Disable, so entry happens only after the NOP
    let (mut cpu, mut pinout, mut ram) = board(0x8000);
    ram.poke(0x8000, 0x58); // CLI
    ram.poke(0x8001, 0xEA); // NOP
    ram.poke(0xFFFE, 0x00);
    ram.poke(0xFFFF, 0x70);
    pinout = run_reset(&mut cpu, &mut ram, pinout);
    pinout.irq = Pin::On;
    pinout = cpu.tick(&mut ram, pinout); // CLI fetch
    pinout = cpu.tick(&mut ram, pinout); // CLI executes; poll with old I = 1
    assert!(!cpu.context().p.interrupt_disable);
    pinout = cpu.tick(&mut ram, pinout); // NOP fetch: a fetch, not an entry
    assert_eq!(pinout.sync, Pin::On);
    pinout = cpu.tick(&mut ram, pinout); // NOP executes; poll queues the IRQ
    // the 7-cycle entry: dummy, dummy, PCH, PCL, P with B = 0, vector x2
    for _ in 0..4 {
        pinout = cpu.tick(&mut ram, pinout);
    }
    pinout = cpu.tick(&mut ram, pinout); // push P
    assert_eq!(pinout.data & 0x10, 0x00);
    pinout = cpu.tick(&mut ram, pinout);
    assert_eq!(pinout.address, 0xFFFE);
    pinout = cpu.tick(&mut ram, pinout);
    assert_eq!(pinout.address, 0xFFFF);
    assert_eq!(u16::from(cpu.context().pc), 0x7000);
    // the return address pushed for a hardware interrupt is the next opcode
    assert_eq!(ram.peek(0x01FD), 0x80);
    assert_eq!(ram.peek(0x01FC), 0x02);
}

#[test]
fn rdy_stalls_a_read_cycle() {
    // assert RDY during the second cycle of LDA $00: that read repeats with
    // the same address until RDY is released; total cycles = 3 + stalls
    let (mut cpu, mut pinout, mut ram) = board(0x8000);
    ram.poke(0x8000, 0xA5);
    ram.poke(0x8001, 0x00);
    ram.poke(0x0000, 0x42);
    pinout = run_reset(&mut cpu, &mut ram, pinout);
    pinout = cpu.tick(&mut ram, pinout); // cycle 1: fetch
    pinout.rdy = Pin::On;
    pinout = cpu.tick(&mut ram, pinout); // stalled operand read
    assert_eq!(pinout.address, 0x8001);
    assert_eq!(pinout.rw, Pin::On);
    let tm_during_stall = cpu.context().ir.tm;
    pinout = cpu.tick(&mut ram, pinout); // still stalled: same read again
    assert_eq!(pinout.address, 0x8001);
    assert_eq!(pinout.rw, Pin::On);
    assert_eq!(cpu.context().ir.tm, tm_during_stall);
    pinout.rdy = Pin::Off;
    pinout = cpu.tick(&mut ram, pinout); // cycle 2 completes
    pinout = cpu.tick(&mut ram, pinout); // cycle 3: read 0x0000
    assert_eq!(cpu.context().a, 0x42);
    // 3 + 2 stall cycles in all; the next tick fetches the next opcode
    pinout = cpu.tick(&mut ram, pinout);
    assert_eq!(pinout.sync, Pin::On);
    assert_eq!(pinout.address, 0x8002);
}

#[test]
fn php_plp_round_trip_restores_flags() {
    // SEC; LDA #$80 (sets N); PHP; LDA #$01 (clears N, Z); PLP
    let (mut cpu, mut pinout, mut ram) = board(0x8000);
    ram.poke(0x8000, 0x38);
    ram.poke(0x8001, 0xA9);
    ram.poke(0x8002, 0x80);
    ram.poke(0x8003, 0x08);
    ram.poke(0x8004, 0xA9);
    ram.poke(0x8005, 0x01);
    ram.poke(0x8006, 0x28);
    pinout = run_reset(&mut cpu, &mut ram, pinout);
    for _ in 0..4 {
        pinout = cpu.tick(&mut ram, pinout);
    }
    let pushed = cpu.context().p;
    assert!(pushed.carry && pushed.negative && pushed.interrupt_disable);
    for _ in 0..3 {
        pinout = cpu.tick(&mut ram, pinout);
    }
    // the stacked image carries bits 4 and 5 beside the six flags
    assert_eq!(ram.peek(0x01FD), 0x01 | 0x04 | 0x80 | 0x20 | 0x10);
    for _ in 0..2 {
        pinout = cpu.tick(&mut ram, pinout);
    }
    assert!(!cpu.context().p.negative);
    for _ in 0..4 {
        pinout = cpu.tick(&mut ram, pinout);
    }
    // every meaningful flag is back
    assert_eq!(cpu.context().p, pushed);
    let _ = pinout;
}

#[test]
fn kil_freezes_the_processor() {
    let (mut cpu, mut pinout, mut ram) = board(0x8000);
    ram.poke(0x8000, 0x02); // KIL
    pinout = run_reset(&mut cpu, &mut ram, pinout);
    for _ in 0..10 {
        pinout = cpu.tick(&mut ram, pinout);
    }
    // each two-cycle loop ends with PC rewound onto the halt opcode
    assert_eq!(u16::from(cpu.context().pc), 0x8000);
    pinout = cpu.tick(&mut ram, pinout);
    // the re-fetch reads the same opcode and never gets further
    assert_eq!(pinout.address, 0x8000);
    assert_eq!(cpu.context().ir.opcode, 0x02);
    assert_eq!(u16::from(cpu.context().pc), 0x8001);
}

#[test]
fn indirect_indexed_store_fixes_page() {
    // LDY #$01; LDA #$7E; STA ($10),Y with pointer 0x20FF: writes 0x2100
    let (mut cpu, mut pinout, mut ram) = board(0x8000);
    ram.poke(0x8000, 0xA0);
    ram.poke(0x8001, 0x01);
    ram.poke(0x8002, 0xA9);
    ram.poke(0x8003, 0x7E);
    ram.poke(0x8004, 0x91);
    ram.poke(0x8005, 0x10);
    ram.poke(0x0010, 0xFF);
    ram.poke(0x0011, 0x20);
    pinout = run_reset(&mut cpu, &mut ram, pinout);
    for _ in 0..4 {
        pinout = cpu.tick(&mut ram, pinout);
    }
    for _ in 0..6 {
        pinout = cpu.tick(&mut ram, pinout);
    }
    assert_eq!(ram.peek(0x2100), 0x7E);
    assert_eq!(pinout.address, 0x2100);
    assert_eq!(pinout.rw, Pin::Off);
}
