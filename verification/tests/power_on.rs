use mos6502::pins::Pin;
use mos6502::rp2a03::Rp2a03;

#[test]
fn it_works() {
    let (_cpu, cpu_pinout) = Rp2a03::from_power_on();

    assert_eq!(cpu_pinout.rdy == Pin::On, true);
}

#[test]
fn power_on_state() {
    let (cpu, pinout) = Rp2a03::from_power_on();
    let ctx = cpu.context();
    assert_eq!(ctx.a, 0);
    assert_eq!(ctx.x, 0);
    assert_eq!(ctx.y, 0);
    assert_eq!(ctx.sp, 0);
    assert_eq!(ctx.cycle, 0);
    assert_eq!(ctx.ir.opcode, 0);
    assert_eq!(ctx.ir.tm, 0);
    assert_eq!(u8::from(ctx.p), 0x24);
    assert!(ctx.rst);
    assert!(!ctx.nmi_detected);
    assert_eq!(pinout.rw, Pin::On);
    assert_eq!(pinout.sync, Pin::Off);
    assert_eq!(pinout.irq, Pin::Off);
    assert_eq!(pinout.nmi, Pin::Off);
    assert_eq!(pinout.res, Pin::Off);
    assert_eq!(pinout.address, 0);
    assert_eq!(pinout.data, 0);
}
