//! The wire state between the CPU and the outside world, in two equivalent
//! shapes: a record of discrete pins, and a bit-packed 64-bit word with one
//! bit per control pin (pins 0-15 the address lines, 16-23 the data lines).

use vstd::prelude::*;

verus! {

/// Level of a single pin: `On` is electrically high.
#[derive(Debug, PartialEq, Eq, Structural, Clone, Copy)]
pub enum Pin {
    On,
    Off,
}

/// Snapshot of every pin.  The core drives `address`, `data`, `rw` and `sync`
/// each cycle; the host drives `irq`, `nmi`, `rdy` and `res` between cycles.
///
/// `nmi` is edge-sensed: the core samples the pin each tick and latches a
/// request on an `On` to `Off` transition.  `res` is sensed the same way.
/// `rdy` is level-sensed: while it is `On`, a cycle that would read repeats
/// the same read and the core does not advance.
#[derive(Debug, Clone)]
pub struct Pinout {
    pub address: u16,
    pub data: u8,
    /// Memory read or write access (high read, low write).
    pub rw: Pin,
    /// Start of a new instruction; not a real pin on the RP2A03, kept for
    /// host debuggers and test harnesses.
    pub sync: Pin,
    /// Maskable interrupt requested.
    pub irq: Pin,
    /// Non-maskable interrupt requested.
    pub nmi: Pin,
    /// Freeze execution at the next read cycle.
    pub rdy: Pin,
    /// Reset the CPU.
    pub res: Pin,
    /// (6502C only) freeze execution immediately; ignored by this core.
    pub halt: Pin,
    /// (6510 only) input-output pins; ignored by this core.
    pub p0: Pin,
    pub p1: Pin,
    pub p2: Pin,
    pub p3: Pin,
    pub p4: Pin,
    pub p5: Pin,
}

/// The pinout as a host sees it at power-on: bus idle on a read, `rdy`
/// asserted, every other line released.
pub open spec fn power_on_pinout() -> Pinout {
    Pinout {
        address: 0u16,
        data: 0u8,
        rw: Pin::On,
        sync: Pin::Off,
        irq: Pin::Off,
        nmi: Pin::Off,
        rdy: Pin::On,
        res: Pin::Off,
        halt: Pin::Off,
        p0: Pin::Off,
        p1: Pin::Off,
        p2: Pin::Off,
        p3: Pin::Off,
        p4: Pin::Off,
        p5: Pin::Off,
    }
}

impl Pinout {
    pub fn new() -> (p: Pinout)
        ensures
            p == power_on_pinout(),
    {
        Pinout {
            address: 0,
            data: 0,
            rw: Pin::On,
            sync: Pin::Off,
            irq: Pin::Off,
            nmi: Pin::Off,
            rdy: Pin::On,
            res: Pin::Off,
            halt: Pin::Off,
            p0: Pin::Off,
            p1: Pin::Off,
            p2: Pin::Off,
            p3: Pin::Off,
            p4: Pin::Off,
            p5: Pin::Off,
        }
    }
}

/// The host-driven input lines are the same in both snapshots: the core never
/// touches `irq`, `nmi`, `rdy`, `res`, `halt` or the 6510 I/O pins.
pub open spec fn inputs_preserved(a: Pinout, b: Pinout) -> bool {
    &&& a.irq == b.irq
    &&& a.nmi == b.nmi
    &&& a.rdy == b.rdy
    &&& a.res == b.res
    &&& a.halt == b.halt
    &&& a.p0 == b.p0
    &&& a.p1 == b.p1
    &&& a.p2 == b.p2
    &&& a.p3 == b.p3
    &&& a.p4 == b.p4
    &&& a.p5 == b.p5
}

// Bit positions of the control pins in the packed 64-bit representation.
pub const RW_PIN: u64 = 1 << 24;

pub const SYNC_PIN: u64 = 1 << 25;

pub const IRQ_PIN: u64 = 1 << 26;

pub const NMI_PIN: u64 = 1 << 27;

pub const RDY_PIN: u64 = 1 << 28;

pub const RES_PIN: u64 = 1 << 29;

pub const HALT_PIN: u64 = 1 << 30;

pub const P0_PIN: u64 = 1 << 31;

pub const P1_PIN: u64 = 1 << 32;

pub const P2_PIN: u64 = 1 << 33;

pub const P3_PIN: u64 = 1 << 34;

pub const P4_PIN: u64 = 1 << 35;

pub const P5_PIN: u64 = 1 << 36;

/// The address lines of a packed pinout word.
pub open spec fn packed_address(pinout: u64) -> u16 {
    (pinout % 0x10000) as u16
}

/// The data lines of a packed pinout word.
pub open spec fn packed_data(pinout: u64) -> u8 {
    ((pinout / 0x10000) % 0x100) as u8
}

/// Drive the 16 address lines of a packed pinout word, leaving every other
/// line untouched.
#[inline]
#[must_use]
pub fn set_address_pins(pinout: u64, addr: u16) -> (r: u64)
    ensures
        packed_address(r) == addr,
        r / 0x10000 == pinout / 0x10000,
{
    let cleared = pinout & 0xFFFFFFFFFFFF0000;
    let r = cleared | (addr as u64);
    proof {
        assert(r % 0x10000 == addr as u64 && r / 0x10000 == pinout / 0x10000) by (bit_vector)
            requires
                r == (pinout & 0xFFFFFFFFFFFF0000u64) | (addr as u64),
                (addr as u64) < 0x10000u64,
        ;
    }
    r
}

/// Read the 16 address lines of a packed pinout word.
#[inline]
#[must_use]
pub fn get_address_pins(pinout: u64) -> (addr: u16)
    ensures
        addr == packed_address(pinout),
{
    proof {
        assert(pinout as u16 == (pinout % 0x10000u64) as u16) by (bit_vector);
    }
    pinout as u16
}

/// Drive the 8 data lines of a packed pinout word, leaving every other line
/// untouched.
#[inline]
#[must_use]
pub fn set_data_pins(pinout: u64, data: u8) -> (r: u64)
    ensures
        packed_data(r) == data,
        packed_address(r) == packed_address(pinout),
        r / 0x1000000 == pinout / 0x1000000,
{
    let cleared = pinout & 0xFFFFFFFFFF00FFFF;
    let r = cleared | ((data as u64) << 16);
    proof {
        assert((r / 0x10000) % 0x100 == data as u64 && r % 0x10000 == pinout % 0x10000 && r
            / 0x1000000 == pinout / 0x1000000) by (bit_vector)
            requires
                r == (pinout & 0xFFFFFFFFFF00FFFFu64) | ((data as u64) << 16),
                (data as u64) < 0x100u64,
        ;
    }
    r
}

/// Read the 8 data lines of a packed pinout word.
#[inline]
#[must_use]
pub fn get_data_pins(pinout: u64) -> (data: u8)
    ensures
        data == packed_data(pinout),
{
    proof {
        assert((pinout >> 16) as u8 == ((pinout / 0x10000u64) % 0x100u64) as u8) by (bit_vector);
    }
    (pinout >> 16) as u8
}

/// Raise one control line of a packed pinout word.
#[inline]
#[must_use]
pub fn set_pin_on(pinout: u64, pin: u64) -> (r: u64)
    ensures
        r == pinout | pin,
{
    pinout | pin
}

/// Ground one control line of a packed pinout word.
#[inline]
#[must_use]
pub fn set_pin_off(pinout: u64, pin: u64) -> (r: u64)
    ensures
        r == pinout & !pin,
{
    pinout & (!pin)
}

/// Whether a control line of a packed pinout word is high.
#[inline]
#[must_use]
pub fn is_pin_on(pinout: u64, pin: u64) -> (on: bool)
    ensures
        on == (pinout & pin != 0),
{
    if (pinout & pin) > 0 {
        return true;
    }
    false
}

/// Whether a control line of a packed pinout word is grounded.
#[inline]
#[must_use]
pub fn is_pin_off(pinout: u64, pin: u64) -> (off: bool)
    ensures
        off == (pinout & pin == 0),
{
    if (pinout & pin) == 0 {
        return true;
    }
    false
}

/// Raising a line makes it read as on, grounding it as off, and either one
/// leaves every other line as it was.
pub proof fn lemma_pin_toggle(pinout: u64, pin: u64, other: u64)
    by (bit_vector)
    requires
        pin != 0,
        other & pin == 0,
    ensures
        (pinout | pin) & pin != 0,
        (pinout & !pin) & pin == 0,
        (pinout | pin) & other == pinout & other,
        (pinout & !pin) & other == pinout & other,
{
}

} // verus!
