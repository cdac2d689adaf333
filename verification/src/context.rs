//! Architectural and micro-architectural registers of the 6502 core: the
//! status flags, the split program counter, the instruction register, the
//! per-instruction scratch latches, and the context that aggregates them.

use vstd::prelude::*;

verus! {

/// The six meaningful bits of the 6502 status register.  When the register is
/// serialised to a byte (for stack pushes) bit 5 is always set; bit 4 ("B") is
/// set only when pushed by BRK or PHP.  When a byte is deserialised (PLP/RTI)
/// bits 4 and 5 are ignored.
#[derive(PartialEq, Eq, Structural, Debug, Clone, Copy)]
pub struct FlagsRegister {
    pub carry: bool,
    pub zero: bool,
    pub interrupt_disable: bool,
    pub decimal: bool,
    pub overflow: bool,
    pub negative: bool,
}

/// The byte image of the status register: bit 5 always set, bit 4 clear.
pub open spec fn flags_byte(f: FlagsRegister) -> u8 {
    (if f.carry { 0x01u8 } else { 0u8 }) | (if f.zero { 0x02u8 } else { 0u8 }) | (if f
        .interrupt_disable {
        0x04u8
    } else {
        0u8
    }) | (if f.decimal { 0x08u8 } else { 0u8 }) | 0x20u8 | (if f.overflow {
        0x40u8
    } else {
        0u8
    }) | (if f.negative { 0x80u8 } else { 0u8 })
}

/// The flags encoded in a byte image; bits 4 and 5 carry no flag.
pub open spec fn byte_flags(b: u8) -> FlagsRegister {
    FlagsRegister {
        carry: b & 0x01 == 0x01,
        zero: b & 0x02 == 0x02,
        interrupt_disable: b & 0x04 == 0x04,
        decimal: b & 0x08 == 0x08,
        overflow: b & 0x40 == 0x40,
        negative: b & 0x80 == 0x80,
    }
}

impl FlagsRegister {
    /// Byte image pushed by BRK and PHP: the "B" bit (bit 4) is set.
    pub fn push_with_b_set(&mut self) -> (p: u8)
        ensures
            *final(self) == *old(self),
            p == flags_byte(*old(self)) | 0x10u8,
    {
        let p = u8::from(*self);
        p | 0x10
    }

    /// Byte image pushed by IRQ and NMI entry: the "B" bit is clear
    /// (bit 5 is still always set).
    pub fn push_with_b_clear(&mut self) -> (p: u8)
        ensures
            *final(self) == *old(self),
            p == flags_byte(*old(self)),
    {
        let p = u8::from(*self);
        p
    }

    /// Register restored by PLP and RTI; bits 4 and 5 of the byte are ignored.
    pub fn pull(p: u8) -> (fr: FlagsRegister)
        ensures
            fr == byte_flags(p),
    {
        let masked = p & 0b11101111;
        let fr = FlagsRegister::from(masked);
        proof {
            assert((masked & 0x01 == 0x01) == (p & 0x01 == 0x01) && (masked & 0x02 == 0x02) == (p
                & 0x02 == 0x02) && (masked & 0x04 == 0x04) == (p & 0x04 == 0x04) && (masked & 0x08
                == 0x08) == (p & 0x08 == 0x08) && (masked & 0x40 == 0x40) == (p & 0x40 == 0x40) && (
            masked & 0x80 == 0x80) == (p & 0x80 == 0x80)) by (bit_vector)
                requires
                    masked == p & 0b11101111u8,
            ;
        }
        fr
    }
}

impl core::convert::From<FlagsRegister> for u8 {
    fn from(flag: FlagsRegister) -> (b: u8) {
        (if flag.carry { 0x01u8 } else { 0u8 }) | (if flag.zero { 0x02u8 } else { 0u8 }) | (if flag
            .interrupt_disable {
            0x04u8
        } else {
            0u8
        }) | (if flag.decimal { 0x08u8 } else { 0u8 }) | 0x20u8 | (if flag.overflow {
            0x40u8
        } else {
            0u8
        }) | (if flag.negative { 0x80u8 } else { 0u8 })
    }
}

impl vstd::std_specs::convert::FromSpecImpl<FlagsRegister> for u8 {
    open spec fn obeys_from_spec() -> bool {
        true
    }

    open spec fn from_spec(flag: FlagsRegister) -> u8 {
        flags_byte(flag)
    }
}

impl core::convert::From<u8> for FlagsRegister {
    fn from(byte: u8) -> (fr: FlagsRegister) {
        FlagsRegister {
            carry: byte & 0x01 == 0x01,
            zero: byte & 0x02 == 0x02,
            interrupt_disable: byte & 0x04 == 0x04,
            decimal: byte & 0x08 == 0x08,
            overflow: byte & 0x40 == 0x40,
            negative: byte & 0x80 == 0x80,
        }
    }
}

impl vstd::std_specs::convert::FromSpecImpl<u8> for FlagsRegister {
    open spec fn obeys_from_spec() -> bool {
        true
    }

    open spec fn from_spec(byte: u8) -> FlagsRegister {
        byte_flags(byte)
    }
}

/// Push-then-pull restores every meaningful flag: the byte image carries all
/// six flags, whichever value the "B" bit was pushed with, and deserialising
/// it gives back the register that was pushed.
pub proof fn lemma_flags_round_trip(f: FlagsRegister)
    ensures
        byte_flags(flags_byte(f)) == f,
        byte_flags(flags_byte(f) | 0x10u8) == f,
{
    let c: u8 = if f.carry { 0x01u8 } else { 0u8 };
    let z: u8 = if f.zero { 0x02u8 } else { 0u8 };
    let i: u8 = if f.interrupt_disable { 0x04u8 } else { 0u8 };
    let d: u8 = if f.decimal { 0x08u8 } else { 0u8 };
    let v: u8 = if f.overflow { 0x40u8 } else { 0u8 };
    let n: u8 = if f.negative { 0x80u8 } else { 0u8 };
    let b = c | z | i | d | 0x20u8 | v | n;
    let bb = b | 0x10u8;
    assert((b & 0x01 == 0x01) == (c == 0x01) && (b & 0x02 == 0x02) == (z == 0x02) && (b & 0x04
        == 0x04) == (i == 0x04) && (b & 0x08 == 0x08) == (d == 0x08) && (b & 0x40 == 0x40) == (v
        == 0x40) && (b & 0x80 == 0x80) == (n == 0x80) && (bb & 0x01 == 0x01) == (c == 0x01) && (bb
        & 0x02 == 0x02) == (z == 0x02) && (bb & 0x04 == 0x04) == (i == 0x04) && (bb & 0x08 == 0x08)
        == (d == 0x08) && (bb & 0x40 == 0x40) == (v == 0x40) && (bb & 0x80 == 0x80) == (n == 0x80))
        by (bit_vector)
        requires
            (c == 0x01 || c == 0) && (z == 0x02 || z == 0) && (i == 0x04 || i == 0) && (d == 0x08
                || d == 0) && (v == 0x40 || v == 0) && (n == 0x80 || n == 0),
            b == c | z | i | d | 0x20u8 | v | n,
            bb == b | 0x10u8,
    ;
}

/// The low byte of a 16-bit word.
pub open spec fn word_low(w: u16) -> u8 {
    (w % 256) as u8
}

/// The high byte of a 16-bit word.
pub open spec fn word_high(w: u16) -> u8 {
    (w / 256) as u8
}

/// The 16-bit word assembled from a high and a low byte.
pub open spec fn word_of(hb: u8, lb: u8) -> u16 {
    (hb * 256 + lb) as u16
}

/// A 16-bit word advanced by one, wrapping at the top of the address space.
pub open spec fn inc16(w: u16) -> u16 {
    ((w + 1) % 0x10000) as u16
}

/// The 16-bit program counter; internally the 6502 held it as two 8-bit
/// halves, and several addressing modes mutate only one half within a cycle.
#[derive(PartialEq, Eq, Structural, Debug, Clone, Copy)]
pub struct ProgramCounter {
    pub pcl: u8,
    pub pch: u8,
}

/// The program counter read as a single 16-bit word.
pub open spec fn pc_word(pc: ProgramCounter) -> u16 {
    word_of(pc.pch, pc.pcl)
}

/// The program counter advanced by one; 0xFFFF wraps around to 0x0000.
pub open spec fn pc_inc(pc: ProgramCounter) -> ProgramCounter {
    ProgramCounter { pcl: word_low(inc16(pc_word(pc))), pch: word_high(inc16(pc_word(pc))) }
}

impl ProgramCounter {
    pub fn new() -> (pc: ProgramCounter)
        ensures
            pc == (ProgramCounter { pcl: 0u8, pch: 0u8 }),
    {
        ProgramCounter { pch: 0, pcl: 0 }
    }

    /// Advance the program counter by one; 0xFFFF wraps around to 0x0000.
    #[inline]
    pub fn increment(&mut self)
        ensures
            *final(self) == pc_inc(*old(self)),
            pc_word(*final(self)) == (pc_word(*old(self)) + 1) % 0x10000,
    {
        let w: u16 = u16::from(*self);
        let w2: u16 = if w == 0xFFFF {
            0
        } else {
            w + 1
        };
        *self = ProgramCounter::from(w2);
    }
}

impl core::convert::From<ProgramCounter> for u16 {
    fn from(pc: ProgramCounter) -> (w: u16) {
        (pc.pch as u16) * 256 + (pc.pcl as u16)
    }
}

impl vstd::std_specs::convert::FromSpecImpl<ProgramCounter> for u16 {
    open spec fn obeys_from_spec() -> bool {
        true
    }

    open spec fn from_spec(pc: ProgramCounter) -> u16 {
        pc_word(pc)
    }
}

impl core::convert::From<u16> for ProgramCounter {
    fn from(b: u16) -> (pc: ProgramCounter) {
        ProgramCounter { pcl: (b % 256) as u8, pch: (b / 256) as u8 }
    }
}

impl vstd::std_specs::convert::FromSpecImpl<u16> for ProgramCounter {
    open spec fn obeys_from_spec() -> bool {
        true
    }

    open spec fn from_spec(b: u16) -> ProgramCounter {
        ProgramCounter { pcl: word_low(b), pch: word_high(b) }
    }
}

/// Splitting a word into halves and reassembling them is the identity, so the
/// two `ProgramCounter` conversions invert each other.
pub proof fn lemma_pc_word_round_trip(w: u16, pc: ProgramCounter)
    ensures
        pc_word(ProgramCounter { pcl: word_low(w), pch: word_high(w) }) == w,
        (ProgramCounter { pcl: word_low(pc_word(pc)), pch: word_high(pc_word(pc)) }) == pc,
{
}

/// The current opcode paired with `tm`, the tick within the instruction:
/// 0 during the cycle that fetches the opcode, then incremented every cycle
/// until the instruction terminates.
#[derive(PartialEq, Eq, Structural, Debug, Clone, Copy)]
pub struct InstructionRegister {
    pub opcode: u8,
    pub tm: u8,
}

/// The instruction register read as a single 16-bit word.
pub open spec fn ir_word(ir: InstructionRegister) -> u16 {
    word_of(ir.opcode, ir.tm)
}

impl InstructionRegister {
    pub fn new() -> (ir: InstructionRegister)
        ensures
            ir == (InstructionRegister { opcode: 0u8, tm: 0u8 }),
    {
        InstructionRegister { opcode: 0, tm: 0 }
    }

    /// Latch a freshly fetched opcode and restart the tick counter.
    #[inline]
    pub fn reset(&mut self, opcode: u8)
        ensures
            *final(self) == (InstructionRegister { opcode, tm: 0u8 }),
    {
        self.opcode = opcode;
        self.tm = 0;
    }

    /// Advance the tick counter by one cycle.
    #[inline]
    pub fn increment(&mut self)
        ensures
            *final(self) == (InstructionRegister {
                opcode: old(self).opcode,
                tm: ((old(self).tm + 1) % 256) as u8,
            }),
    {
        self.tm = self.tm.wrapping_add(1);
    }
}

impl core::convert::From<InstructionRegister> for u16 {
    fn from(ir: InstructionRegister) -> (w: u16) {
        (ir.opcode as u16) * 256 + (ir.tm as u16)
    }
}

impl vstd::std_specs::convert::FromSpecImpl<InstructionRegister> for u16 {
    open spec fn obeys_from_spec() -> bool {
        true
    }

    open spec fn from_spec(ir: InstructionRegister) -> u16 {
        ir_word(ir)
    }
}

impl core::convert::From<u16> for InstructionRegister {
    fn from(b: u16) -> (ir: InstructionRegister) {
        InstructionRegister { tm: (b % 256) as u8, opcode: (b / 256) as u8 }
    }
}

impl vstd::std_specs::convert::FromSpecImpl<u16> for InstructionRegister {
    open spec fn obeys_from_spec() -> bool {
        true
    }

    open spec fn from_spec(b: u16) -> InstructionRegister {
        InstructionRegister { tm: word_low(b), opcode: word_high(b) }
    }
}

/// Which interrupt sequence, if any, has been queued or hijacked.
/// `BrkHijack` and `IrqHijack` record that an NMI arrived while a BRK or IRQ
/// sequence was already pushing state, overriding the vector fetch.
#[derive(Debug, PartialEq, Eq, Structural, Clone, Copy)]
pub enum InterruptState {
    Inactive,
    BrkHijack,
    IrqHijack,
    Irq,
    Nmi,
}

/// Scratch latches that carry values between the cycles of a multi-cycle
/// instruction; a real 6502 held these in internal registers and the ALU.
#[derive(PartialEq, Eq, Structural, Debug, Clone, Copy)]
pub struct OpState {
    /// Base address fetched by indexed addressing modes, before indexing.
    pub bal: u8,
    pub bah: u8,
    /// Effective address: where in memory the data is found.
    pub adl: u8,
    pub adh: u8,
    /// Indirect address: the pointer fetched by (indirect),Y addressing.
    pub ial: u8,
    pub iah: u8,
    /// Branch offset and the carry/sign recorded when it is added to PCL.
    pub offset: u8,
    pub offset_carry: bool,
    pub offset_neg: bool,
    pub branch_taken: bool,
    /// Data input latch.
    pub dl: u8,
}

/// The cleared scratch bank, as it stands right after an opcode fetch.
pub open spec fn op_state_clear() -> OpState {
    OpState {
        bal: 0u8,
        bah: 0u8,
        adl: 0u8,
        adh: 0u8,
        ial: 0u8,
        iah: 0u8,
        offset: 0u8,
        offset_carry: false,
        offset_neg: false,
        branch_taken: false,
        dl: 0u8,
    }
}

impl OpState {
    pub fn new() -> (ops: OpState)
        ensures
            ops == op_state_clear(),
    {
        OpState {
            bal: 0,
            bah: 0,
            adl: 0,
            adh: 0,
            ial: 0,
            iah: 0,
            offset: 0,
            offset_carry: false,
            offset_neg: false,
            branch_taken: false,
            dl: 0,
        }
    }

    /// Clear every latch; done whenever a new opcode is latched.
    pub fn reset(&mut self)
        ensures
            *final(self) == op_state_clear(),
    {
        self.bal = 0;
        self.bah = 0;
        self.adl = 0;
        self.adh = 0;
        self.ial = 0;
        self.iah = 0;
        self.offset = 0;
        self.offset_carry = false;
        self.offset_neg = false;
        self.branch_taken = false;
        self.dl = 0;
    }
}

/// The whole CPU state between cycles: architectural registers A, X, Y, SP,
/// the status flags, the program counter, plus the micro-architectural
/// instruction register, scratch bank, interrupt bookkeeping, and the total
/// cycle counter.
///
/// The core samples the NMI and RES pins itself each tick: `nmi_prev_high`
/// and `res_prev_high` remember the level seen on the previous tick so that a
/// high-to-low transition can be detected, and `rst` marks that the 9-cycle
/// reset sequence is in progress.
#[derive(Debug, Clone)]
pub struct Context {
    pub a: u8,
    pub x: u8,
    pub y: u8,
    pub sp: u8,
    pub cycle: u64,
    pub ir: InstructionRegister,
    pub p: FlagsRegister,
    pub pc: ProgramCounter,
    pub ops: OpState,
    pub ints: InterruptState,
    /// Set on a high-to-low transition of the NMI pin; cleared only when an
    /// NMI sequence begins.
    pub nmi_detected: bool,
    /// Level of the NMI pin sampled on the previous tick.
    pub nmi_prev_high: bool,
    /// Level of the RES pin sampled on the previous tick.
    pub res_prev_high: bool,
    /// True while the reset pseudo-opcode is running; `ir.tm` then counts its
    /// nine cycles.  Set at power-on, so the first ticks run the reset.
    pub rst: bool,
}

/// The power-on state: registers zeroed, Interrupt-Disable set (the status
/// byte serialises to 0x24), no interrupt pending, and the reset sequence
/// about to run its first cycle.
pub open spec fn power_on_context() -> Context {
    Context {
        a: 0u8,
        x: 0u8,
        y: 0u8,
        sp: 0u8,
        cycle: 0u64,
        ir: InstructionRegister { opcode: 0u8, tm: 0u8 },
        p: byte_flags(0x24u8),
        pc: ProgramCounter { pcl: 0u8, pch: 0u8 },
        ops: op_state_clear(),
        ints: InterruptState::Inactive,
        nmi_detected: false,
        nmi_prev_high: false,
        res_prev_high: false,
        rst: true,
    }
}

impl Context {
    pub fn new() -> (c: Context)
        ensures
            c == power_on_context(),
    {
        Context {
            a: 0,
            x: 0,
            y: 0,
            sp: 0,
            cycle: 0,
            ir: InstructionRegister::new(),
            p: FlagsRegister::from(0x24),
            pc: ProgramCounter::from(0),
            ops: OpState::new(),
            ints: InterruptState::Inactive,
            nmi_detected: false,
            nmi_prev_high: false,
            res_prev_high: false,
            rst: true,
        }
    }
}

/// The program counter wraps: one step past the top of the address space is
/// address zero.
pub proof fn lemma_pc_wraparound()
    ensures
        pc_inc(ProgramCounter { pcl: 0xFFu8, pch: 0xFFu8 }) == (ProgramCounter {
            pcl: 0u8,
            pch: 0u8,
        }),
{
}

} // verus!
