//! The bus port: the only channel through which the core touches the outside
//! world, together with a plain 64 KiB RAM that implements it.

use crate::pins::{Pin, Pinout};
use vstd::prelude::*;

verus! {

/// One transaction seen on the bus.
#[derive(Debug, PartialEq, Eq, Structural, Clone, Copy)]
pub enum BusOp {
    Read { addr: u16, data: u8 },
    Write { addr: u16, data: u8 },
}

/// The transaction a pinout snapshot reports: the driven address, the
/// direction of the `rw` line, and the byte on the data lines.
pub open spec fn pin_bus_op(p: Pinout) -> BusOp {
    if p.rw == Pin::On {
        BusOp::Read { addr: p.address, data: p.data }
    } else {
        BusOp::Write { addr: p.address, data: p.data }
    }
}

/// A memory map the host hangs behind the CPU.  Both operations are
/// synchronous and infallible; a read may return any byte, including bytes
/// with side effects (memory-mapped I/O).
///
/// `ops` is the ghost history of transactions the port has served, oldest
/// first; each call appends exactly one entry, which is how the cycle engine
/// states that every cycle performs exactly one bus operation.
pub trait Bus {
    spec fn ops(&self) -> Seq<BusOp>;

    /// Fetch the byte currently at `addr`; one bus transaction.
    fn read(&mut self, addr: u16) -> (data: u8)
        ensures
            final(self).ops() == old(self).ops().push(BusOp::Read { addr, data }),
    ;

    /// Store `data` at `addr`; one bus transaction.
    fn write(&mut self, addr: u16, data: u8)
        ensures
            final(self).ops() == old(self).ops().push(BusOp::Write { addr, data }),
    ;
}

/// A flat 64 KiB RAM with no mirroring and no side effects: the simplest
/// host-side memory, handy for harnesses and small machines.
pub struct FlatRam {
    mem: Vec<u8>,
    history: Ghost<Seq<BusOp>>,
}

impl FlatRam {
    #[verifier::type_invariant]
    spec fn type_inv(self) -> bool {
        self.mem.len() == 0x10000
    }

    /// The byte stored at each address.
    pub closed spec fn mem_at(self, addr: u16) -> u8 {
        self.mem[addr as int]
    }

    /// Fresh RAM, all bytes zero, empty history.
    pub fn new() -> (ram: FlatRam)
        ensures
            ram.ops() == Seq::<BusOp>::empty(),
            forall|a: u16| ram.mem_at(a) == 0u8,
    {
        let mut mem: Vec<u8> = Vec::new();
        let mut i: usize = 0;
        while i < 0x10000
            invariant
                i <= 0x10000,
                mem.len() == i,
                forall|j: int| 0 <= j < i ==> mem[j] == 0u8,
            decreases 0x10000 - i,
        {
            mem.push(0);
            i = i + 1;
        }
        FlatRam { mem, history: Ghost(Seq::empty()) }
    }

    /// Read a byte without going through the bus port; for harnesses that
    /// inspect memory.  Leaves the history alone.
    pub fn peek(&self, addr: u16) -> (data: u8)
        ensures
            data == self.mem_at(addr),
    {
        proof {
            use_type_invariant(self);
        }
        self.mem[addr as usize]
    }

    /// Store a byte without going through the bus port; for harnesses that
    /// set up memory.  Leaves the history alone.
    pub fn poke(&mut self, addr: u16, data: u8)
        ensures
            final(self).ops() == old(self).ops(),
            final(self).mem_at(addr) == data,
            forall|a: u16| a != addr ==> final(self).mem_at(a) == old(self).mem_at(a),
    {
        proof {
            use_type_invariant(&*self);
        }
        self.mem[addr as usize] = data;
    }
}

impl Bus for FlatRam {
    closed spec fn ops(&self) -> Seq<BusOp> {
        self.history@
    }

    fn read(&mut self, addr: u16) -> (data: u8)
        ensures
            data == old(self).mem_at(addr),
            forall|a: u16| final(self).mem_at(a) == old(self).mem_at(a),
    {
        proof {
            use_type_invariant(&*self);
        }
        let data = self.mem[addr as usize];
        proof {
            self.history@ = self.history@.push(BusOp::Read { addr, data });
        }
        data
    }

    fn write(&mut self, addr: u16, data: u8)
        ensures
            final(self).mem_at(addr) == data,
            forall|a: u16| a != addr ==> final(self).mem_at(a) == old(self).mem_at(a),
    {
        proof {
            use_type_invariant(&*self);
        }
        self.mem[addr as usize] = data;
        proof {
            self.history@ = self.history@.push(BusOp::Write { addr, data });
        }
    }
}

} // verus!
