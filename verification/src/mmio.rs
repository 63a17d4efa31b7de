//! Memory-mapped I/O, modelled as a bus that records every byte-wide store.
//!
//! On the real hardware a store to a device address is fire-and-forget: the
//! byte is latched by the device and nothing can be read back. What the
//! device observes is exactly the sequence of stores, in program order, so
//! the bus model keeps that sequence as a log. Every contract about the
//! firmware's output is stated over this log.

use vstd::prelude::*;

verus! {

/// One byte-wide store as the bus observes it: the target address and the
/// value latched there.
#[derive(Clone, Copy, Debug, PartialEq, Eq, Structural)]
pub struct MmioWrite {
    pub addr: usize,
    pub val: u8,
}

/// The memory bus seen by the device side: the log of every byte-wide store
/// performed so far, oldest first. Nothing is ever read back or removed;
/// a store only appends.
pub struct MmioBus {
    writes: Vec<MmioWrite>,
}

impl MmioBus {
    /// The stores performed so far, in program order.
    pub closed spec fn log(&self) -> Seq<MmioWrite> {
        self.writes@
    }

    /// The addresses stored to, in program order.
    pub open spec fn addrs(&self) -> Seq<usize> {
        self.log().map_values(|w: MmioWrite| w.addr)
    }

    /// The values stored, in program order.
    pub open spec fn vals(&self) -> Seq<u8> {
        self.log().map_values(|w: MmioWrite| w.val)
    }

    /// A bus on which no store has happened yet: power-on state.
    pub fn new() -> (bus: MmioBus)
        ensures
            bus.log() == Seq::<MmioWrite>::empty(),
    {
        MmioBus { writes: Vec::new() }
    }

    /// Store one byte to a device address. The byte is latched by whatever
    /// sits at that address; software sees no acknowledgment, only the
    /// side effect of the log growing by this one store.
    pub fn write_mmio(&mut self, addr: usize, val: u8)
        ensures
            final(self).log() == old(self).log().push(MmioWrite { addr, val }),
    {
        self.writes.push(MmioWrite { addr, val });
    }

    /// How many stores have been performed.
    pub fn write_count(&self) -> (n: usize)
        ensures
            n == self.log().len(),
    {
        self.writes.len()
    }

    /// The `i`-th store, oldest first.
    pub fn write_at(&self, i: usize) -> (w: MmioWrite)
        requires
            i < self.log().len(),
        ensures
            w == self.log()[i as int],
    {
        self.writes[i]
    }
}

} // verus!
