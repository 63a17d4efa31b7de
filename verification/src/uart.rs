//! The UART transmit path: one byte-wide write-only register at a fixed
//! address, and a transmitter that forwards a byte sequence to it one byte
//! at a time, in order.

use vstd::prelude::*;
use crate::mmio::{MmioBus, MmioWrite};

verus! {

/// Address of the UART transmit register. Writing a byte here transmits it
/// over the UART line; this is the design's only configuration point.
pub const UART_TX_ADDR: usize = 0x02000000;

/// The stores that transmitting the byte sequence `s` appends to the bus
/// log: one store of each byte to the transmit register, in order.
pub open spec fn uart_writes_of(s: Seq<u8>) -> Seq<MmioWrite> {
    s.map_values(|b: u8| MmioWrite { addr: UART_TX_ADDR, val: b })
}

/// The bus log after transmitting `s` on a bus whose log was `log`: the
/// old log, followed by one full pass over `s`.
pub open spec fn puts_effect(log: Seq<MmioWrite>, s: Seq<u8>) -> Seq<MmioWrite> {
    log + uart_writes_of(s)
}

/// Transmit one byte: a single store to the transmit register.
pub fn uart_putc(bus: &mut MmioBus, c: u8)
    ensures
        final(bus).log() == old(bus).log().push(MmioWrite { addr: UART_TX_ADDR, val: c }),
{
    bus.write_mmio(UART_TX_ADDR, c);
}

/// Transmit a byte sequence: one store per byte, strictly in order, with no
/// byte skipped or duplicated. The addresses written are the transmit
/// register's, repeated once per byte, and the values written are exactly
/// the input bytes; an empty input performs no store at all.
pub fn uart_puts(bus: &mut MmioBus, s: &[u8])
    ensures
        final(bus).log() == puts_effect(old(bus).log(), s@),
        final(bus).vals() == old(bus).vals() + s@,
        final(bus).addrs() == old(bus).addrs() + Seq::new(s@.len(), |i: int| UART_TX_ADDR),
        s@.len() == 0 ==> final(bus).log() == old(bus).log(),
{
    let mut i: usize = 0;
    while i < s.len()
        invariant
            i <= s@.len(),
            bus.log() == old(bus).log() + uart_writes_of(s@.subrange(0, i as int)),
        decreases s@.len() - i,
    {
        uart_putc(bus, s[i]);
        proof {
            assert(bus.log() =~= old(bus).log() + uart_writes_of(
                s@.subrange(0, i + 1),
            ));
        }
        i = i + 1;
    }
    proof {
        assert(s@.subrange(0, s@.len() as int) =~= s@);
        assert(bus.vals() =~= old(bus).vals() + s@);
        assert(bus.addrs() =~= old(bus).addrs() + Seq::new(s@.len(), |i: int| UART_TX_ADDR));
        assert(s@.len() == 0 ==> bus.log() =~= old(bus).log());
    }
}

/// Law: transmitting the same sequence twice appends two full, identical,
/// back-to-back passes over the register — the transmitter neither memoizes
/// nor short-circuits, and the second pass does not disturb the first.
pub proof fn lemma_transmit_twice(log: Seq<MmioWrite>, s: Seq<u8>)
    ensures
        puts_effect(puts_effect(log, s), s) == log + uart_writes_of(s) + uart_writes_of(s),
        puts_effect(puts_effect(log, s), s).subrange(
            log.len() as int,
            (log.len() + s.len()) as int,
        ) == uart_writes_of(s),
        puts_effect(puts_effect(log, s), s).subrange(
            (log.len() + s.len()) as int,
            (log.len() + 2 * s.len()) as int,
        ) == uart_writes_of(s),
{
    assert(puts_effect(puts_effect(log, s), s).subrange(
        log.len() as int,
        (log.len() + s.len()) as int,
    ) =~= uart_writes_of(s));
    assert(puts_effect(puts_effect(log, s), s).subrange(
        (log.len() + s.len()) as int,
        (log.len() + 2 * s.len()) as int,
    ) =~= uart_writes_of(s));
}

} // verus!
