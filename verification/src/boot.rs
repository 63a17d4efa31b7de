//! The boot sequence and fault handling, as a small state machine.
//!
//! At power-on the firmware transmits the fixed greeting once and then
//! halts in an idle loop that does nothing, forever. Any unrecoverable
//! runtime fault enters a handler that likewise loops forever and, in
//! particular, never writes to the UART register. Both terminal loops are
//! modelled as absorbing states of a step function: one step in either of
//! them changes nothing, so iterating steps changes nothing either.

use vstd::prelude::*;
use crate::mmio::{MmioBus, MmioWrite};
use crate::uart::{puts_effect, uart_puts};

verus! {

/// The bytes of the fixed greeting, the UTF-8 encoding of
/// "Hello, World from Rust on PicoRV32!\r\n".
pub open spec fn greeting() -> Seq<u8> {
    seq![
        72u8, 101u8, 108u8, 108u8, 111u8, 44u8, 32u8, 87u8, 111u8, 114u8, 108u8, 100u8, 32u8,
        102u8, 114u8, 111u8, 109u8, 32u8, 82u8, 117u8, 115u8, 116u8, 32u8, 111u8, 110u8, 32u8,
        80u8, 105u8, 99u8, 111u8, 82u8, 86u8, 51u8, 50u8, 33u8, 13u8, 10u8,
    ]
}

/// The greeting as an executable byte vector.
pub fn greeting_bytes() -> (v: Vec<u8>)
    ensures
        v@ == greeting(),
{
    let v: Vec<u8> = vec![
        72u8, 101u8, 108u8, 108u8, 111u8, 44u8, 32u8, 87u8, 111u8, 114u8, 108u8, 100u8, 32u8,
        102u8, 114u8, 111u8, 109u8, 32u8, 82u8, 117u8, 115u8, 116u8, 32u8, 111u8, 110u8, 32u8,
        80u8, 105u8, 99u8, 111u8, 82u8, 86u8, 51u8, 50u8, 33u8, 13u8, 10u8,
    ];
    proof {
        assert(v@ =~= greeting());
    }
    v
}

/// The firmware's control state.
///
/// `Transmitting` is the initial state; the one transition out of it sends
/// the greeting and halts. `Halted` is the normal terminal state and
/// `Faulted` the terminal state of the fault handler; both are absorbing
/// and silent.
#[derive(Clone, Copy, Debug, PartialEq, Eq, Structural)]
pub enum FirmwareState {
    Transmitting,
    Halted,
    Faulted,
}

/// What one step of the firmware does to the control state and the bus log.
pub open spec fn spec_step(st: FirmwareState, log: Seq<MmioWrite>) -> (FirmwareState, Seq<
    MmioWrite,
>) {
    match st {
        FirmwareState::Transmitting => (FirmwareState::Halted, puts_effect(log, greeting())),
        FirmwareState::Halted => (st, log),
        FirmwareState::Faulted => (st, log),
    }
}

/// The state and log after `n` steps from `st` and `log`.
pub open spec fn spec_run(st: FirmwareState, log: Seq<MmioWrite>, n: nat) -> (FirmwareState, Seq<
    MmioWrite,
>)
    decreases n,
{
    if n == 0 {
        (st, log)
    } else {
        spec_run(spec_step(st, log).0, spec_step(st, log).1, (n - 1) as nat)
    }
}

/// Run one step of the firmware: transmit the greeting and halt when still
/// transmitting; do nothing at all in either terminal state.
pub fn step(st: &mut FirmwareState, bus: &mut MmioBus)
    ensures
        *final(st) == spec_step(*old(st), old(bus).log()).0,
        final(bus).log() == spec_step(*old(st), old(bus).log()).1,
{
    match *st {
        FirmwareState::Transmitting => {
            let g = greeting_bytes();
            uart_puts(bus, g.as_slice());
            *st = FirmwareState::Halted;
        },
        FirmwareState::Halted => {},
        FirmwareState::Faulted => {},
    }
}

/// The entry point's one pass: from power-on, transmit the greeting once,
/// then hand back the halted state in which the firmware idles forever.
pub fn start(bus: &mut MmioBus) -> (st: FirmwareState)
    ensures
        st == FirmwareState::Halted,
        final(bus).log() == puts_effect(old(bus).log(), greeting()),
{
    let mut st = FirmwareState::Transmitting;
    step(&mut st, bus);
    st
}

/// The fault handler: on an unrecoverable fault, enter the terminal
/// `Faulted` state. It performs no store — in particular it does not try
/// to report the fault over the UART, which might itself be the source of
/// the fault.
pub fn fault(st: &mut FirmwareState, bus: &mut MmioBus)
    ensures
        *final(st) == FirmwareState::Faulted,
        *final(bus) == *old(bus),
{
    *st = FirmwareState::Faulted;
}

/// Law: the halted state is a true fixed point — once the boot sequence
/// has halted, any number of further steps leaves the state and the bus
/// log exactly as they are, so no further write ever occurs.
pub proof fn lemma_halted_fixed_point(log: Seq<MmioWrite>, n: nat)
    ensures
        spec_run(FirmwareState::Halted, log, n) == (FirmwareState::Halted, log),
    decreases n,
{
    if n > 0 {
        lemma_halted_fixed_point(log, (n - 1) as nat);
    }
}

/// Law: the fault handler never returns to useful work — from the faulted
/// state, any number of further steps stays faulted and performs zero
/// writes to the register.
pub proof fn lemma_faulted_silent(log: Seq<MmioWrite>, n: nat)
    ensures
        spec_run(FirmwareState::Faulted, log, n) == (FirmwareState::Faulted, log),
    decreases n,
{
    if n > 0 {
        lemma_faulted_silent(log, (n - 1) as nat);
    }
}

/// Law: end to end, boot writes exactly the greeting. From power-on, after
/// any positive number of steps, the firmware is halted and the bus log
/// holds exactly one pass over the greeting bytes — and nothing more,
/// however long it runs.
pub proof fn lemma_boot_output(log: Seq<MmioWrite>, n: nat)
    requires
        n >= 1,
    ensures
        spec_run(FirmwareState::Transmitting, log, n) == (FirmwareState::Halted, puts_effect(
            log,
            greeting(),
        )),
{
    lemma_halted_fixed_point(puts_effect(log, greeting()), (n - 1) as nat);
}

} // verus!
