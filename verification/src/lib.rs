//! A minimal firmware model for a PicoRV32-class microcontroller that sends a
//! fixed greeting over a memory-mapped UART transmit register and then halts.
//!
//! The hardware bus is modelled as a log of byte-wide stores, so that every
//! claim about what the firmware writes — which bytes, to which address, in
//! which order — is stated and proved over that log.

pub mod boot;
pub mod mmio;
pub mod uart;
