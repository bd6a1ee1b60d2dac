//! Sensorless six-step commutation for a three-phase brushless motor, with the
//! register-level framing of the companion radio receiver.
//!
//! Everything here is a function of plain values: the hardware is driven by the
//! caller, which performs the [`port::PortAction`]s that the sequencer hands out
//! and feeds timer and comparator events back in.

pub mod bsp;
pub mod debounce;
pub mod nrf24_syma;
pub mod nrf24l01;
pub mod port;
pub mod sampler;
pub mod sequencer;
pub mod sip;
pub mod table;
