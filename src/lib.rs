//! Monitoring library for a voltage-sensing device behind a register bus.
//!
//! Voltages are carried as whole millivolts. The device counts in steps of
//! 16 mV, held in the low twelve bits of a sixteen-bit register word.
pub mod codec;
pub mod config;
pub mod device;
pub mod multiplexer;
pub mod sample;
pub mod tracker;
