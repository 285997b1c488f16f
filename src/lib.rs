//! Blocking I2C bus master for the I2C1 peripheral.
//!
//! The clock resolver turns a bus configuration into timing register values.
//! The engine describes each transaction as a program of waits on the status
//! registers, register commands, buffer reads and a final error check; a
//! `Transfer` walks such a program, taking every decision from the status
//! values it is handed.

pub mod i2c;
pub mod laws;
pub mod pins;
pub mod regs;
pub mod timing;
pub mod transfer;
