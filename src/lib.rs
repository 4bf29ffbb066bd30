//! Typed access to the Interrupt Enable Register of a 16550-class UART.

pub mod ier;
pub mod io;
pub mod register;

pub use ier::{InterruptTypes, IER};
pub use io::{RegisterFile, Uart16550IO};
pub use register::Register;
