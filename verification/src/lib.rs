//! A command dispatcher for an attached payload: one get/set surface over a
//! small set of held values, an I2C transport and a UART transport.
//!
//! The crate is sans-I/O. The dispatcher says what is to be sent and how long
//! to wait, and judges what came back; the caller owns the connections and
//! performs the exchanges. Every step is verified against a contract over
//! the mathematical views of the types involved.

pub mod dispatcher;
pub mod error;
pub mod payload;
pub mod values;
pub mod wire;

pub use crate::dispatcher::{CommandView, DispatcherView, ExampleStruct, InputEnum};
pub use crate::error::{ExampleError, ExampleResult, UartFailure};
pub use crate::payload::{ExampleEnum, ExampleInput, ExampleOutput};
pub use crate::wire::{I2cCommand, I2cReply, I2cTransfer, UartRead, UartReply, UartWritten};
