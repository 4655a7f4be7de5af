//! Error taxonomy of the dispatcher.

use vstd::prelude::*;

verus! {

/// `std::io::ErrorKind`, the classification an I/O failure carries. Nothing is
/// claimed of its variants: a value is only handed on.
#[verifier::external_type_specification]
#[verifier::external_body]
pub struct ExIoErrorKind(std::io::ErrorKind);

/// Why an exchange on the UART failed, without the driver's message text.
#[derive(Clone, Copy, Debug, PartialEq, Eq)]
pub enum UartFailure {
    /// The driver gave no closer classification.
    Generic,
    /// The operating system reported an I/O failure of this kind. A read that
    /// ran into its timeout is reported as `std::io::ErrorKind::TimedOut`.
    Io(std::io::ErrorKind),
    /// The serial device is missing or went away.
    NoDevice,
    /// The port rejected a setting or an argument.
    InvalidInput,
    /// The port is held by another user.
    PortBusy,
}

/// What went wrong in a dispatcher call, or that nothing did.
#[derive(Clone, Copy, Debug, PartialEq, Eq)]
pub enum ExampleError {
    /// Nothing went wrong.
    NoError,
    /// A set addressed the aggregate selector.
    SetErr,
    /// The I2C transfer itself failed; the kind is the transport's.
    I2CError(std::io::ErrorKind),
    /// The I2C transfer went through, but the payload did not acknowledge the
    /// set with the expected byte.
    I2CSet,
    /// A write to or a read from the UART failed.
    UARTError(UartFailure),
}

pub type ExampleResult<T> = Result<T, ExampleError>;

/// The error a result stands for in the diagnostics: `NoError` for success.
pub open spec fn error_of<T>(res: ExampleResult<T>) -> ExampleError {
    match res {
        Ok(_) => ExampleError::NoError,
        Err(e) => e,
    }
}

} // verus!
