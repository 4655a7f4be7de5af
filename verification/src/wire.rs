//! Wire formats of the two transports: opcodes, requests, timing, and what a
//! reply means.
//!
//! Nothing here touches a device. A request says what is to be sent and how
//! long to wait; a reply is what the transport handed back, or the kind of
//! its failure.

use crate::error::{ExampleError, ExampleResult, UartFailure};
use vstd::prelude::*;

verus! {

/// I2C opcode that asks the payload for its value.
pub const I2C_GET: u8 = 0x01;

/// I2C opcode that hands the payload a value; the payload echoes it.
pub const I2C_SET: u8 = 0x10;

/// UART opcode that asks the payload for its value.
pub const UART_GET: u8 = 0x02;

/// UART opcode that hands the payload a value.
pub const UART_SET: u8 = 0x20;

/// Number of bytes in every reply.
pub const REPLY_LEN: usize = 1;

/// Milliseconds within which an I2C transfer must complete.
pub const I2C_DELAY_MS: u64 = 50;

/// Milliseconds the payload needs between a UART get and its reply.
pub const UART_SETTLE_MS: u64 = 10;

/// Milliseconds a UART read may wait for the reply.
pub const UART_READ_TIMEOUT_MS: u64 = 1;

/// What goes out in an I2C transfer: an opcode and its payload bytes.
#[derive(Clone, Debug, PartialEq, Eq)]
pub struct I2cCommand {
    pub cmd: u8,
    pub data: Vec<u8>,
}

/// One atomic I2C exchange: send `command`, then receive `rx_len` bytes
/// within `delay_ms` milliseconds.
#[derive(Clone, Debug, PartialEq, Eq)]
pub struct I2cTransfer {
    pub command: I2cCommand,
    pub rx_len: usize,
    pub delay_ms: u64,
}

/// An `I2cTransfer` as a mathematical value.
#[verifier::ext_equal]
pub struct TransferView {
    pub cmd: u8,
    pub data: Seq<u8>,
    pub rx_len: usize,
    pub delay_ms: u64,
}

impl View for I2cTransfer {
    type V = TransferView;

    open spec fn view(&self) -> TransferView {
        TransferView {
            cmd: self.command.cmd,
            data: self.command.data@,
            rx_len: self.rx_len,
            delay_ms: self.delay_ms,
        }
    }
}

impl TransferView {
    /// The transfer of a get: the get opcode alone, one byte back.
    pub open spec fn get() -> TransferView {
        TransferView {
            cmd: I2C_GET,
            data: Seq::empty(),
            rx_len: REPLY_LEN,
            delay_ms: I2C_DELAY_MS,
        }
    }

    /// The transfer of a set of `value`: the set opcode and the value, one
    /// byte back.
    pub open spec fn set(value: u8) -> TransferView {
        TransferView {
            cmd: I2C_SET,
            data: seq![value],
            rx_len: REPLY_LEN,
            delay_ms: I2C_DELAY_MS,
        }
    }
}

impl I2cTransfer {
    /// Builds the transfer that asks the payload for its value.
    pub fn get() -> (transfer: I2cTransfer)
        ensures
            transfer@ == TransferView::get(),
    {
        let data: Vec<u8> = Vec::new();
        I2cTransfer {
            command: I2cCommand { cmd: I2C_GET, data },
            rx_len: REPLY_LEN,
            delay_ms: I2C_DELAY_MS,
        }
    }

    /// Builds the transfer that hands the payload `value`.
    pub fn set(value: u8) -> (transfer: I2cTransfer)
        ensures
            transfer@ == TransferView::set(value),
    {
        let mut data: Vec<u8> = Vec::new();
        data.push(value);
        I2cTransfer {
            command: I2cCommand { cmd: I2C_SET, data },
            rx_len: REPLY_LEN,
            delay_ms: I2C_DELAY_MS,
        }
    }
}

/// A timed UART read: wait `settle_ms` milliseconds, then read `len` bytes,
/// giving up after `timeout_ms` milliseconds.
#[derive(Clone, Copy, Debug, PartialEq, Eq)]
pub struct UartRead {
    pub settle_ms: u64,
    pub len: usize,
    pub timeout_ms: u64,
}

impl UartRead {
    /// The read that collects the reply to a get.
    pub open spec fn spec_reply() -> UartRead {
        UartRead { settle_ms: UART_SETTLE_MS, len: REPLY_LEN, timeout_ms: UART_READ_TIMEOUT_MS }
    }

    /// Builds the read that collects the reply to a get.
    #[verifier::when_used_as_spec(spec_reply)]
    pub fn reply() -> (read: UartRead)
        ensures
            read == Self::spec_reply(),
    {
        UartRead { settle_ms: UART_SETTLE_MS, len: REPLY_LEN, timeout_ms: UART_READ_TIMEOUT_MS }
    }
}

/// The bytes of a UART get: the opcode alone.
pub open spec fn uart_get_bytes() -> Seq<u8> {
    seq![UART_GET]
}

/// The bytes of a UART set of `value`: the opcode, then the value.
pub open spec fn uart_set_bytes(value: u8) -> Seq<u8> {
    seq![UART_SET, value]
}

/// Builds the frame of a UART get.
pub fn uart_get_frame() -> (frame: Vec<u8>)
    ensures
        frame@ == uart_get_bytes(),
{
    let mut frame: Vec<u8> = Vec::new();
    frame.push(UART_GET);
    frame
}

/// Builds the frame of a UART set of `value`.
pub fn uart_set_frame(value: u8) -> (frame: Vec<u8>)
    ensures
        frame@ == uart_set_bytes(value),
{
    let mut frame: Vec<u8> = Vec::new();
    frame.push(UART_SET);
    frame.push(value);
    frame
}

/// What an I2C transfer gave: the bytes received, or the kind of its failure.
pub type I2cReply = Result<Vec<u8>, std::io::ErrorKind>;

/// What a UART write gave.
pub type UartWritten = Result<(), UartFailure>;

/// What a UART read gave: the bytes received, or why there are none.
pub type UartReply = Result<Vec<u8>, UartFailure>;

/// A result that carries bytes, with the bytes as a sequence.
pub open spec fn bytes_of<E>(res: Result<Vec<u8>, E>) -> Result<Seq<u8>, E> {
    match res {
        Ok(bytes) => Ok(bytes@),
        Err(e) => Err(e),
    }
}

/// What an I2C get returns for a reply: the bytes as they came, or the
/// transport's failure as an `I2CError`.
pub open spec fn i2c_get_outcome(reply: Result<Seq<u8>, std::io::ErrorKind>) -> Result<
    Seq<u8>,
    ExampleError,
> {
    match reply {
        Ok(bytes) => Ok(bytes),
        Err(kind) => Err(ExampleError::I2CError(kind)),
    }
}

/// What an I2C set returns for a reply: success when the reply is the set
/// opcode and nothing else, `I2CSet` for any other bytes, and the
/// transport's failure as an `I2CError`.
pub open spec fn i2c_set_outcome(reply: Result<Seq<u8>, std::io::ErrorKind>) -> ExampleResult<()> {
    match reply {
        Ok(bytes) => if bytes.len() == 1 && bytes[0] == I2C_SET {
            Ok(())
        } else {
            Err(ExampleError::I2CSet)
        },
        Err(kind) => Err(ExampleError::I2CError(kind)),
    }
}

/// What a UART write means for the call: success, or the failure as a
/// `UARTError`.
pub open spec fn uart_write_outcome(written: UartWritten) -> ExampleResult<()> {
    match written {
        Ok(_) => Ok(()),
        Err(failure) => Err(ExampleError::UARTError(failure)),
    }
}

/// What a UART get returns for what the read gave: the bytes as they came,
/// or the failure as a `UARTError`.
pub open spec fn uart_read_outcome(reply: Result<Seq<u8>, UartFailure>) -> Result<
    Seq<u8>,
    ExampleError,
> {
    match reply {
        Ok(bytes) => Ok(bytes),
        Err(failure) => Err(ExampleError::UARTError(failure)),
    }
}

/// Turns the reply to an I2C get into the call's result.
pub fn check_i2c_get(reply: I2cReply) -> (res: ExampleResult<Vec<u8>>)
    ensures
        bytes_of(res) == i2c_get_outcome(bytes_of(reply)),
{
    match reply {
        Ok(bytes) => Ok(bytes),
        Err(kind) => Err(ExampleError::I2CError(kind)),
    }
}

/// Turns the reply to an I2C set into the call's result.
pub fn check_i2c_set(reply: I2cReply) -> (res: ExampleResult<()>)
    ensures
        res == i2c_set_outcome(bytes_of(reply)),
{
    match reply {
        Ok(bytes) => {
            if bytes.len() == 1 && bytes[0] == I2C_SET {
                Ok(())
            } else {
                Err(ExampleError::I2CSet)
            }
        },
        Err(kind) => Err(ExampleError::I2CError(kind)),
    }
}

/// Turns what a UART write gave into the call's result.
pub fn check_uart_write(written: UartWritten) -> (res: ExampleResult<()>)
    ensures
        res == uart_write_outcome(written),
{
    match written {
        Ok(_) => Ok(()),
        Err(failure) => Err(ExampleError::UARTError(failure)),
    }
}

/// Turns what the UART read gave into the result of a get.
pub fn check_uart_read(reply: UartReply) -> (res: ExampleResult<Vec<u8>>)
    ensures
        bytes_of(res) == uart_read_outcome(bytes_of(reply)),
{
    match reply {
        Ok(bytes) => Ok(bytes),
        Err(failure) => Err(ExampleError::UARTError(failure)),
    }
}

/// An I2C set succeeds exactly when the payload answers with the set opcode
/// and nothing else. Whatever else the transfer brings back, a different
/// byte or a different number of bytes, is an acknowledgement mismatch.
pub proof fn lemma_i2c_set_acknowledged(bytes: Seq<u8>)
    ensures
        i2c_set_outcome(Ok(bytes)) == Ok::<(), ExampleError>(()) <==> bytes == seq![I2C_SET],
        bytes != seq![I2C_SET] ==> i2c_set_outcome(Ok(bytes)) == Err::<(), ExampleError>(
            ExampleError::I2CSet,
        ),
{
    if bytes.len() == 1 && bytes[0] == I2C_SET {
        assert(bytes =~= seq![I2C_SET]);
    }
}

/// A transport that fails never yields success: the failure comes back as
/// `I2CError` from both I2C calls and as `UARTError` from every UART step.
pub proof fn lemma_transport_failure(kind: std::io::ErrorKind, failure: UartFailure)
    ensures
        i2c_get_outcome(Err(kind)) == Err::<Seq<u8>, ExampleError>(ExampleError::I2CError(kind)),
        i2c_set_outcome(Err(kind)) == Err::<(), ExampleError>(ExampleError::I2CError(kind)),
        uart_write_outcome(Err(failure)) == Err::<(), ExampleError>(
            ExampleError::UARTError(failure),
        ),
        uart_read_outcome(Err(failure)) == Err::<Seq<u8>, ExampleError>(
            ExampleError::UARTError(failure),
        ),
{
}

} // verus!
