//! The command dispatcher: one get/set surface over the held values, the I2C
//! payload and the UART payload, with a record of the last command and the
//! last error.
//!
//! The dispatcher performs no I/O. A call that needs the wire comes in steps:
//! the first records the command and returns what is to be sent; the caller
//! performs the exchange and hands what came back to the next step, which
//! validates it, records the outcome and returns the call's result.

use crate::error::{error_of, ExampleError, ExampleResult, UartFailure};
use crate::payload::{ExampleEnum, ExampleInput, ExampleOutput, InputView};
use crate::values::ValuesView;
use crate::wire::{
    bytes_of, check_i2c_get, check_i2c_set, check_uart_read, check_uart_write, i2c_get_outcome,
    i2c_set_outcome, uart_get_bytes, uart_get_frame, uart_read_outcome, uart_set_bytes,
    uart_set_frame, uart_write_outcome, I2cReply, I2cTransfer, TransferView, UartRead, UartReply,
    UartWritten,
};
use vstd::prelude::*;

verus! {

/// A command as the dispatcher records it, with the data it was given.
#[derive(Clone, Debug, PartialEq, Eq)]
pub enum InputEnum {
    /// No command was issued yet.
    NoCommand,
    GetValues(ExampleEnum),
    SetValues(ExampleInput, ExampleEnum),
    GetI2c,
    SetI2c(u8),
    GetUart,
    SetUart(u8),
}

/// An `InputEnum` as a mathematical value.
#[verifier::ext_equal]
pub enum CommandView {
    NoCommand,
    GetValues(ExampleEnum),
    SetValues(InputView, ExampleEnum),
    GetI2c,
    SetI2c(u8),
    GetUart,
    SetUart(u8),
}

impl View for InputEnum {
    type V = CommandView;

    open spec fn view(&self) -> CommandView {
        match *self {
            InputEnum::NoCommand => CommandView::NoCommand,
            InputEnum::GetValues(g) => CommandView::GetValues(g),
            InputEnum::SetValues(s, e) => CommandView::SetValues(s@, e),
            InputEnum::GetI2c => CommandView::GetI2c,
            InputEnum::SetI2c(i) => CommandView::SetI2c(i),
            InputEnum::GetUart => CommandView::GetUart,
            InputEnum::SetUart(input) => CommandView::SetUart(input),
        }
    }
}

/// All that a dispatcher holds: the values, the command last attempted and
/// the error last met.
#[verifier::ext_equal]
pub struct DispatcherView {
    pub values: ValuesView,
    pub last_command: CommandView,
    pub last_error: ExampleError,
}

impl DispatcherView {
    /// A fresh dispatcher: initial values, no command, no error.
    pub open spec fn initial() -> DispatcherView {
        DispatcherView {
            values: ValuesView::initial(),
            last_command: CommandView::NoCommand,
            last_error: ExampleError::NoError,
        }
    }

    /// The same dispatcher after `command` was recorded as attempted.
    pub open spec fn attempted(self, command: CommandView) -> DispatcherView {
        DispatcherView { last_command: command, ..self }
    }

    /// The same dispatcher after a call ended with `error`.
    pub open spec fn concluded(self, error: ExampleError) -> DispatcherView {
        DispatcherView { last_error: error, ..self }
    }
}

/// Recording a command replaces the last command with exactly that command
/// and touches neither a value nor the last error; recording an outcome
/// replaces the last error and touches neither a value nor the last command.
pub proof fn lemma_record_keeps_values(d: DispatcherView, command: CommandView, error: ExampleError)
    ensures
        d.attempted(command).last_command == command,
        d.attempted(command).values == d.values,
        d.attempted(command).last_error == d.last_error,
        d.concluded(error).last_error == error,
        d.concluded(error).values == d.values,
        d.concluded(error).last_command == d.last_command,
{
}

/// The dispatcher. It owns the values and the record of the last command and
/// the last error; nothing else can change them.
#[derive(Debug)]
pub struct ExampleStruct {
    last_error: ExampleError,
    last_command: InputEnum,
    ex_no0: u16,
    ex_no1: u16,
    ex_str: String,
    ex_bool0: bool,
    ex_bool1: bool,
}

impl View for ExampleStruct {
    type V = DispatcherView;

    closed spec fn view(&self) -> DispatcherView {
        DispatcherView {
            values: ValuesView {
                no0: self.ex_no0,
                no1: self.ex_no1,
                text: self.ex_str@,
                bool0: self.ex_bool0,
                bool1: self.ex_bool1,
            },
            last_command: self.last_command@,
            last_error: self.last_error,
        }
    }
}

/// The error that `res` leaves in the record.
fn error_in<T>(res: &ExampleResult<T>) -> (error: ExampleError)
    ensures
        error == error_of(*res),
{
    match res {
        Ok(_) => ExampleError::NoError,
        Err(e) => *e,
    }
}

impl ExampleStruct {
    /// Builds the dispatcher once its transports were opened. `uart_opened`
    /// is what opening the UART gave: on a failure there is no dispatcher,
    /// and the failure comes back as a `UARTError`. Opening the I2C bus
    /// cannot fail and so has no say.
    pub fn new(uart_opened: Result<(), UartFailure>) -> (res: ExampleResult<ExampleStruct>)
        ensures
            match uart_opened {
                Ok(_) => res matches Ok(fresh) && fresh@ == DispatcherView::initial(),
                Err(failure) => res matches Err(e) && e == ExampleError::UARTError(failure),
            },
    {
        match uart_opened {
            Ok(_) => Ok(
                ExampleStruct {
                    last_error: ExampleError::NoError,
                    last_command: InputEnum::NoCommand,
                    ex_no0: 0u16,
                    ex_no1: 0u16,
                    ex_str: String::new(),
                    ex_bool0: false,
                    ex_bool1: false,
                },
            ),
            Err(failure) => Err(ExampleError::UARTError(failure)),
        }
    }

    /// Reads the values that `g` selects. Always succeeds; changes no value.
    pub fn get_values(&mut self, g: ExampleEnum) -> (res: ExampleResult<ExampleOutput>)
        ensures
            res is Ok,
            res->Ok_0@ == old(self)@.values.get(g),
            final(self)@ == old(self)@.attempted(CommandView::GetValues(g)).concluded(
                ExampleError::NoError,
            ),
    {
        self.last_command = InputEnum::GetValues(g);
        self.last_error = ExampleError::NoError;
        match g {
            ExampleEnum::Zero => Ok(
                ExampleOutput {
                    out_no: vec![self.ex_no0],
                    out_str: self.ex_str.clone(),
                    out_bool: vec![self.ex_bool0],
                },
            ),
            ExampleEnum::One => Ok(
                ExampleOutput {
                    out_no: vec![self.ex_no1],
                    out_str: self.ex_str.clone(),
                    out_bool: vec![self.ex_bool1],
                },
            ),
            ExampleEnum::All => self.get_all_values(),
        }
    }

    /// Reads both slots, slot zero first.
    fn get_all_values(&self) -> (res: ExampleResult<ExampleOutput>)
        ensures
            res is Ok,
            res->Ok_0@ == self@.values.get(ExampleEnum::All),
    {
        Ok(
            ExampleOutput {
                out_no: vec![self.ex_no0, self.ex_no1],
                out_str: self.ex_str.clone(),
                out_bool: vec![self.ex_bool0, self.ex_bool1],
            },
        )
    }

    /// Writes `s` into the slot that `e` selects: the slot takes the number
    /// and the flag, and the shared string is overwritten. A set of `All` is
    /// rejected with `SetErr` and changes no value.
    pub fn set_values(&mut self, s: ExampleInput, e: ExampleEnum) -> (res: ExampleResult<()>)
        ensures
            ValuesView::settable(e) ==> res == Ok::<(), ExampleError>(()),
            !ValuesView::settable(e) ==> res == Err::<(), ExampleError>(ExampleError::SetErr),
            final(self)@ == (DispatcherView {
                values: old(self)@.values.set(s@, e),
                last_command: CommandView::SetValues(s@, e),
                last_error: error_of(res),
            }),
    {
        let res = match e {
            ExampleEnum::Zero => {
                self.ex_no0 = s.in_no;
                self.ex_str = s.in_str.clone();
                self.ex_bool0 = s.in_bool;
                Ok(())
            },
            ExampleEnum::One => {
                self.ex_no1 = s.in_no;
                self.ex_str = s.in_str.clone();
                self.ex_bool1 = s.in_bool;
                Ok(())
            },
            ExampleEnum::All => Err(ExampleError::SetErr),
        };
        self.last_command = InputEnum::SetValues(s, e);
        self.last_error = error_in(&res);
        res
    }

    /// Starts a get over I2C: records the command and returns the transfer
    /// to perform. Hand what the transfer gave to `get_i2c_reply`.
    pub fn get_i2c(&mut self) -> (transfer: I2cTransfer)
        ensures
            transfer@ == TransferView::get(),
            final(self)@ == old(self)@.attempted(CommandView::GetI2c),
    {
        self.last_command = InputEnum::GetI2c;
        I2cTransfer::get()
    }

    /// Ends a get over I2C: the bytes received come back as they are, a
    /// failed transfer comes back as an `I2CError` of its kind. Records the
    /// outcome; changes no value.
    pub fn get_i2c_reply(&mut self, reply: I2cReply) -> (res: ExampleResult<Vec<u8>>)
        ensures
            bytes_of(res) == i2c_get_outcome(bytes_of(reply)),
            final(self)@ == old(self)@.concluded(error_of(res)),
    {
        let res = check_i2c_get(reply);
        self.last_error = error_in(&res);
        res
    }

    /// Starts a set of `i` over I2C: records the command and returns the
    /// transfer to perform. Hand what the transfer gave to `set_i2c_reply`.
    pub fn set_i2c(&mut self, i: u8) -> (transfer: I2cTransfer)
        ensures
            transfer@ == TransferView::set(i),
            final(self)@ == old(self)@.attempted(CommandView::SetI2c(i)),
    {
        self.last_command = InputEnum::SetI2c(i);
        I2cTransfer::set(i)
    }

    /// Ends a set over I2C: success when the payload answered with the set
    /// opcode and nothing else, `I2CSet` when it answered anything else, an
    /// `I2CError` when the transfer failed. Records the outcome; changes no
    /// value.
    pub fn set_i2c_reply(&mut self, reply: I2cReply) -> (res: ExampleResult<()>)
        ensures
            res == i2c_set_outcome(bytes_of(reply)),
            final(self)@ == old(self)@.concluded(error_of(res)),
    {
        let res = check_i2c_set(reply);
        self.last_error = error_in(&res);
        res
    }

    /// Starts a get over UART: records the command and returns the frame to
    /// write. Hand what the write gave to `get_uart_written`.
    pub fn get_uart(&mut self) -> (frame: Vec<u8>)
        ensures
            frame@ == uart_get_bytes(),
            final(self)@ == old(self)@.attempted(CommandView::GetUart),
    {
        self.last_command = InputEnum::GetUart;
        uart_get_frame()
    }

    /// Goes on with a get over UART once the frame was written. After a
    /// write that went through, returns the read to perform, settle delay
    /// included, and records nothing yet: hand what the read gave to
    /// `get_uart_reply`. A failed write ends the get with a `UARTError`,
    /// which is recorded.
    pub fn get_uart_written(&mut self, written: UartWritten) -> (res: ExampleResult<UartRead>)
        ensures
            match written {
                Ok(_) => res == Ok::<UartRead, ExampleError>(UartRead::reply()) && final(self)@
                    == old(self)@,
                Err(failure) => res == Err::<UartRead, ExampleError>(
                    ExampleError::UARTError(failure),
                ) && final(self)@ == old(self)@.concluded(ExampleError::UARTError(failure)),
            },
    {
        match check_uart_write(written) {
            Ok(_) => Ok(UartRead::reply()),
            Err(e) => {
                self.last_error = e;
                Err(e)
            },
        }
    }

    /// Ends a get over UART: the bytes read come back as they are, a failed
    /// read comes back as a `UARTError`. Records the outcome; changes no
    /// value.
    pub fn get_uart_reply(&mut self, reply: UartReply) -> (res: ExampleResult<Vec<u8>>)
        ensures
            bytes_of(res) == uart_read_outcome(bytes_of(reply)),
            final(self)@ == old(self)@.concluded(error_of(res)),
    {
        let res = check_uart_read(reply);
        self.last_error = error_in(&res);
        res
    }

    /// Starts a set of `input` over UART: records the command and returns
    /// the frame to write. Hand what the write gave to `set_uart_written`.
    pub fn set_uart(&mut self, input: u8) -> (frame: Vec<u8>)
        ensures
            frame@ == uart_set_bytes(input),
            final(self)@ == old(self)@.attempted(CommandView::SetUart(input)),
    {
        self.last_command = InputEnum::SetUart(input);
        uart_set_frame(input)
    }

    /// Ends a set over UART once the frame was written. The payload sends
    /// no acknowledgement, so there is nothing to read: success when the
    /// write went through, a `UARTError` when it failed. Records the
    /// outcome; changes no value.
    pub fn set_uart_written(&mut self, written: UartWritten) -> (res: ExampleResult<()>)
        ensures
            res == uart_write_outcome(written),
            final(self)@ == old(self)@.concluded(error_of(res)),
    {
        let res = check_uart_write(written);
        self.last_error = error_in(&res);
        res
    }

    /// The command last attempted.
    pub fn last_command(&self) -> (command: &InputEnum)
        ensures
            command@ == self@.last_command,
    {
        &self.last_command
    }

    /// The error the last call ended with, `NoError` after a success.
    pub fn last_error(&self) -> (error: ExampleError)
        ensures
            error == self@.last_error,
    {
        self.last_error
    }
}

} // verus!
