use payload_dispatch::wire::{
    check_i2c_get, check_i2c_set, I2C_DELAY_MS, I2C_GET, I2C_SET, REPLY_LEN,
};
use payload_dispatch::{
    ExampleEnum, ExampleError, ExampleInput, ExampleOutput, ExampleResult, ExampleStruct,
    I2cCommand, I2cReply, I2cTransfer, InputEnum,
};
use std::io::ErrorKind;

/// A bus that answers every transfer the same way and keeps what it was sent.
struct MockBus {
    reply: I2cReply,
    seen: Vec<I2cTransfer>,
}

impl MockBus {
    fn answering(reply: I2cReply) -> MockBus {
        MockBus { reply, seen: Vec::new() }
    }

    fn transfer(&mut self, transfer: I2cTransfer) -> I2cReply {
        self.seen.push(transfer);
        self.reply.clone()
    }
}

/// A bus that echoes the opcode it was sent, as the payload does on a set.
struct EchoBus;

impl EchoBus {
    fn transfer(&mut self, transfer: I2cTransfer) -> I2cReply {
        Ok(vec![transfer.command.cmd])
    }
}

fn fresh() -> ExampleStruct {
    match ExampleStruct::new(Ok(())) {
        Ok(dispatcher) => dispatcher,
        Err(e) => panic!("a dispatcher over an open port must build: {:?}", e),
    }
}

fn get_over(d: &mut ExampleStruct, bus: &mut MockBus) -> ExampleResult<Vec<u8>> {
    let transfer = d.get_i2c();
    let reply = bus.transfer(transfer);
    d.get_i2c_reply(reply)
}

fn set_over(d: &mut ExampleStruct, bus: &mut MockBus, value: u8) -> ExampleResult<()> {
    let transfer = d.set_i2c(value);
    let reply = bus.transfer(transfer);
    d.set_i2c_reply(reply)
}

#[test]
fn i2c_opcodes_and_timing_are_the_protocol_ones() {
    assert_eq!(I2C_GET, 0x01);
    assert_eq!(I2C_SET, 0x10);
    assert_eq!(REPLY_LEN, 1);
    assert_eq!(I2C_DELAY_MS, 50);
}

#[test]
fn get_i2c_asks_for_one_byte_with_the_get_opcode() {
    let mut d = fresh();
    let transfer = d.get_i2c();
    assert_eq!(
        transfer,
        I2cTransfer { command: I2cCommand { cmd: 0x01, data: vec![] }, rx_len: 1, delay_ms: 50 }
    );
    assert_eq!(transfer, I2cTransfer::get());
}

#[test]
fn set_i2c_sends_the_set_opcode_and_the_value() {
    let mut d = fresh();
    let transfer = d.set_i2c(0xA5);
    assert_eq!(
        transfer,
        I2cTransfer {
            command: I2cCommand { cmd: 0x10, data: vec![0xA5] },
            rx_len: 1,
            delay_ms: 50,
        }
    );
    assert_eq!(transfer, I2cTransfer::set(0xA5));
    assert_eq!(d.set_i2c(0).command.data, vec![0]);
    assert_eq!(d.set_i2c(255).command.data, vec![255]);
}

#[test]
fn get_i2c_returns_the_reply_unchanged() {
    let mut d = fresh();
    let mut bus = MockBus::answering(Ok(vec![0x7E]));
    assert_eq!(get_over(&mut d, &mut bus), Ok(vec![0x7E]));
    assert_eq!(d.last_error(), ExampleError::NoError);
    assert_eq!(bus.seen.len(), 1);
    assert_eq!(bus.seen[0].command.cmd, 0x01);
}

#[test]
fn get_i2c_does_not_judge_the_length_of_the_reply() {
    let mut d = fresh();
    assert_eq!(get_over(&mut d, &mut MockBus::answering(Ok(vec![]))), Ok(vec![]));
    assert_eq!(get_over(&mut d, &mut MockBus::answering(Ok(vec![1, 2, 3]))), Ok(vec![1, 2, 3]));
}

#[test]
fn get_i2c_reports_a_missed_deadline_as_i2c_error() {
    let mut d = fresh();
    let mut bus = MockBus::answering(Err(ErrorKind::TimedOut));
    assert_eq!(get_over(&mut d, &mut bus), Err(ExampleError::I2CError(ErrorKind::TimedOut)));
    assert_eq!(d.last_error(), ExampleError::I2CError(ErrorKind::TimedOut));
}

#[test]
fn set_i2c_succeeds_when_the_payload_echoes_the_set_opcode() {
    let mut d = fresh();
    let transfer = d.set_i2c(42);
    let reply = EchoBus.transfer(transfer);
    assert_eq!(reply, Ok(vec![0x10]));
    assert_eq!(d.set_i2c_reply(reply), Ok(()));
    assert_eq!(d.last_error(), ExampleError::NoError);
    assert_eq!(*d.last_command(), InputEnum::SetI2c(42));
}

#[test]
fn set_i2c_reports_any_other_byte_as_a_mismatch() {
    for echo in [0x00u8, 0x01, 0x0F, 0x11, 0x20, 42, 0xFF] {
        let mut d = fresh();
        let mut bus = MockBus::answering(Ok(vec![echo]));
        assert_eq!(set_over(&mut d, &mut bus, 42), Err(ExampleError::I2CSet));
        assert_eq!(d.last_error(), ExampleError::I2CSet);
    }
}

#[test]
fn set_i2c_reports_a_reply_of_another_length_as_a_mismatch() {
    let mut d = fresh();
    assert_eq!(set_over(&mut d, &mut MockBus::answering(Ok(vec![])), 1), Err(ExampleError::I2CSet));
    assert_eq!(d.last_error(), ExampleError::I2CSet);
    assert_eq!(
        set_over(&mut d, &mut MockBus::answering(Ok(vec![0x10, 0x10])), 1),
        Err(ExampleError::I2CSet)
    );
    assert_eq!(
        set_over(&mut d, &mut MockBus::answering(Ok(vec![0x10, 0x00])), 1),
        Err(ExampleError::I2CSet)
    );
}

#[test]
fn set_i2c_reports_a_failed_transfer_as_i2c_error() {
    let mut d = fresh();
    let mut bus = MockBus::answering(Err(ErrorKind::TimedOut));
    assert_eq!(set_over(&mut d, &mut bus, 3), Err(ExampleError::I2CError(ErrorKind::TimedOut)));
    assert_eq!(d.last_error(), ExampleError::I2CError(ErrorKind::TimedOut));
    let mut bus = MockBus::answering(Err(ErrorKind::PermissionDenied));
    assert_eq!(
        set_over(&mut d, &mut bus, 3),
        Err(ExampleError::I2CError(ErrorKind::PermissionDenied))
    );
}

#[test]
fn a_mismatch_is_not_a_transport_failure() {
    assert_ne!(check_i2c_set(Ok(vec![0x11])), check_i2c_set(Err(ErrorKind::Other)));
    assert_eq!(check_i2c_set(Ok(vec![0x11])), Err(ExampleError::I2CSet));
    assert_eq!(check_i2c_set(Err(ErrorKind::Other)), Err(ExampleError::I2CError(ErrorKind::Other)));
    assert_eq!(check_i2c_set(Ok(vec![0x10])), Ok(()));
    assert_eq!(check_i2c_get(Ok(vec![9])), Ok(vec![9]));
    assert_eq!(
        check_i2c_get(Err(ErrorKind::BrokenPipe)),
        Err(ExampleError::I2CError(ErrorKind::BrokenPipe))
    );
}

#[test]
fn a_failing_bus_changes_no_value() {
    let mut d = fresh();
    let kept = ExampleInput { in_no: 77, in_str: "kept".to_string(), in_bool: true };
    assert_eq!(d.set_values(kept, ExampleEnum::Zero), Ok(()));
    let mut bus = MockBus::answering(Err(ErrorKind::TimedOut));
    assert!(get_over(&mut d, &mut bus).is_err());
    assert!(set_over(&mut d, &mut bus, 5).is_err());
    assert_eq!(
        d.get_values(ExampleEnum::All),
        Ok(ExampleOutput {
            out_no: vec![77, 0],
            out_str: "kept".to_string(),
            out_bool: vec![true, false],
        })
    );
}

#[test]
fn the_dispatcher_stays_usable_after_a_failed_transfer() {
    let mut d = fresh();
    assert!(get_over(&mut d, &mut MockBus::answering(Err(ErrorKind::TimedOut))).is_err());
    assert_eq!(get_over(&mut d, &mut MockBus::answering(Ok(vec![5]))), Ok(vec![5]));
    assert_eq!(d.last_error(), ExampleError::NoError);
}
