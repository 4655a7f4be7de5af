//! What a caller hands to a set, gets back from a get, and selects with.

use vstd::prelude::*;

verus! {

/// Selects the value that a get or a set addresses.
#[derive(Clone, Copy, Debug, PartialEq, Eq)]
pub enum ExampleEnum {
    /// The first slot.
    Zero,
    /// The second slot.
    One,
    /// Both slots, in that order. Only a get may address it.
    All,
}

/// The data a set writes into one slot.
#[derive(Clone, Debug, PartialEq, Eq)]
pub struct ExampleInput {
    pub in_no: u16,
    pub in_str: String,
    pub in_bool: bool,
}

/// The data a get reads: one number and one flag per slot addressed, and the
/// string that the slots share.
#[derive(Clone, Debug, PartialEq, Eq)]
pub struct ExampleOutput {
    pub out_no: Vec<u16>,
    pub out_str: String,
    pub out_bool: Vec<bool>,
}

/// An `ExampleInput` as a mathematical value.
#[verifier::ext_equal]
pub struct InputView {
    pub in_no: u16,
    pub in_str: Seq<char>,
    pub in_bool: bool,
}

/// An `ExampleOutput` as a mathematical value.
#[verifier::ext_equal]
pub struct OutputView {
    pub out_no: Seq<u16>,
    pub out_str: Seq<char>,
    pub out_bool: Seq<bool>,
}

impl View for ExampleInput {
    type V = InputView;

    open spec fn view(&self) -> InputView {
        InputView { in_no: self.in_no, in_str: self.in_str@, in_bool: self.in_bool }
    }
}

impl View for ExampleOutput {
    type V = OutputView;

    open spec fn view(&self) -> OutputView {
        OutputView { out_no: self.out_no@, out_str: self.out_str@, out_bool: self.out_bool@ }
    }
}

} // verus!
