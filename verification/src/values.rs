//! The addressable values as a mathematical model, and the laws of reading
//! and writing them.

use crate::payload::{ExampleEnum, InputView, OutputView};
use vstd::prelude::*;

verus! {

/// The values the dispatcher holds: a number and a flag per slot, and one
/// string that both slots share.
#[verifier::ext_equal]
pub struct ValuesView {
    pub no0: u16,
    pub no1: u16,
    pub text: Seq<char>,
    pub bool0: bool,
    pub bool1: bool,
}

impl ValuesView {
    /// The values of a fresh dispatcher: zero, empty, false.
    pub open spec fn initial() -> ValuesView {
        ValuesView { no0: 0, no1: 0, text: Seq::empty(), bool0: false, bool1: false }
    }

    /// What a get of `g` reads. A single slot gives one number and one flag;
    /// `All` gives those of slot zero, then those of slot one. The string is
    /// the shared one in each case.
    pub open spec fn get(self, g: ExampleEnum) -> OutputView {
        match g {
            ExampleEnum::Zero => OutputView {
                out_no: seq![self.no0],
                out_str: self.text,
                out_bool: seq![self.bool0],
            },
            ExampleEnum::One => OutputView {
                out_no: seq![self.no1],
                out_str: self.text,
                out_bool: seq![self.bool1],
            },
            ExampleEnum::All => OutputView {
                out_no: seq![self.no0, self.no1],
                out_str: self.text,
                out_bool: seq![self.bool0, self.bool1],
            },
        }
    }

    /// Whether a set may address `e`: every selector but the aggregate.
    pub open spec fn settable(e: ExampleEnum) -> bool {
        e != ExampleEnum::All
    }

    /// The values after a set of `e` to `s`. A slot takes the number and the
    /// flag, and the shared string is overwritten; a set of `All` is rejected
    /// and leaves every value as it was.
    pub open spec fn set(self, s: InputView, e: ExampleEnum) -> ValuesView {
        match e {
            ExampleEnum::Zero => ValuesView { no0: s.in_no, text: s.in_str, bool0: s.in_bool, ..self },
            ExampleEnum::One => ValuesView { no1: s.in_no, text: s.in_str, bool1: s.in_bool, ..self },
            ExampleEnum::All => self,
        }
    }
}

/// A set of a single slot followed by a get of the same slot reads back the
/// number, the flag and the string that were written.
pub proof fn lemma_set_then_get(store: ValuesView, s: InputView, e: ExampleEnum)
    requires
        e == ExampleEnum::Zero || e == ExampleEnum::One,
    ensures
        store.set(s, e).get(e) == (OutputView {
            out_no: seq![s.in_no],
            out_str: s.in_str,
            out_bool: seq![s.in_bool],
        }),
{
}

/// After slot zero was set to `s0` and slot one to `s1`, a get of `All` reads
/// the numbers and flags of `s0` first and those of `s1` second, whichever of
/// the two sets came first. The string is that of the later set.
pub proof fn lemma_get_all_after_both_sets(store: ValuesView, s0: InputView, s1: InputView)
    ensures
        store.set(s0, ExampleEnum::Zero).set(s1, ExampleEnum::One).get(ExampleEnum::All)
            == (OutputView {
            out_no: seq![s0.in_no, s1.in_no],
            out_str: s1.in_str,
            out_bool: seq![s0.in_bool, s1.in_bool],
        }),
        store.set(s1, ExampleEnum::One).set(s0, ExampleEnum::Zero).get(ExampleEnum::All)
            == (OutputView {
            out_no: seq![s0.in_no, s1.in_no],
            out_str: s0.in_str,
            out_bool: seq![s0.in_bool, s1.in_bool],
        }),
{
}

/// A set of `All` is never accepted and changes no value.
pub proof fn lemma_set_all_rejected(store: ValuesView, s: InputView)
    ensures
        !ValuesView::settable(ExampleEnum::All),
        store.set(s, ExampleEnum::All) == store,
{
}

/// A set of one slot leaves the number and the flag of the other slot alone.
pub proof fn lemma_set_keeps_other_slot(store: ValuesView, s: InputView)
    ensures
        store.set(s, ExampleEnum::Zero).get(ExampleEnum::One).out_no == store.get(
            ExampleEnum::One,
        ).out_no,
        store.set(s, ExampleEnum::Zero).get(ExampleEnum::One).out_bool == store.get(
            ExampleEnum::One,
        ).out_bool,
        store.set(s, ExampleEnum::One).get(ExampleEnum::Zero).out_no == store.get(
            ExampleEnum::Zero,
        ).out_no,
        store.set(s, ExampleEnum::One).get(ExampleEnum::Zero).out_bool == store.get(
            ExampleEnum::Zero,
        ).out_bool,
{
}

} // verus!
