//! What a registry knows of a stub without knowing its signature's types.

use crate::count::shortfall;
use crate::error::{reports, Failure, MockError};
use vstd::prelude::*;

verus! {

/// A registered stub without its behavior: its name, the tag of the
/// signature it was registered with, and the calls it still expects.
#[derive(Debug, PartialEq, Eq)]
pub struct Record {
    pub name: String,
    pub signature: String,
    pub remaining: Option<usize>,
}

/// A [`Record`] over sequences of characters.
pub struct RecordView {
    pub name: Seq<char>,
    pub signature: Seq<char>,
    pub remaining: Option<usize>,
}

impl View for Record {
    type V = RecordView;

    open spec fn view(&self) -> RecordView {
        RecordView { name: self.name@, signature: self.signature@, remaining: self.remaining }
    }
}

impl RecordView {
    /// What discarding the stub brings to light.
    pub open spec fn unsettled(self, unwinding: bool) -> Option<Failure> {
        shortfall(self.name, self.remaining, unwinding)
    }

    /// What a retrieval under `signature` is refused with, where the stub
    /// cannot be handed out under it.
    pub open spec fn mismatch(self, signature: Seq<char>) -> Failure {
        Failure::TypeMismatch { name: self.name, expected: self.signature, found: signature }
    }

    /// The record with another count.
    pub open spec fn counting(self, remaining: Option<usize>) -> RecordView {
        RecordView { remaining, ..self }
    }
}

impl Record {
    /// Settles the stub's expectation as the stub is discarded. While a
    /// failure is unwinding nothing more is reported.
    pub fn settle(&self, unwinding: bool) -> (out: Result<(), MockError>)
        ensures
            reports(out, self@.unsettled(unwinding)),
    {
        match self.remaining {
            Some(missing) => {
                if !unwinding && missing != 0 {
                    Err(MockError::Undercall { name: self.name.clone(), missing })
                } else {
                    Ok(())
                }
            },
            None => Ok(()),
        }
    }
}

} // verus!
