//! An in-process registry of stubs for test code.
//!
//! A test registers, under a name, a behavior that stands in for a
//! collaborator's operation, optionally with the exact number of calls it
//! expects. The code under test later retrieves the stub by name and calls it.
//! Every way in which the calls can depart from what was registered is a
//! [`MockError`](error::MockError): a call too many, calls that never came, a
//! retrieval with another signature, a retrieval of a name never registered.
//!
//! The registry is sequential: every operation that changes it takes it by
//! `&mut`, and the contracts describe it by the sequence of its entries,
//! each the record of a stub together with its behavior in sealed form.

pub mod behavior;
pub mod builder;
pub mod count;
pub mod entry;
pub mod error;
pub mod laws;
pub mod mocker;
pub mod record;
mod sealed;
pub mod store;
pub mod stub;

pub use behavior::{Behavior, FnBehavior};
pub use builder::StubBuilder;
pub use entry::{Entry, EntryView};
pub use error::{Failure, MockError};
pub use mocker::Mocker;
pub use record::{Record, RecordView};
pub use sealed::Sealed;
pub use store::StubStore;
pub use stub::Stub;
