//! A global write quota for OpenDAL operators.
//!
//! A quota behaves like a "bytes remaining on disk" check: every byte that
//! flows through a write is counted against a configured limit, and once that
//! limit is reached, further writes are rejected with an error. Reads, lists,
//! stats and deletes are left untouched.
//!
//! This crate decides; it does not wait. The total is kept by a tracker, and
//! bytes are written by an inner writer, both of which are asynchronous. So
//! an operation is cut at each point where it would wait. A method returns the
//! step to take next, its caller takes it and hands the reply to the next
//! method:
//!
//! - [`QuotaState::reserve`] and [`QuotaState::release`] start the two
//!   operations on a quota; [`QuotaState::reserve_with`] and
//!   [`QuotaState::release_with`] go through all their steps, given the
//!   tracker's replies;
//! - [`QuotaWriter::write`] starts the write of one chunk, which reserves it
//!   first, and [`QuotaWriter::close`] and [`QuotaWriter::abort`] settle what
//!   was reserved; [`QuotaWriter::write_with`] and [`QuotaWriter::abort_with`]
//!   go through all steps, given the replies;
//! - [`QuotaLayer`] and [`QuotaAccessor`] put writers under a quota.
//!
//! [`model`] says what the operations come to. [`laws`], [`writes`],
//! [`ledger`] and [`schedule`] prove what follows for single reservations and
//! releases, for a writer, for many writers on one quota, and for calls that
//! run at the same time.
pub mod error;
pub mod laws;
pub mod layer;
pub mod ledger;
pub mod model;
pub mod schedule;
pub mod state;
pub mod text;
pub mod writer;
pub mod writes;

pub use error::{quota_exceeded, ErrorView};
pub use layer::{QuotaAccessor, QuotaLayer};
pub use state::{Account, QuotaState, ReleaseStep, ReserveStep, Start};
pub use writer::{AbortStep, QuotaWriter, WriteAccount, WriteStep};
