//! The layer that caps what is written, and the accessor that it wraps round
//! another one.
use std::sync::Arc;

use opendal::Error;
use vstd::prelude::*;

use crate::state::QuotaState;
use crate::writer::QuotaWriter;

verus! {

/// A global write-quota layer.
///
/// Caps the bytes written across an operator at a configured limit. The total
/// is kept by a tracker, so that it survives restarts. Reads are never
/// affected.
pub struct QuotaLayer<T> {
    state: Arc<QuotaState<T>>,
}

impl<T> View for QuotaLayer<T> {
    type V = QuotaState<T>;

    /// The state that the layer shares with what it produces.
    closed spec fn view(&self) -> QuotaState<T> {
        *self.state
    }
}

impl<T> Clone for QuotaLayer<T> {
    /// Another handle on the same state.
    fn clone(&self) -> (layer: Self)
        ensures
            layer@ == self@,
    {
        QuotaLayer { state: self.state.clone() }
    }
}

impl<T> QuotaLayer<T> {
    /// Creates a new `QuotaLayer`.
    ///
    /// - `id`: identifies which quota "bucket" this operator enforces against.
    ///   It goes with every call to the tracker, so that one tracker can back
    ///   many independently tracked operators.
    /// - `tracker`: what stores this quota's usage.
    /// - `limit_bytes`: the total number of bytes that this id is allowed to
    ///   have written, ever.
    pub fn new(id: String, tracker: T, limit_bytes: u64) -> (layer: Self)
        ensures
            layer@@.id == id@,
            layer@@.tracker == tracker,
            layer@@.limit == limit_bytes,
            crate::state::initial_total(layer@@.cache) is None,
    {
        QuotaLayer { state: Arc::new(QuotaState::new(id, tracker, limit_bytes)) }
    }

    /// Wraps `inner` in an accessor that enforces this quota.
    pub fn layer<A>(&self, inner: A) -> (accessor: QuotaAccessor<A, T>)
        ensures
            accessor@ == (AccessorView { inner, state: self@ }),
    {
        QuotaAccessor { inner, state: self.state.clone() }
    }
}

/// An accessor whose writers are held to a quota.
pub struct QuotaAccessor<A, T> {
    inner: A,
    state: Arc<QuotaState<T>>,
}

/// What a [`QuotaAccessor`] is made of.
pub struct AccessorView<A, T> {
    /// The accessor that does the work.
    pub inner: A,
    /// The quota.
    pub state: QuotaState<T>,
}

impl<A, T> View for QuotaAccessor<A, T> {
    type V = AccessorView<A, T>;

    closed spec fn view(&self) -> AccessorView<A, T> {
        AccessorView { inner: self.inner, state: *self.state }
    }
}

impl<A, T> QuotaAccessor<A, T> {
    /// The accessor that does the work.
    pub fn inner(&self) -> (inner: &A)
        ensures
            *inner == self@.inner,
    {
        &self.inner
    }

    /// The quota.
    pub fn state(&self) -> (state: &QuotaState<T>)
        ensures
            *state == self@.state,
    {
        &self.state
    }

    /// Answers a request for a writer, given the inner accessor's reply to
    /// it: the writer it opened is put under this quota, with nothing
    /// reserved yet, and a failure is passed on.
    pub fn write<R, W>(&self, reply: Result<(R, W), Error>) -> (result: Result<
        (R, QuotaWriter<W, T>),
        Error,
    >)
        ensures
            match reply {
                Ok((details, inner)) => result matches Ok((given, writer)) && given == details
                    && writer@ == (crate::writer::WriterView {
                    inner,
                    state: self@.state,
                    reserved: 0,
                }),
                Err(cause) => result == Err::<(R, QuotaWriter<W, T>), Error>(cause),
            },
    {
        match reply {
            Ok((details, inner)) => Ok((details, QuotaWriter::new(inner, self.state.clone()))),
            Err(cause) => Err(cause),
        }
    }
}

} // verus!
