//! A writer that charges every chunk against the quota before letting it
//! through.
use std::sync::Arc;

use opendal::Error;
use vstd::pervasive::unreached;
use vstd::prelude::*;

use crate::state::{Account, QuotaState};

verus! {

/// Wraps an inner writer, charging every chunk it writes against the quota
/// before letting it through.
pub struct QuotaWriter<W, T> {
    inner: W,
    state: Arc<QuotaState<T>>,
    /// Bytes reserved against the quota during this writer's lifetime that
    /// have not been confirmed durable yet. Used to roll the reservation back
    /// when the writer is aborted.
    reserved: u64,
}

/// What a [`QuotaWriter`] is made of.
pub struct WriterView<W, T> {
    /// The writer that does the work.
    pub inner: W,
    /// The quota that is charged.
    pub state: QuotaState<T>,
    /// Bytes reserved and not yet confirmed durable.
    pub reserved: u64,
}

impl<W, T> View for QuotaWriter<W, T> {
    type V = WriterView<W, T>;

    closed spec fn view(&self) -> WriterView<W, T> {
        WriterView { inner: self.inner, state: *self.state, reserved: self.reserved }
    }
}

/// What to do next for a write.
pub enum WriteStep {
    /// Reserve `len` bytes, then call [`QuotaWriter::write_reserved`] with the
    /// result.
    Reserve { len: u64 },
    /// Hand the chunk to the inner writer, then call
    /// [`QuotaWriter::write_forwarded`] with its reply.
    Forward { len: u64 },
    /// Release `len` bytes, then return `cause`.
    Release { len: u64, cause: Error },
    /// Return this.
    Done(Result<(), Error>),
}

/// What to do next for an abort.
pub enum AbortStep {
    /// Release `len` bytes, then return success.
    Release { len: u64 },
    /// Return this.
    Done(Result<(), Error>),
}

/// What the whole write of one chunk comes to.
pub struct WriteAccount {
    /// Whether the chunk is handed to the inner writer.
    pub handed: bool,
    /// What the write returns.
    pub result: Result<(), Error>,
}

impl<W, T> QuotaWriter<W, T> {
    /// A writer that has nothing reserved yet.
    pub fn new(inner: W, state: Arc<QuotaState<T>>) -> (writer: Self)
        ensures
            writer@ == (WriterView { inner, state: *state, reserved: 0 }),
    {
        QuotaWriter { inner, state, reserved: 0 }
    }

    /// The quota that is charged.
    pub fn state(&self) -> (state: &QuotaState<T>)
        ensures
            *state == self@.state,
    {
        &self.state
    }

    /// Bytes reserved and not yet confirmed durable.
    pub fn reserved(&self) -> (reserved: u64)
        ensures
            reserved == self@.reserved,
    {
        self.reserved
    }

    /// The writer that does the work.
    pub fn inner_mut(&mut self) -> (inner: &mut W)
        ensures
            *inner == old(self)@.inner,
            final(self)@ == (WriterView { inner: *final(inner), ..old(self)@ }),
    {
        &mut self.inner
    }

    /// Starts to write a chunk of `size` bytes: they are reserved first.
    pub fn write(&self, size: usize) -> (step: WriteStep)
        ensures
            step == (WriteStep::Reserve { len: size as u64 }),
    {
        WriteStep::Reserve { len: size as u64 }
    }

    /// Goes on with a write of `len` bytes when they have been reserved, or
    /// could not be.
    pub fn write_reserved(&mut self, len: u64, reply: Result<(), Error>) -> (step: WriteStep)
        requires
            reply is Ok ==> old(self)@.reserved + len <= u64::MAX,
        ensures
            ({
                let turn = crate::model::reserved_turn(old(self)@.reserved, len, reply);
                &&& step == turn.step
                &&& final(self)@ == (WriterView { reserved: turn.reserved, ..old(self)@ })
            }),
    {
        match reply {
            Ok(_) => {
                self.reserved = self.reserved + len;
                WriteStep::Forward { len }
            },
            Err(cause) => WriteStep::Done(Err(cause)),
        }
    }

    /// Goes on with a write of `len` reserved bytes when the inner writer has
    /// been handed the chunk. If it failed, the bytes never made it to the
    /// backend, and the quota gets them back.
    pub fn write_forwarded(&mut self, len: u64, reply: Result<(), Error>) -> (step: WriteStep)
        requires
            reply is Err ==> len <= old(self)@.reserved,
        ensures
            ({
                let turn = crate::model::forwarded_turn(old(self)@.reserved, len, reply);
                &&& step == turn.step
                &&& final(self)@ == (WriterView { reserved: turn.reserved, ..old(self)@ })
            }),
    {
        match reply {
            Ok(_) => WriteStep::Done(Ok(())),
            Err(cause) => {
                self.reserved = self.reserved - len;
                WriteStep::Release { len, cause }
            },
        }
    }

    /// Ends a close, given the inner writer's reply to it. Once that succeeds,
    /// everything reserved made it through and is final.
    pub fn close<M>(&mut self, reply: Result<M, Error>) -> (result: Result<M, Error>)
        ensures
            result == reply,
            final(self)@ == (WriterView {
                reserved: crate::model::closed_turn(old(self)@.reserved, reply),
                ..old(self)@
            }),
    {
        if reply.is_ok() {
            self.reserved = 0;
        }
        reply
    }

    /// Goes on with an abort, given the inner writer's reply to it. Once that
    /// succeeds, everything that was reserved goes back to the quota.
    pub fn abort(&mut self, reply: Result<(), Error>) -> (step: AbortStep)
        ensures
            ({
                let turn = crate::model::aborted_turn(old(self)@.reserved, reply);
                &&& step == turn.step
                &&& final(self)@ == (WriterView { reserved: turn.reserved, ..old(self)@ })
            }),
    {
        match reply {
            Ok(_) => {
                let len: u64 = self.reserved;
                self.reserved = 0;
                AbortStep::Release { len }
            },
            Err(cause) => AbortStep::Done(Err(cause)),
        }
    }

    /// Makes the whole write of a chunk of `size` bytes out of the replies to
    /// it: `fetch` and `store` are the tracker's to the reservation, `forward`
    /// is the inner writer's, and `restore` is the tracker's to a release. A
    /// reply that is not called for plays no part.
    pub fn write_with(
        &mut self,
        cache: &mut Option<u64>,
        size: usize,
        fetch: Result<u64, Error>,
        store: Result<(), Error>,
        forward: Result<(), Error>,
        restore: Result<(), Error>,
    ) -> (account: WriteAccount)
        requires
            crate::model::reserve_run(
                old(self)@.state@.limit,
                *old(cache),
                size as u64,
                fetch,
                store,
            ).end is Grant ==> old(self)@.reserved + size <= u64::MAX,
        ensures
            final(self)@.inner == old(self)@.inner,
            final(self)@.state == old(self)@.state,
            ({
                let known = match *old(cache) {
                    Some(used) => Ok(used),
                    None => fetch,
                };
                let fits = known is Ok && known->Ok_0 + size <= old(self)@.state@.limit;
                let granted = size == 0 || (fits && store is Ok);
                &&& account.handed <==> granted
                &&& account.result is Ok <==> granted && forward is Ok
                &&& final(self)@.reserved == old(self)@.reserved + if account.result is Ok {
                    size as int
                } else {
                    0
                }
                &&& granted && forward is Err ==> account.result->Err_0 == forward->Err_0
                &&& size > 0 && known is Err ==> account.result->Err_0 == known->Err_0
                &&& size > 0 && known is Ok && !fits ==> crate::error::error_view(
                    account.result->Err_0,
                ).kind is RateLimited
                &&& size > 0 && fits && store is Err ==> account.result->Err_0 == store->Err_0
                &&& size == 0 || known is Err ==> *final(cache) == *old(cache)
                &&& size > 0 && known is Ok ==> (*final(cache) matches Some(total) && total
                    == known->Ok_0 + if account.result is Ok {
                    size as int
                } else {
                    0
                })
            }),
    {
        let len: u64 = match self.write(size) {
            WriteStep::Reserve { len } => len,
            _ => unreached(),
        };
        let reservation: Account = self.state.reserve_with(cache, len, fetch, store);
        match self.write_reserved(len, reservation.result) {
            WriteStep::Forward { len } => match self.write_forwarded(len, forward) {
                WriteStep::Release { len, cause } => {
                    self.state.release_with(cache, len, restore);
                    WriteAccount { handed: true, result: Err(cause) }
                },
                WriteStep::Done(result) => WriteAccount { handed: true, result },
                _ => unreached(),
            },
            WriteStep::Done(result) => WriteAccount { handed: false, result },
            _ => unreached(),
        }
    }

    /// Makes a whole abort out of the replies to it: `reply` is the inner
    /// writer's, and `restore` is the tracker's to a release.
    pub fn abort_with(
        &mut self,
        cache: &mut Option<u64>,
        reply: Result<(), Error>,
        restore: Result<(), Error>,
    ) -> (result: Result<(), Error>)
        ensures
            final(self)@.inner == old(self)@.inner,
            final(self)@.state == old(self)@.state,
            result is Ok <==> reply is Ok,
            reply is Err ==> result->Err_0 == reply->Err_0 && *final(cache) == *old(cache)
                && final(self)@.reserved == old(self)@.reserved,
            reply is Ok ==> final(self)@.reserved == 0,
            reply is Ok && old(self)@.reserved == 0 ==> *final(cache) == *old(cache),
            reply is Ok && *old(cache) is Some && (*old(cache))->0 >= old(self)@.reserved ==> (
            *final(cache) matches Some(total) && total == (*old(cache))->0 - old(self)@.reserved),
    {
        match self.abort(reply) {
            AbortStep::Release { len } => {
                self.state.release_with(cache, len, restore);
                Ok(())
            },
            AbortStep::Done(result) => result,
        }
    }
}

} // verus!
