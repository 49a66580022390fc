//! The state behind one quota, and its side of a reservation and a release.
use opendal::Error;
use tokio::sync::Mutex;
use vstd::pervasive::unreached;
use vstd::prelude::*;

use crate::error::quota_exceeded;
use crate::model::Next;

verus! {

/// Declares [`tokio::sync::Mutex`]. What it holds changes behind shared
/// references, so only what it was made with has a name: see
/// [`initial_total`].
#[verifier::external_type_specification]
#[verifier::external_body]
#[verifier::reject_recursive_types(T)]
pub struct ExMutex<T: ?Sized>(Mutex<T>);

/// What the lock held when it was made.
pub uninterp spec fn initial_total(lock: Mutex<Option<u64>>) -> Option<u64>;

/// Calls [`tokio::sync::Mutex::new`]: an unlocked lock that holds `total`.
#[verifier::external_body]
fn new_lock(total: Option<u64>) -> (lock: Mutex<Option<u64>>)
    ensures
        initial_total(lock) == total,
{
    Mutex::new(total)
}

/// Shared state behind one quota layer, shared by every accessor and writer
/// that it produces.
pub struct QuotaState<T> {
    id: String,
    tracker: T,
    limit: u64,
    /// In-process cache of the last known total. `None` until the first write
    /// touches it, at which point it is warmed from the tracker.
    cache: Mutex<Option<u64>>,
}

/// How to go about a reservation or a release.
pub enum Start {
    /// There is nothing to do: return success.
    Done,
    /// Lock [`QuotaState::cache`] and keep it locked to the end.
    Lock,
}

/// What to do next for a reservation.
pub enum ReserveStep<'a> {
    /// Ask the tracker for the total under `id`, then call
    /// [`QuotaState::reserve_fetched`] with the reply.
    Fetch { id: &'a str },
    /// Have the tracker store `total` under `id`, then call
    /// [`QuotaState::reserve_stored`] with the reply.
    Store { id: &'a str, total: u64 },
    /// Return this.
    Done(Result<(), Error>),
}

impl<'a> ReserveStep<'a> {
    /// Whether this step carries out `next` for `len` bytes on the quota `id`.
    pub open spec fn carries_out(self, next: Next, id: Seq<char>, limit: u64, len: u64) -> bool {
        match next {
            Next::Fetch => self matches ReserveStep::Fetch { id: under } && under@ == id,
            Next::Store { total } => self matches ReserveStep::Store { id: under, total: stored }
                && under@ == id && stored == total,
            Next::Grant => self == ReserveStep::Done(Ok(())),
            Next::Exceed { used } => self matches ReserveStep::Done(Err(error))
                && crate::error::error_view(error) == crate::error::exceeded_error(
                id,
                used,
                len,
                limit,
            ),
            Next::Fail { cause } => self == ReserveStep::Done(Err(cause)),
        }
    }
}

/// What to do next for a release: have the tracker store `total` under `id`,
/// then call [`QuotaState::release_stored`] with the reply.
pub struct ReleaseStep<'a> {
    pub id: &'a str,
    pub total: u64,
}

/// What a whole reservation comes to.
pub struct Account {
    /// Whether the tracker is asked for the stored total.
    pub fetched: bool,
    /// The total that the tracker is asked to store, if it is asked.
    pub stored: Option<u64>,
    /// What the reservation returns.
    pub result: Result<(), Error>,
}

/// What a [`QuotaState`] is made of.
pub struct QuotaView<T> {
    /// The id that the tracker knows the quota by.
    pub id: Seq<char>,
    /// The tracker that stores the total.
    pub tracker: T,
    /// How many bytes may be written in all.
    pub limit: u64,
    /// The lock that guards the cached total.
    pub cache: Mutex<Option<u64>>,
}

impl<T> View for QuotaState<T> {
    type V = QuotaView<T>;

    closed spec fn view(&self) -> QuotaView<T> {
        QuotaView { id: self.id@, tracker: self.tracker, limit: self.limit, cache: self.cache }
    }
}

impl<T> QuotaState<T> {
    /// A quota of `limit` bytes whose cache is cold.
    pub fn new(id: String, tracker: T, limit: u64) -> (state: Self)
        ensures
            state@.id == id@,
            state@.tracker == tracker,
            state@.limit == limit,
            initial_total(state@.cache) is None,
    {
        QuotaState { id, tracker, limit, cache: new_lock(None) }
    }

    /// The id that the tracker knows this quota by.
    pub fn id(&self) -> (id: &str)
        ensures
            id@ == self@.id,
    {
        self.id.as_str()
    }

    /// How many bytes may be written in all.
    pub fn limit(&self) -> (limit: u64)
        ensures
            limit == self@.limit,
    {
        self.limit
    }

    /// The tracker that stores the total.
    pub fn tracker(&self) -> (tracker: &T)
        ensures
            *tracker == self@.tracker,
    {
        &self.tracker
    }

    /// The lock that guards the cached total. A reservation or a release
    /// holds it from its first step to its last.
    pub fn cache(&self) -> (cache: &Mutex<Option<u64>>)
        ensures
            *cache == self@.cache,
    {
        &self.cache
    }

    /// Weighs `len` more bytes against a known total of `used`.
    fn weigh<'a>(&'a self, cache: &mut Option<u64>, used: u64, len: u64) -> (step: ReserveStep<'a>)
        ensures
            ({
                let turn = crate::model::weigh(self@.limit, used, len);
                &&& *final(cache) == turn.cache
                &&& step.carries_out(turn.next, self@.id, self@.limit, len)
            }),
    {
        // The cache reflects what was just confirmed, even if this particular
        // reservation is rejected or cannot be stored.
        *cache = Some(used);
        if used > self.limit || len > self.limit - used {
            ReserveStep::Done(Err(quota_exceeded(self.id.as_str(), used, len, self.limit)))
        } else {
            ReserveStep::Store { id: self.id.as_str(), total: used + len }
        }
    }

    /// Starts to reserve `len` additional bytes against the quota. Go on with
    /// [`QuotaState::reserve_locked`] once the cache is locked.
    pub fn reserve(&self, len: u64) -> (start: Start)
        ensures
            start is Done <==> len == 0,
    {
        if len == 0 {
            Start::Done
        } else {
            Start::Lock
        }
    }

    /// Goes on with a reservation of `len` bytes when the cache is locked.
    /// Nothing is reserved, and an error is due, if that would exceed the
    /// limit.
    pub fn reserve_locked<'a>(&'a self, cache: &mut Option<u64>, len: u64) -> (step: ReserveStep<
        'a,
    >)
        ensures
            ({
                let turn = crate::model::locked_turn(self@.limit, *old(cache), len);
                &&& *final(cache) == turn.cache
                &&& step.carries_out(turn.next, self@.id, self@.limit, len)
            }),
    {
        match *cache {
            Some(used) => self.weigh(cache, used, len),
            None => ReserveStep::Fetch { id: self.id.as_str() },
        }
    }

    /// Goes on with a reservation of `len` bytes when the tracker has been
    /// asked for the stored total.
    pub fn reserve_fetched<'a>(
        &'a self,
        cache: &mut Option<u64>,
        len: u64,
        reply: Result<u64, Error>,
    ) -> (step: ReserveStep<'a>)
        ensures
            ({
                let turn = crate::model::fetched_turn(self@.limit, *old(cache), len, reply);
                &&& *final(cache) == turn.cache
                &&& step.carries_out(turn.next, self@.id, self@.limit, len)
            }),
    {
        match reply {
            Ok(used) => self.weigh(cache, used, len),
            Err(cause) => ReserveStep::Done(Err(cause)),
        }
    }

    /// Ends a reservation when the tracker has been asked to store `total`.
    pub fn reserve_stored(
        &self,
        cache: &mut Option<u64>,
        total: u64,
        reply: Result<(), Error>,
    ) -> (result: Result<(), Error>)
        ensures
            *final(cache) == crate::model::stored_turn(*old(cache), total, reply).cache,
            reply is Ok ==> *final(cache) == Some(total),
            reply is Err ==> *final(cache) == *old(cache),
            match reply {
                Ok(_) => result == Ok::<(), Error>(()),
                Err(cause) => result == Err::<(), Error>(cause),
            },
    {
        match reply {
            Ok(_) => {
                *cache = Some(total);
                Ok(())
            },
            Err(cause) => Err(cause),
        }
    }

    /// Starts the best-effort release of `len` previously reserved bytes that
    /// turned out not to be durably written. Go on with
    /// [`QuotaState::release_locked`] once the cache is locked.
    pub fn release(&self, len: u64) -> (start: Start)
        ensures
            start is Done <==> len == 0,
    {
        if len == 0 {
            Start::Done
        } else {
            Start::Lock
        }
    }

    /// Goes on with a release of `len` bytes when the cache is locked.
    pub fn release_locked<'a>(&'a self, cache: &Option<u64>, len: u64) -> (step: ReleaseStep<'a>)
        ensures
            step.id@ == self@.id,
            (Next::Store { total: step.total }) == crate::model::release_turn(*cache, len).next,
            *cache matches Some(used) ==> (used >= len ==> step.total + len == used) && (used < len
                ==> step.total == 0),
            *cache is None ==> step.total == 0,
    {
        let used: u64 = match *cache {
            Some(used) => used,
            None => 0,
        };
        ReleaseStep { id: self.id.as_str(), total: used.saturating_sub(len) }
    }

    /// Ends a release when the tracker has been asked to store `total`. If
    /// the store is unreachable there is nothing more useful to do than to
    /// have tried, so the reply makes no difference.
    pub fn release_stored(&self, cache: &mut Option<u64>, total: u64, reply: Result<(), Error>)
        ensures
            *final(cache) == crate::model::released_turn(total).cache,
            *final(cache) == Some(total),
    {
        let _ = reply;
        *cache = Some(total);
    }

    /// Makes a whole reservation of `len` bytes out of the tracker's replies:
    /// `fetch` answers a request for the stored total, and `store` one to
    /// store the new total. A reply that is not called for plays no part.
    pub fn reserve_with(
        &self,
        cache: &mut Option<u64>,
        len: u64,
        fetch: Result<u64, Error>,
        store: Result<(), Error>,
    ) -> (account: Account)
        ensures
            ({
                let run = crate::model::reserve_run(self@.limit, *old(cache), len, fetch, store);
                &&& *final(cache) == run.cache
                &&& account.fetched == run.fetched
                &&& account.stored == run.stored
                &&& ReserveStep::Done(account.result).carries_out(
                    run.end,
                    self@.id,
                    self@.limit,
                    len,
                )
            }),
            len == 0 ==> account.result is Ok && !account.fetched && account.stored is None
                && *final(cache) == *old(cache),
            len > 0 ==> account.fetched == (*old(cache) is None),
            ({
                let known = match *old(cache) {
                    Some(used) => Ok(used),
                    None => fetch,
                };
                &&& len > 0 && known is Err ==> account.result is Err && account.result->Err_0
                    == known->Err_0 && account.stored is None && *final(cache) is None
                &&& len > 0 && known is Ok && known->Ok_0 + len > self@.limit
                    ==> account.result is Err && crate::error::error_view(
                    account.result->Err_0,
                ).kind is RateLimited && account.stored is None && *final(cache) == Some(
                    known->Ok_0,
                )
                &&& len > 0 && known is Ok && known->Ok_0 + len <= self@.limit ==> {
                    &&& account.stored == Some((known->Ok_0 + len) as u64)
                    &&& account.result is Ok <==> store is Ok
                    &&& account.result is Err ==> account.result->Err_0 == store->Err_0
                    &&& *final(cache) == if store is Ok {
                        account.stored
                    } else {
                        Some(known->Ok_0)
                    }
                }
            }),
    {
        match self.reserve(len) {
            Start::Done => {
                return Account { fetched: false, stored: None, result: Ok(()) };
            },
            Start::Lock => {},
        }
        let mut fetched: bool = false;
        let mut step: ReserveStep = self.reserve_locked(cache, len);
        if let ReserveStep::Fetch { .. } = step {
            fetched = true;
            step = self.reserve_fetched(cache, len, fetch);
        }
        match step {
            ReserveStep::Store { total, .. } => {
                let result: Result<(), Error> = self.reserve_stored(cache, total, store);
                Account { fetched, stored: Some(total), result }
            },
            ReserveStep::Done(result) => Account { fetched, stored: None, result },
            ReserveStep::Fetch { .. } => unreached(),
        }
    }

    /// Makes a whole release of `len` bytes out of the tracker's reply to a
    /// request to store the new total. Returns the total that it is asked to
    /// store, if it is asked.
    pub fn release_with(
        &self,
        cache: &mut Option<u64>,
        len: u64,
        store: Result<(), Error>,
    ) -> (stored: Option<u64>)
        ensures
            *final(cache) == crate::model::release_run(*old(cache), len).cache,
            stored == crate::model::release_run(*old(cache), len).stored,
            len == 0 ==> stored is None && *final(cache) == *old(cache),
            len > 0 ==> stored is Some && *final(cache) == stored,
            len > 0 ==> (*old(cache) matches Some(used) ==> (used >= len ==> stored->0 + len
                == used) && (used < len ==> stored->0 == 0)),
    {
        match self.release(len) {
            Start::Done => None,
            Start::Lock => {
                let total: u64 = self.release_locked(cache, len).total;
                self.release_stored(cache, total, store);
                Some(total)
            },
        }
    }
}

} // verus!
