//! Many writers on one quota.
//!
//! Each reservation and each release holds the quota's lock from its first
//! turn to its last, so they happen one after the other. In between, writers
//! come and go in any order. A [`Ledger`] follows where the bytes are.
use opendal::Error;
use vstd::prelude::*;

use crate::writer::{AbortStep, WriteStep};

verus! {

/// Where the bytes of one quota are.
pub struct Ledger {
    /// The cached total.
    pub cache: Option<u64>,
    /// The total that warmed the cache.
    pub base: nat,
    /// Bytes of writers that were closed.
    pub settled: nat,
    /// Bytes that each writer has reserved and not yet confirmed durable.
    pub reserved: Seq<u64>,
    /// Bytes that writers have given up and that are yet to be released.
    pub releasing: nat,
}

/// Something that happens on a quota.
pub enum Event {
    /// A new writer is opened.
    Open,
    /// A writer asks for `len` bytes. `fetch` and `store` are the tracker's
    /// replies, and `refusal` is the error for a write over the quota.
    Reserve {
        writer: int,
        len: u64,
        fetch: Result<u64, Error>,
        store: Result<(), Error>,
        refusal: Error,
    },
    /// A writer's inner writer replies to `len` reserved bytes.
    Forwarded { writer: int, len: u64, reply: Result<(), Error> },
    /// A writer's inner writer replies to a close.
    Closed { writer: int, reply: Result<(), Error> },
    /// A writer's inner writer replies to an abort.
    Aborted { writer: int, reply: Result<(), Error> },
    /// Bytes that were given up are released.
    Release { len: u64 },
}

/// The sum of `counts`.
pub open spec fn sum(counts: Seq<u64>) -> nat
    decreases counts.len(),
{
    if counts.len() == 0 {
        0
    } else {
        sum(counts.drop_last()) + counts.last() as nat
    }
}

/// Replacing one count changes the sum by the difference.
proof fn lemma_sum_update(counts: Seq<u64>, i: int, count: u64)
    requires
        0 <= i < counts.len(),
    ensures
        sum(counts.update(i, count)) == sum(counts) - counts[i] + count,
        counts[i] <= sum(counts),
    decreases counts.len(),
{
    let updated = counts.update(i, count);
    if i == counts.len() - 1 {
        assert(updated.drop_last() =~= counts.drop_last());
    } else {
        assert(updated.drop_last() =~= counts.drop_last().update(i, count));
        lemma_sum_update(counts.drop_last(), i, count);
    }
}

/// One more count raises the sum by it.
proof fn lemma_sum_push(counts: Seq<u64>, count: u64)
    ensures
        sum(counts.push(count)) == sum(counts) + count,
{
    assert(counts.push(count).drop_last() =~= counts);
}

impl Ledger {
    /// A quota that nobody has used yet.
    pub open spec fn fresh() -> Ledger {
        Ledger { cache: None, base: 0, settled: 0, reserved: Seq::empty(), releasing: 0 }
    }

    /// Bytes that were granted and not released.
    pub open spec fn granted(self) -> nat {
        self.settled + sum(self.reserved) + self.releasing
    }

    /// Whether `event` can happen: its writer exists, and nobody hears of
    /// bytes or releases bytes that there are none of.
    pub open spec fn allows(self, event: Event) -> bool {
        match event {
            Event::Open => true,
            Event::Reserve { writer, .. } => 0 <= writer < self.reserved.len(),
            Event::Forwarded { writer, len, .. } => 0 <= writer < self.reserved.len() && len
                <= self.reserved[writer],
            Event::Closed { writer, .. } => 0 <= writer < self.reserved.len(),
            Event::Aborted { writer, .. } => 0 <= writer < self.reserved.len(),
            Event::Release { len } => len <= self.releasing,
        }
    }

    /// The reservation or release that `event` makes, if it makes one.
    pub open spec fn run(self, limit: u64, event: Event) -> Option<crate::model::Run> {
        match event {
            Event::Reserve { len, fetch, store, .. } => Some(
                crate::model::reserve_run(limit, self.cache, len, fetch, store),
            ),
            Event::Release { len } => Some(crate::model::release_run(self.cache, len)),
            _ => None,
        }
    }

    /// The ledger after `event` under the given limit.
    pub open spec fn after(self, limit: u64, event: Event) -> Ledger {
        match event {
            Event::Open => Ledger { reserved: self.reserved.push(0), ..self },
            Event::Reserve { writer, len, fetch, store, refusal } => {
                let run = crate::model::reserve_run(limit, self.cache, len, fetch, store);
                let turn = crate::model::reserved_turn(
                    self.reserved[writer],
                    len,
                    run.answer(refusal),
                );
                Ledger {
                    cache: run.cache,
                    base: if self.cache is None && run.cache is Some {
                        fetch->Ok_0 as nat
                    } else {
                        self.base
                    },
                    reserved: self.reserved.update(writer, turn.reserved),
                    ..self
                }
            },
            Event::Forwarded { writer, len, reply } => {
                let turn = crate::model::forwarded_turn(self.reserved[writer], len, reply);
                Ledger {
                    reserved: self.reserved.update(writer, turn.reserved),
                    releasing: self.releasing + match turn.step {
                        WriteStep::Release { len: given, .. } => given as nat,
                        _ => 0,
                    },
                    ..self
                }
            },
            Event::Closed { writer, reply } => {
                let left = crate::model::closed_turn(self.reserved[writer], reply);
                Ledger {
                    settled: (self.settled + self.reserved[writer] - left) as nat,
                    reserved: self.reserved.update(writer, left),
                    ..self
                }
            },
            Event::Aborted { writer, reply } => {
                let turn = crate::model::aborted_turn(self.reserved[writer], reply);
                Ledger {
                    reserved: self.reserved.update(writer, turn.reserved),
                    releasing: self.releasing + match turn.step {
                        AbortStep::Release { len: given } => given as nat,
                        _ => 0,
                    },
                    ..self
                }
            },
            Event::Release { len } => Ledger {
                cache: crate::model::release_run(self.cache, len).cache,
                releasing: (self.releasing - len) as nat,
                ..self
            },
        }
    }

    /// The ledger after all of `events`, in order.
    pub open spec fn after_all(self, limit: u64, events: Seq<Event>) -> Ledger
        decreases events.len(),
    {
        if events.len() == 0 {
            self
        } else {
            self.after_all(limit, events.drop_last()).after(limit, events.last())
        }
    }

    /// Whether all of `events` can happen, in order.
    pub open spec fn allows_all(self, limit: u64, events: Seq<Event>) -> bool
        decreases events.len(),
    {
        events.len() == 0 || (self.allows_all(limit, events.drop_last()) && self.after_all(
            limit,
            events.drop_last(),
        ).allows(events.last()))
    }

    /// Whether the books balance: the cached total is what it started from
    /// and what was granted since, and what was granted is within the limit.
    pub open spec fn balanced(self, limit: u64) -> bool {
        match self.cache {
            None => self.granted() == 0,
            Some(total) => total == self.base + self.granted() && (self.granted() > 0 ==> total
                <= limit),
        }
    }
}

/// Every event keeps the books balanced.
pub proof fn law_event_keeps_balance(limit: u64, ledger: Ledger, event: Event)
    requires
        ledger.balanced(limit),
        ledger.allows(event),
    ensures
        ledger.after(limit, event).balanced(limit),
{
    match event {
        Event::Open => {
            lemma_sum_push(ledger.reserved, 0);
        },
        Event::Reserve { writer, .. }
        | Event::Forwarded { writer, .. }
        | Event::Closed { writer, .. }
        | Event::Aborted { writer, .. } => {
            lemma_sum_update(
                ledger.reserved,
                writer,
                ledger.after(limit, event).reserved[writer],
            );
        },
        Event::Release { .. } => {},
    }
}

/// However many writers share a quota and whatever becomes of them, the books
/// balance: the total is what it started from, plus what was closed, plus what
/// is still reserved or on its way back, and what was granted keeps it within
/// the limit.
pub proof fn law_books_always_balance(limit: u64, events: Seq<Event>)
    requires
        Ledger::fresh().allows_all(limit, events),
    ensures
        Ledger::fresh().after_all(limit, events).balanced(limit),
    decreases events.len(),
{
    if events.len() > 0 {
        law_books_always_balance(limit, events.drop_last());
        law_event_keeps_balance(
            limit,
            Ledger::fresh().after_all(limit, events.drop_last()),
            events.last(),
        );
    }
}

/// The lengths of the reservations that were granted in `events`, which begin
/// with a fresh quota, together.
pub open spec fn bytes_granted(limit: u64, events: Seq<Event>) -> nat
    decreases events.len(),
{
    if events.len() == 0 {
        0
    } else {
        let before = Ledger::fresh().after_all(limit, events.drop_last());
        bytes_granted(limit, events.drop_last()) + match events.last() {
            Event::Reserve { len, fetch, store, .. } => if crate::model::reserve_run(
                limit,
                before.cache,
                len,
                fetch,
                store,
            ).end is Grant {
                len as nat
            } else {
                0
            },
            _ => 0,
        }
    }
}

/// The lengths of the releases in `events` together.
pub open spec fn bytes_released(events: Seq<Event>) -> nat
    decreases events.len(),
{
    if events.len() == 0 {
        0
    } else {
        bytes_released(events.drop_last()) + match events.last() {
            Event::Release { len } => len as nat,
            _ => 0,
        }
    }
}

/// The total is what it started from, plus the lengths of all writes that were
/// granted, less what was released. No update is lost, in whatever order
/// writers take their turns.
pub proof fn law_total_adds_up(limit: u64, events: Seq<Event>)
    requires
        Ledger::fresh().allows_all(limit, events),
    ensures
        ({
            let ledger = Ledger::fresh().after_all(limit, events);
            match ledger.cache {
                Some(total) => total + bytes_released(events) == ledger.base + bytes_granted(
                    limit,
                    events,
                ),
                None => bytes_released(events) == 0 && bytes_granted(limit, events) == 0,
            }
        }),
    decreases events.len(),
{
    if events.len() > 0 {
        law_total_adds_up(limit, events.drop_last());
        law_books_always_balance(limit, events.drop_last());
    }
}

/// How many of `events`, which begin with a fresh quota, asked the tracker for
/// the stored total and were given one.
pub open spec fn fetches(limit: u64, events: Seq<Event>) -> nat
    decreases events.len(),
{
    if events.len() == 0 {
        0
    } else {
        let before = Ledger::fresh().after_all(limit, events.drop_last());
        let fetched = match events.last() {
            Event::Reserve { len, fetch, store, .. } => crate::model::reserve_run(
                limit,
                before.cache,
                len,
                fetch,
                store,
            ).fetched && fetch is Ok,
            _ => false,
        };
        fetches(limit, events.drop_last()) + if fetched {
            1nat
        } else {
            0
        }
    }
}

/// The tracker gives the stored total at most once over the life of a quota,
/// to warm the cache. While the cache is cold it has not given one.
pub proof fn law_fetched_at_most_once(limit: u64, events: Seq<Event>)
    ensures
        fetches(limit, events) <= 1,
        Ledger::fresh().after_all(limit, events).cache is None ==> fetches(limit, events) == 0,
    decreases events.len(),
{
    if events.len() > 0 {
        law_fetched_at_most_once(limit, events.drop_last());
    }
}

/// After the tracker has given the stored total, no event asks for it again.
pub proof fn law_not_fetched_again(limit: u64, events: Seq<Event>, next: Event)
    requires
        fetches(limit, events) > 0,
    ensures
        Ledger::fresh().after_all(limit, events).run(limit, next) matches Some(run)
            ==> !run.fetched,
{
    law_fetched_at_most_once(limit, events);
}

/// Whether a stored total that the tracker gives in `event` is within the
/// limit.
pub open spec fn starts_within(limit: u64, event: Event) -> bool {
    event matches Event::Reserve { fetch: Ok(used), .. } ==> used <= limit
}

/// A quota whose tracker starts it within its limit never leaves it: the
/// cached total is within the limit, and so is every total that the tracker is
/// asked to store next.
pub proof fn law_total_stays_within_limit(limit: u64, events: Seq<Event>, next: Event)
    requires
        forall|i: int| 0 <= i < events.len() ==> starts_within(limit, #[trigger] events[i]),
    ensures
        ({
            let ledger = Ledger::fresh().after_all(limit, events);
            &&& ledger.cache matches Some(total) ==> total <= limit
            &&& ledger.run(limit, next) matches Some(run) ==> (run.stored matches Some(total)
                ==> total <= limit)
        }),
    decreases events.len(),
{
    if events.len() > 0 {
        let earlier = events.drop_last();
        assert forall|i: int| 0 <= i < earlier.len() implies starts_within(
            limit,
            #[trigger] earlier[i],
        ) by {
            assert(earlier[i] == events[i]);
        }
        law_total_stays_within_limit(limit, earlier, events.last());
        assert(starts_within(limit, events[events.len() - 1]));
    }
}

/// What one writer has reserved always fits its counter, also with a chunk
/// that has just been granted to it.
pub proof fn law_reserved_never_overflows(
    limit: u64,
    ledger: Ledger,
    writer: int,
    len: u64,
    fetch: Result<u64, Error>,
    store: Result<(), Error>,
)
    requires
        ledger.balanced(limit),
        0 <= writer < ledger.reserved.len(),
        crate::model::reserve_run(limit, ledger.cache, len, fetch, store).end is Grant,
    ensures
        ledger.reserved[writer] + len <= u64::MAX,
{
    lemma_sum_update(ledger.reserved, writer, 0);
}

/// An aborted writer gives back exactly what it had reserved, whatever other
/// writers have done in the meantime.
pub proof fn law_abort_gives_back(limit: u64, ledger: Ledger, writer: int)
    requires
        ledger.balanced(limit),
        0 <= writer < ledger.reserved.len(),
        ledger.cache is Some,
    ensures
        ({
            let len = ledger.reserved[writer];
            let aborted = ledger.after(limit, Event::Aborted { writer, reply: Ok(()) });
            let released = aborted.after(limit, Event::Release { len });
            &&& aborted.allows(Event::Release { len })
            &&& released.cache matches Some(total)
            &&& total == ledger.cache->0 - len
            &&& released.releasing == ledger.releasing
            &&& released.reserved == ledger.reserved.update(writer, 0)
        }),
{
    lemma_sum_update(ledger.reserved, writer, 0);
}

/// A chunk that the inner writer fails to write is given back in full: the
/// total and the writer's reservation are what they were before the chunk was
/// granted.
pub proof fn law_failed_write_gives_back(
    limit: u64,
    ledger: Ledger,
    writer: int,
    len: u64,
    fetch: Result<u64, Error>,
    store: Result<(), Error>,
    refusal: Error,
    cause: Error,
)
    requires
        ledger.balanced(limit),
        0 <= writer < ledger.reserved.len(),
        crate::model::reserve_run(limit, ledger.cache, len, fetch, store).end is Grant,
    ensures
        ({
            let granted = ledger.after(
                limit,
                Event::Reserve { writer, len, fetch, store, refusal },
            );
            let failure = Event::Forwarded { writer, len, reply: Err(cause) };
            let failed = granted.after(limit, failure);
            let released = failed.after(limit, Event::Release { len });
            &&& granted.allows(failure)
            &&& failed.allows(Event::Release { len })
            &&& released.reserved == ledger.reserved
            &&& released.releasing == ledger.releasing
            &&& len > 0 ==> released.cache == crate::laws::known_total(ledger.cache, fetch)
            &&& len == 0 ==> released.cache == ledger.cache
        }),
{
    let granted = ledger.after(limit, Event::Reserve { writer, len, fetch, store, refusal });
    let failed = granted.after(limit, Event::Forwarded { writer, len, reply: Err(cause) });
    law_reserved_never_overflows(limit, ledger, writer, len, fetch, store);
    assert(failed.reserved =~= ledger.reserved);
}

} // verus!
