//! Reservations and releases that run at the same time.
//!
//! Any number of calls may be under way on one quota: reservations, which
//! writes make, and releases, which failed writes and aborts make. A call that
//! is not empty waits for the quota's lock, holds it through its turns with
//! the tracker, and then lets go. The order in which calls take their turns is
//! open, and so is what the tracker replies: it may fail, or give a wrong
//! total, or not store what it was asked to. Whatever happens, the calls come
//! to the same as calls made one at a time.
use opendal::Error;
use vstd::prelude::*;

use crate::model::Next;

verus! {

/// What a call is for.
pub enum Kind {
    /// It reserves bytes.
    Reserve,
    /// It releases bytes.
    Release,
}

/// How the tracker replies when it is asked for the stored total.
pub enum Fetch {
    /// With the total that it keeps at that time.
    Kept,
    /// With another total.
    Other { total: u64 },
    /// With an error.
    Failed { cause: Error },
}

impl Fetch {
    /// The reply of a tracker that keeps the total `kept`.
    pub open spec fn reply(self, kept: u64) -> Result<u64, Error> {
        match self {
            Fetch::Kept => Ok(kept),
            Fetch::Other { total } => Ok(total),
            Fetch::Failed { cause } => Err(cause),
        }
    }
}

/// A reservation or a release, and how the tracker treats it.
pub struct Call {
    pub kind: Kind,
    /// How many bytes it is about.
    pub len: u64,
    /// The reply if it asks for the stored total.
    pub fetch: Fetch,
    /// The reply if it asks to have a total stored.
    pub store: Result<(), Error>,
    /// Whether the tracker does store that total, whatever it replies.
    pub landed: bool,
}

impl Call {
    /// Whether the tracker keeps its word: a total that it gives is the one
    /// that it keeps, and it stores a total exactly if it says so. What a
    /// release asks for, it stores.
    pub open spec fn honest(self) -> bool {
        &&& !(self.fetch is Other)
        &&& self.store is Ok <==> self.landed
        &&& self.kind is Release ==> self.landed
    }
}

/// The cached total, and the one that the tracker keeps.
pub struct Books {
    pub cache: Option<u64>,
    pub kept: u64,
}

impl Books {
    /// Whether the cache, if it is warm, holds what the tracker keeps.
    pub open spec fn agree(self) -> bool {
        self.cache matches Some(total) ==> total == self.kept
    }

    /// What `call` comes to by itself.
    pub open spec fn run(self, limit: u64, call: Call) -> crate::model::Run {
        match call.kind {
            Kind::Reserve => crate::model::reserve_run(
                limit,
                self.cache,
                call.len,
                call.fetch.reply(self.kept),
                call.store,
            ),
            Kind::Release => crate::model::release_run(self.cache, call.len),
        }
    }

    /// The books after `call` by itself.
    pub open spec fn after(self, limit: u64, call: Call) -> Books {
        let run = self.run(limit, call);
        Books {
            cache: run.cache,
            kept: match run.stored {
                Some(total) => if call.landed {
                    total
                } else {
                    self.kept
                },
                None => self.kept,
            },
        }
    }

    /// The books after the calls in `order`, one at a time. A call is named by
    /// its place in `calls`.
    pub open spec fn after_all(self, limit: u64, calls: Seq<Call>, order: Seq<int>) -> Books
        decreases order.len(),
    {
        if order.len() == 0 {
            self
        } else {
            self.after_all(limit, calls, order.drop_last()).after(limit, calls[order.last()])
        }
    }
}

/// Where a call is.
pub enum Stage {
    /// It has not had a turn yet.
    Waiting,
    /// It holds the lock and has asked something of the tracker.
    Asking { next: Next },
    /// It is over.
    Ended { end: Next },
}

/// Calls under way on one quota.
pub struct Floor {
    /// The cached total, and the one that the tracker keeps.
    pub books: Books,
    /// Where each call is.
    pub stages: Seq<Stage>,
    /// The call that holds the lock.
    pub holder: Option<int>,
    /// The calls that are over, in the order in which they ended.
    pub order: Seq<int>,
}

impl Floor {
    /// All of `calls`, none of which has had a turn yet.
    pub open spec fn open(books: Books, calls: Seq<Call>) -> Floor {
        Floor {
            books,
            stages: Seq::new(calls.len(), |i: int| Stage::Waiting),
            holder: None,
            order: Seq::empty(),
        }
    }

    /// Whether call `i` can take a turn: an empty call needs no lock, and any
    /// other gets it only while nobody else has it.
    pub open spec fn allows(self, calls: Seq<Call>, i: int) -> bool {
        &&& 0 <= i < self.stages.len()
        &&& match self.stages[i] {
            Stage::Waiting => calls[i].len == 0 || self.holder is None,
            Stage::Asking { .. } => true,
            Stage::Ended { .. } => false,
        }
    }

    /// The floor when call `i` has come to `turn`, with the tracker keeping
    /// `kept`.
    pub open spec fn reach(self, i: int, turn: crate::model::Turn, kept: u64) -> Floor {
        let books = Books { cache: turn.cache, kept };
        if turn.next is Fetch || turn.next is Store {
            Floor {
                books,
                stages: self.stages.update(i, Stage::Asking { next: turn.next }),
                holder: Some(i),
                ..self
            }
        } else {
            Floor {
                books,
                stages: self.stages.update(i, Stage::Ended { end: turn.next }),
                holder: None,
                order: self.order.push(i),
            }
        }
    }

    /// The turn in which `call` finds the cache.
    pub open spec fn locked_turn(self, limit: u64, call: Call) -> crate::model::Turn {
        match call.kind {
            Kind::Reserve => crate::model::locked_turn(limit, self.books.cache, call.len),
            Kind::Release => crate::model::release_turn(self.books.cache, call.len),
        }
    }

    /// The turn after `call` has asked to have `total` stored.
    pub open spec fn stored_turn(self, call: Call, total: u64) -> crate::model::Turn {
        match call.kind {
            Kind::Reserve => crate::model::stored_turn(self.books.cache, total, call.store),
            Kind::Release => crate::model::released_turn(total),
        }
    }

    /// The floor after call `i` has taken a turn.
    pub open spec fn after(self, limit: u64, calls: Seq<Call>, i: int) -> Floor {
        let Books { cache, kept } = self.books;
        let call = calls[i];
        match self.stages[i] {
            Stage::Waiting => if call.len == 0 {
                Floor {
                    stages: self.stages.update(i, Stage::Ended { end: Next::Grant }),
                    order: self.order.push(i),
                    ..self
                }
            } else {
                self.reach(i, self.locked_turn(limit, call), kept)
            },
            Stage::Asking { next: Next::Fetch } => self.reach(
                i,
                crate::model::fetched_turn(limit, cache, call.len, call.fetch.reply(kept)),
                kept,
            ),
            Stage::Asking { next: Next::Store { total } } => self.reach(
                i,
                self.stored_turn(call, total),
                if call.landed {
                    total
                } else {
                    kept
                },
            ),
            _ => self,
        }
    }

    /// The floor after the calls in `turns` have taken a turn each, in that
    /// order.
    pub open spec fn after_all(self, limit: u64, calls: Seq<Call>, turns: Seq<int>) -> Floor
        decreases turns.len(),
    {
        if turns.len() == 0 {
            self
        } else {
            self.after_all(limit, calls, turns.drop_last()).after(limit, calls, turns.last())
        }
    }

    /// Whether the calls in `turns` can take a turn each, in that order.
    pub open spec fn allows_all(self, limit: u64, calls: Seq<Call>, turns: Seq<int>) -> bool
        decreases turns.len(),
    {
        turns.len() == 0 || (self.allows_all(limit, calls, turns.drop_last()) && self.after_all(
            limit,
            calls,
            turns.drop_last(),
        ).allows(calls, turns.last()))
    }

    /// Whether the call at place `k` of `order` ended as it does when the
    /// calls are made one at a time in that order.
    pub open spec fn ends_alike(self, limit: u64, start: Books, calls: Seq<Call>, k: int) -> bool {
        let i = self.order[k];
        let before = start.after_all(limit, calls, self.order.take(k));
        &&& 0 <= i < calls.len()
        &&& self.stages[i] == (Stage::Ended { end: before.run(limit, calls[i]).end })
    }

    /// Whether what has happened so far amounts to the calls that are over,
    /// one at a time, and the first turns of the one that holds the lock.
    spec fn sequential(self, limit: u64, start: Books, calls: Seq<Call>) -> bool {
        let so_far = start.after_all(limit, calls, self.order);
        &&& self.stages.len() == calls.len()
        &&& forall|i: int|
            0 <= i < calls.len() ==> ((#[trigger] self.stages[i]) is Asking <==> self.holder
                == Some(i))
        &&& forall|i: int|
            0 <= i < calls.len() ==> ((#[trigger] self.stages[i]) is Ended
                <==> self.order.contains(i))
        &&& forall|k: int|
            0 <= k < self.order.len() ==> #[trigger] self.ends_alike(limit, start, calls, k)
        &&& self.order.no_duplicates()
        &&& match self.holder {
            None => self.books == so_far,
            Some(i) => {
                &&& 0 <= i < calls.len()
                &&& calls[i].len > 0
                &&& self.books.kept == so_far.kept
                &&& self.halfway(so_far, limit, calls[i], self.stages[i])
            },
        }
    }

    /// Whether the cache is as `call` has left it at `stage`, where it started
    /// from `so_far`.
    spec fn halfway(self, so_far: Books, limit: u64, call: Call, stage: Stage) -> bool {
        match (call.kind, stage) {
            (Kind::Reserve, Stage::Asking { next: Next::Fetch }) => so_far.cache is None
                && self.books.cache is None,
            (Kind::Reserve, Stage::Asking { next: Next::Store { total } }) => {
                &&& crate::laws::known_total(
                    so_far.cache,
                    call.fetch.reply(so_far.kept),
                ) matches Some(used)
                &&& self.books.cache == Some(used)
                &&& total == used + call.len
                &&& total <= limit
            },
            (Kind::Release, Stage::Asking { next: Next::Store { total } }) => {
                &&& self.books.cache == so_far.cache
                &&& total == crate::model::release_total(so_far.cache, call.len)
            },
            _ => false,
        }
    }
}

/// A call that ends now joins the order of those that are over.
proof fn lemma_end(
    limit: u64,
    start: Books,
    calls: Seq<Call>,
    before: Floor,
    after: Floor,
    i: int,
    end: Next,
)
    requires
        before.sequential(limit, start, calls),
        0 <= i < calls.len(),
        !(before.stages[i] is Ended),
        after.stages == before.stages.update(i, Stage::Ended { end }),
        after.order == before.order.push(i),
        end == start.after_all(limit, calls, before.order).run(limit, calls[i]).end,
    ensures
        start.after_all(limit, calls, after.order) == start.after_all(
            limit,
            calls,
            before.order,
        ).after(limit, calls[i]),
        forall|k: int|
            0 <= k < after.order.len() ==> #[trigger] after.ends_alike(limit, start, calls, k),
        after.order.no_duplicates(),
        forall|j: int|
            0 <= j < calls.len() ==> ((#[trigger] after.stages[j]) is Ended
                <==> after.order.contains(j)),
{
    let n = before.order.len() as int;
    assert(!before.order.contains(i));
    assert(after.order.drop_last() =~= before.order);
    assert forall|k: int| 0 <= k < after.order.len() implies #[trigger] after.ends_alike(
        limit,
        start,
        calls,
        k,
    ) by {
        if k < n {
            assert(before.ends_alike(limit, start, calls, k));
            assert(after.order.take(k) =~= before.order.take(k));
            assert(before.order.contains(before.order[k]));
        } else {
            assert(after.order.take(k) =~= before.order);
        }
    }
    assert forall|j: int| 0 <= j < calls.len() implies ((#[trigger] after.stages[j]) is Ended
        <==> after.order.contains(j)) by {
        if before.order.contains(j) {
            let k = choose|k: int| 0 <= k < n && before.order[k] == j;
            assert(after.order[k] == j);
        }
        assert(before.stages[j] is Ended <==> before.order.contains(j));
        assert(after.order[n] == i);
    }
}

/// Every turn keeps the floor in line with calls made one at a time.
proof fn lemma_turn(limit: u64, start: Books, calls: Seq<Call>, floor: Floor, i: int)
    requires
        floor.sequential(limit, start, calls),
        floor.allows(calls, i),
    ensures
        floor.after(limit, calls, i).sequential(limit, start, calls),
{
    let after = floor.after(limit, calls, i);
    match after.stages[i] {
        Stage::Ended { end } => {
            lemma_end(limit, start, calls, floor, after, i, end);
        },
        _ => {
            assert forall|k: int| 0 <= k < after.order.len() implies #[trigger] after.ends_alike(
                limit,
                start,
                calls,
                k,
            ) by {
                assert(floor.ends_alike(limit, start, calls, k));
                assert(floor.order.contains(floor.order[k]));
            }
        },
    }
}

/// Any turns keep the floor in line with calls made one at a time.
proof fn lemma_turns(limit: u64, start: Books, calls: Seq<Call>, turns: Seq<int>)
    requires
        Floor::open(start, calls).allows_all(limit, calls, turns),
    ensures
        Floor::open(start, calls).after_all(limit, calls, turns).sequential(limit, start, calls),
    decreases turns.len(),
{
    if turns.len() > 0 {
        lemma_turns(limit, start, calls, turns.drop_last());
        lemma_turn(
            limit,
            start,
            calls,
            Floor::open(start, calls).after_all(limit, calls, turns.drop_last()),
            turns.last(),
        );
    }
}

/// Reservations and releases that run at the same time amount to reservations
/// and releases made one at a time, in the order in which they end. Each ends
/// as it does there, and once nobody holds the lock, the cached total and the
/// one that the tracker keeps are what they are there. This is so whatever the
/// tracker replies and does.
pub proof fn law_calls_serialize(limit: u64, start: Books, calls: Seq<Call>, turns: Seq<int>)
    requires
        Floor::open(start, calls).allows_all(limit, calls, turns),
    ensures
        ({
            let floor = Floor::open(start, calls).after_all(limit, calls, turns);
            &&& floor.order.no_duplicates()
            &&& forall|i: int|
                0 <= i < calls.len() ==> ((#[trigger] floor.stages[i]) is Ended
                    <==> floor.order.contains(i))
            &&& forall|k: int|
                0 <= k < floor.order.len() ==> #[trigger] floor.ends_alike(limit, start, calls, k)
            &&& floor.holder is None ==> floor.books == start.after_all(limit, calls, floor.order)
        }),
{
    lemma_turns(limit, start, calls, turns);
}

/// Whether `call` is of the given kind and ended with a grant.
pub open spec fn done(call: Call, stage: Stage, kind: Kind) -> bool {
    call.kind == kind && stage == (Stage::Ended { end: Next::Grant })
}

/// The lengths of the calls of one kind that ended with a grant together.
pub open spec fn bytes_done(calls: Seq<Call>, stages: Seq<Stage>, kind: Kind) -> nat
    decreases calls.len(),
{
    if calls.len() == 0 {
        0
    } else {
        bytes_done(calls.drop_last(), stages, kind) + if done(
            calls.last(),
            stages[calls.len() - 1],
            kind,
        ) {
            calls.last().len as nat
        } else {
            0
        }
    }
}

/// A call that ends adds its length if it was granted.
proof fn lemma_bytes_done(calls: Seq<Call>, stages: Seq<Stage>, kind: Kind, i: int, stage: Stage)
    requires
        calls.len() <= stages.len(),
        0 <= i < stages.len(),
        !(stages[i] is Ended),
    ensures
        bytes_done(calls, stages.update(i, stage), kind) == bytes_done(calls, stages, kind) + if i
            < calls.len() && done(calls[i], stage, kind) {
            calls[i].len as nat
        } else {
            0
        },
    decreases calls.len(),
{
    if calls.len() > 0 {
        lemma_bytes_done(calls.drop_last(), stages, kind, i, stage);
    }
}

/// While nobody has had a turn, nothing was granted.
proof fn lemma_nothing_done(calls: Seq<Call>, stages: Seq<Stage>, kind: Kind)
    requires
        calls.len() <= stages.len(),
        forall|i: int| 0 <= i < stages.len() ==> #[trigger] stages[i] is Waiting,
    ensures
        bytes_done(calls, stages, kind) == 0,
    decreases calls.len(),
{
    if calls.len() > 0 {
        lemma_nothing_done(calls.drop_last(), stages, kind);
    }
}

impl Floor {
    /// Whether call `i`, if it is a release that now gets the lock, gives back
    /// no more than the cached total.
    pub open spec fn covers(self, calls: Seq<Call>, i: int) -> bool {
        calls[i].kind is Release && calls[i].len > 0 && self.stages[i] is Waiting ==> (
        self.books.cache matches Some(total) && calls[i].len <= total)
    }

    /// Whether that holds of each turn in `turns`.
    pub open spec fn covers_all(self, limit: u64, calls: Seq<Call>, turns: Seq<int>) -> bool
        decreases turns.len(),
    {
        turns.len() == 0 || (self.covers_all(limit, calls, turns.drop_last()) && self.after_all(
            limit,
            calls,
            turns.drop_last(),
        ).covers(calls, turns.last()))
    }

    /// Whether the cache and the tracker agree, and the call that holds the
    /// lock is about to change both by its own length.
    spec fn in_step(self, limit: u64, calls: Seq<Call>) -> bool {
        &&& self.books.agree()
        &&& self.holder matches Some(i) ==> match (calls[i].kind, self.stages[i]) {
            (Kind::Reserve, Stage::Asking { next: Next::Store { total } }) => self.books.cache
                is Some && total == self.books.kept + calls[i].len && total <= limit,
            (Kind::Release, Stage::Asking { next: Next::Store { total } }) => self.books.cache
                is Some && total == self.books.kept - calls[i].len,
            _ => true,
        }
    }
}

/// No update is lost: with a tracker that keeps its word, though it may fail,
/// the total that it keeps is what it started from, plus the lengths of the
/// reservations that were granted, less the lengths of the releases, in
/// whatever order they took their turns. It is within the limit if it started
/// there, and a warm cache holds the same.
pub proof fn law_no_update_is_lost(limit: u64, start: Books, calls: Seq<Call>, turns: Seq<int>)
    requires
        start.agree(),
        forall|i: int| 0 <= i < calls.len() ==> (#[trigger] calls[i]).honest(),
        Floor::open(start, calls).allows_all(limit, calls, turns),
        Floor::open(start, calls).covers_all(limit, calls, turns),
    ensures
        ({
            let floor = Floor::open(start, calls).after_all(limit, calls, turns);
            &&& floor.books.kept + bytes_done(calls, floor.stages, Kind::Release) == start.kept
                + bytes_done(calls, floor.stages, Kind::Reserve)
            &&& start.kept <= limit ==> floor.books.kept <= limit
            &&& floor.books.agree()
        }),
{
    lemma_in_step(limit, start, calls, turns);
}

/// Any turns keep the cache and the tracker in step.
proof fn lemma_in_step(limit: u64, start: Books, calls: Seq<Call>, turns: Seq<int>)
    requires
        start.agree(),
        forall|i: int| 0 <= i < calls.len() ==> (#[trigger] calls[i]).honest(),
        Floor::open(start, calls).allows_all(limit, calls, turns),
        Floor::open(start, calls).covers_all(limit, calls, turns),
    ensures
        ({
            let floor = Floor::open(start, calls).after_all(limit, calls, turns);
            &&& floor.in_step(limit, calls)
            &&& floor.books.kept + bytes_done(calls, floor.stages, Kind::Release) == start.kept
                + bytes_done(calls, floor.stages, Kind::Reserve)
            &&& start.kept <= limit ==> floor.books.kept <= limit
        }),
    decreases turns.len(),
{
    if turns.len() == 0 {
        lemma_nothing_done(calls, Floor::open(start, calls).stages, Kind::Reserve);
        lemma_nothing_done(calls, Floor::open(start, calls).stages, Kind::Release);
    } else {
        let i = turns.last();
        let before = Floor::open(start, calls).after_all(limit, calls, turns.drop_last());
        let after = Floor::open(start, calls).after_all(limit, calls, turns);
        lemma_in_step(limit, start, calls, turns.drop_last());
        lemma_turns(limit, start, calls, turns.drop_last());
        assert(calls[i].honest());
        lemma_bytes_done(calls, before.stages, Kind::Reserve, i, after.stages[i]);
        lemma_bytes_done(calls, before.stages, Kind::Release, i, after.stages[i]);
    }
}

} // verus!
