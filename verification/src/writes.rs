//! What holds of a writer over a whole write, a close and an abort.
//!
//! The caller of a write does what each step asks for until the write ends. A
//! [`Trail`] records what it did: how often it handed the chunk to the inner
//! writer, and what it reserved and released.
use opendal::Error;
use vstd::prelude::*;

use crate::ledger::{Event, Ledger};
use crate::writer::{AbortStep, WriteStep};

verus! {

/// What the caller of a write has done so far.
pub struct Trail {
    /// What the writer has reserved.
    pub reserved: u64,
    /// The lengths that the caller asked the quota for.
    pub asked: Seq<u64>,
    /// How often the caller handed the chunk to the inner writer.
    pub handed: nat,
    /// The lengths that the caller released.
    pub released: Seq<u64>,
    /// What the write returned, if it is over.
    pub end: Option<Result<(), Error>>,
}

/// The trail after at most `turns` more steps, of which `step` is the first.
/// `grant` is the quota's reply, and `replies` are the inner writer's, one for
/// each time that it is handed the chunk.
pub open spec fn follow(
    trail: Trail,
    step: WriteStep,
    grant: Result<(), Error>,
    replies: spec_fn(nat) -> Result<(), Error>,
    turns: nat,
) -> Trail
    decreases turns,
{
    if turns == 0 {
        trail
    } else {
        let left = (turns - 1) as nat;
        match step {
            WriteStep::Reserve { len } => {
                let turn = crate::model::reserved_turn(trail.reserved, len, grant);
                let next = Trail {
                    reserved: turn.reserved,
                    asked: trail.asked.push(len),
                    ..trail
                };
                follow(next, turn.step, grant, replies, left)
            },
            WriteStep::Forward { len } => {
                let turn = crate::model::forwarded_turn(
                    trail.reserved,
                    len,
                    replies(trail.handed),
                );
                let next = Trail { reserved: turn.reserved, handed: trail.handed + 1, ..trail };
                follow(next, turn.step, grant, replies, left)
            },
            WriteStep::Release { len, cause } => Trail {
                released: trail.released.push(len),
                end: Some(Err(cause)),
                ..trail
            },
            WriteStep::Done(result) => Trail { end: Some(result), ..trail },
        }
    }
}

/// The trail of a write of `len` bytes by a writer that has `reserved` bytes
/// reserved.
pub open spec fn write_trail(
    reserved: u64,
    len: u64,
    grant: Result<(), Error>,
    replies: spec_fn(nat) -> Result<(), Error>,
    turns: nat,
) -> Trail {
    follow(
        Trail { reserved, asked: Seq::empty(), handed: 0, released: Seq::empty(), end: None },
        WriteStep::Reserve { len },
        grant,
        replies,
        turns,
    )
}

/// A chunk that is granted is handed to the inner writer exactly once, and the
/// write ends with the inner writer's reply. If that is success, the writer
/// has the chunk's bytes reserved and nothing is released. If it is a failure,
/// the chunk's bytes are released and the writer has reserved what it had.
pub proof fn law_granted_chunk_is_handed_once(
    reserved: u64,
    len: u64,
    grant: Result<(), Error>,
    replies: spec_fn(nat) -> Result<(), Error>,
    turns: nat,
)
    requires
        grant is Ok,
        reserved + len <= u64::MAX,
        turns >= 3,
    ensures
        ({
            let trail = write_trail(reserved, len, grant, replies, turns);
            &&& trail.asked == seq![len]
            &&& trail.handed == 1
            &&& trail.end is Some
            &&& replies(0) is Ok ==> {
                &&& trail.end->0 is Ok
                &&& trail.reserved == reserved + len
                &&& trail.released.len() == 0
            }
            &&& replies(0) is Err ==> {
                &&& trail.end->0 is Err
                &&& trail.end->0->Err_0 == replies(0)->Err_0
                &&& trail.reserved == reserved
                &&& trail.released == seq![len]
            }
        }),
{
    reveal_with_fuel(follow, 4);
}

/// A chunk that is not granted never reaches the inner writer: the write ends
/// at once with the error that the quota gave, nothing is released, and the
/// writer has reserved what it had.
pub proof fn law_refused_chunk_is_not_handed(
    reserved: u64,
    len: u64,
    cause: Error,
    replies: spec_fn(nat) -> Result<(), Error>,
    turns: nat,
)
    requires
        turns >= 3,
    ensures
        ({
            let trail = write_trail(reserved, len, Err(cause), replies, turns);
            &&& trail.handed == 0
            &&& trail.end is Some
            &&& trail.end->0 is Err
            &&& trail.end->0->Err_0 == cause
            &&& trail.released.len() == 0
            &&& trail.reserved == reserved
        }),
{
    reveal_with_fuel(follow, 4);
}

/// A write ends in success only if its chunk was granted, was handed to the
/// inner writer once, and was taken by it.
pub proof fn law_success_means_handed(
    reserved: u64,
    len: u64,
    grant: Result<(), Error>,
    replies: spec_fn(nat) -> Result<(), Error>,
    turns: nat,
)
    requires
        grant is Ok ==> reserved + len <= u64::MAX,
        write_trail(reserved, len, grant, replies, turns).end matches Some(result) && result is Ok,
    ensures
        grant is Ok,
        write_trail(reserved, len, grant, replies, turns).handed == 1,
        replies(0) is Ok,
{
    reveal_with_fuel(follow, 4);
}

/// The cached total after `trail`, given the one after its reservation.
pub open spec fn settle(cache: Option<u64>, released: Seq<u64>) -> Option<u64>
    decreases released.len(),
{
    if released.len() == 0 {
        cache
    } else {
        crate::model::release_run(settle(cache, released.drop_last()), released.last()).cache
    }
}

/// What is charged is what was written: over a whole write the total rises by
/// the chunk's length if the inner writer was handed the chunk and took it,
/// and is otherwise what it was. A chunk that does not fit is answered with
/// the refusal and not handed on.
pub proof fn law_only_written_bytes_are_charged(
    limit: u64,
    cache: Option<u64>,
    reserved: u64,
    len: u64,
    fetch: Result<u64, Error>,
    store: Result<(), Error>,
    refusal: Error,
    replies: spec_fn(nat) -> Result<(), Error>,
    turns: nat,
    used: u64,
)
    requires
        len > 0,
        turns >= 3,
        crate::laws::known_total(cache, fetch) == Some(used),
        used + len <= limit ==> reserved + len <= u64::MAX,
    ensures
        ({
            let run = crate::model::reserve_run(limit, cache, len, fetch, store);
            let trail = write_trail(reserved, len, run.answer(refusal), replies, turns);
            let written = trail.handed == 1 && replies(0) is Ok;
            &&& trail.handed == 1 <==> used + len <= limit && store is Ok
            &&& trail.handed <= 1
            &&& trail.end is Some && (trail.end->0 is Ok <==> written)
            &&& used + len > limit ==> trail.end->0->Err_0 == refusal
            &&& used + len <= limit && store is Err ==> trail.end->0->Err_0 == store->Err_0
            &&& settle(run.cache, trail.released) is Some
            &&& settle(run.cache, trail.released)->0 == used + if written {
                len as int
            } else {
                0
            }
            &&& trail.reserved == reserved + if written {
                len as int
            } else {
                0
            }
        }),
{
    let run = crate::model::reserve_run(limit, cache, len, fetch, store);
    let grant = run.answer(refusal);
    let trail = write_trail(reserved, len, grant, replies, turns);
    reveal_with_fuel(settle, 2);
    match grant {
        Ok(_) => law_granted_chunk_is_handed_once(reserved, len, grant, replies, turns),
        Err(cause) => law_refused_chunk_is_not_handed(reserved, len, cause, replies, turns),
    }
    assert(seq![len].drop_last() =~= Seq::empty());
}

/// A successful close leaves nothing reserved: an abort after it has nothing to
/// give back.
pub proof fn law_closed_bytes_are_final<M>(reserved: u64, details: M)
    ensures
        ({
            let left = crate::model::closed_turn::<M>(reserved, Ok(details));
            &&& left == 0
            &&& crate::model::aborted_turn(left, Ok(())).step matches AbortStep::Release { len }
                && len == 0
        }),
{
}

/// A failed close leaves what the writer has reserved as it was: an abort after
/// it gives all of that back, and the total comes down by as much.
pub proof fn law_failed_close_can_be_aborted<M>(reserved: u64, cause: Error, total: u64)
    requires
        reserved <= total,
    ensures
        ({
            let left = crate::model::closed_turn::<M>(reserved, Err(cause));
            let turn = crate::model::aborted_turn(left, Ok(()));
            &&& left == reserved
            &&& turn.reserved == 0
            &&& turn.step matches AbortStep::Release { len } && len == reserved
                && crate::model::release_run(Some(total), len).cache == Some(
                (total - reserved) as u64,
            )
        }),
{
}

/// A failed abort ends with the inner writer's error, and neither releases
/// anything nor changes what the writer has reserved, so that it can be tried
/// again: the second try gives back all that the first would have.
pub proof fn law_failed_abort_can_be_tried_again(reserved: u64, cause: Error)
    ensures
        ({
            let failed = crate::model::aborted_turn(reserved, Err(cause));
            &&& failed.step matches AbortStep::Done(result) && result is Err && result->Err_0
                == cause
            &&& failed.reserved == reserved
            &&& crate::model::aborted_turn(failed.reserved, Ok(())).step
                matches AbortStep::Release { len } && len == reserved
        }),
{
}

/// A successful abort gives everything back once: the writer has nothing
/// reserved afterwards, and a second abort gives nothing back.
pub proof fn law_abort_gives_back_once(reserved: u64)
    ensures
        ({
            let first = crate::model::aborted_turn(reserved, Ok(()));
            &&& first.step matches AbortStep::Release { len } && len == reserved
            &&& first.reserved == 0
            &&& crate::model::aborted_turn(first.reserved, Ok(())).step
                matches AbortStep::Release { len } && len == 0
        }),
{
}

/// A failed close or abort changes nothing on the quota, and neither does a
/// write that is not granted, but for the total that it may have learnt.
pub proof fn law_failures_leave_the_ledger(
    limit: u64,
    ledger: Ledger,
    writer: int,
    cause: Error,
    len: u64,
    fetch: Result<u64, Error>,
    store: Result<(), Error>,
    refusal: Error,
)
    requires
        0 <= writer < ledger.reserved.len(),
    ensures
        ledger.after(limit, Event::Closed { writer, reply: Err(cause) }) == ledger,
        ledger.after(limit, Event::Aborted { writer, reply: Err(cause) }) == ledger,
        ({
            let run = crate::model::reserve_run(limit, ledger.cache, len, fetch, store);
            let after = ledger.after(
                limit,
                Event::Reserve { writer, len, fetch, store, refusal },
            );
            !(run.end is Grant) ==> after.reserved == ledger.reserved && after.settled
                == ledger.settled && after.releasing == ledger.releasing
        }),
{
    assert(ledger.reserved.update(writer, ledger.reserved[writer]) =~= ledger.reserved);
}

/// A successful close moves what the writer has reserved to what is settled,
/// and changes neither the total nor any other writer.
pub proof fn law_close_settles(limit: u64, ledger: Ledger, writer: int)
    requires
        0 <= writer < ledger.reserved.len(),
    ensures
        ({
            let after = ledger.after(limit, Event::Closed { writer, reply: Ok(()) });
            &&& after.settled == ledger.settled + ledger.reserved[writer]
            &&& after.reserved.len() == ledger.reserved.len()
            &&& after.reserved[writer] == 0
            &&& forall|i: int|
                0 <= i < ledger.reserved.len() && i != writer ==> #[trigger] after.reserved[i]
                    == ledger.reserved[i]
            &&& after.cache == ledger.cache
            &&& after.releasing == ledger.releasing
        }),
{
}

/// After a failed close, a successful abort brings the total down by all that
/// the writer had reserved.
pub proof fn law_abort_after_failed_close(limit: u64, ledger: Ledger, writer: int, cause: Error)
    requires
        ledger.balanced(limit),
        0 <= writer < ledger.reserved.len(),
        ledger.cache is Some,
    ensures
        ({
            let closed = ledger.after(limit, Event::Closed { writer, reply: Err(cause) });
            let aborted = closed.after(limit, Event::Aborted { writer, reply: Ok(()) });
            let released = aborted.after(
                limit,
                Event::Release { len: ledger.reserved[writer] },
            );
            &&& released.cache is Some
            &&& released.cache->0 == ledger.cache->0 - ledger.reserved[writer]
            &&& released.settled == ledger.settled
        }),
{
    assert(ledger.reserved.update(writer, ledger.reserved[writer]) =~= ledger.reserved);
    crate::ledger::law_abort_gives_back(limit, ledger, writer);
}

} // verus!
