//! What holds of reservations and releases, whatever the tracker replies.
use opendal::Error;
use vstd::prelude::*;

use crate::model::{Next, Run};
use crate::state::ReserveStep;

verus! {

/// The total that a reservation is weighed against: the cached one or, if the
/// cache is cold, the one that the tracker gives.
pub open spec fn known_total(cache: Option<u64>, fetch: Result<u64, Error>) -> Option<u64> {
    match (cache, fetch) {
        (Some(used), _) => Some(used),
        (None, Ok(used)) => Some(used),
        (None, Err(_)) => None,
    }
}

/// An empty write is granted without a word to the tracker, and an empty
/// release changes nothing.
pub proof fn law_nothing_costs_nothing(
    limit: u64,
    cache: Option<u64>,
    fetch: Result<u64, Error>,
    store: Result<(), Error>,
)
    ensures
        crate::model::reserve_run(limit, cache, 0, fetch, store) == (Run {
            cache,
            fetched: false,
            stored: None,
            end: Next::Grant,
        }),
        crate::model::release_run(cache, 0) == (Run {
            cache,
            fetched: false,
            stored: None,
            end: Next::Grant,
        }),
{
}

/// While the tracker answers, a write is granted exactly if it fits beside
/// what is used already, and is otherwise refused as exceeding the quota.
pub proof fn law_granted_iff_it_fits(
    limit: u64,
    cache: Option<u64>,
    len: u64,
    fetch: Result<u64, Error>,
    store: Result<(), Error>,
    used: u64,
)
    requires
        len > 0,
        known_total(cache, fetch) == Some(used),
        store is Ok,
    ensures
        ({
            let run = crate::model::reserve_run(limit, cache, len, fetch, store);
            &&& used + len <= limit ==> run.end is Grant
            &&& used + len > limit ==> run.end == (Next::Exceed { used })
        }),
{
}

/// A granted write raises the total by its own length, has that total stored
/// and stays within the limit.
pub proof fn law_grant_charges_the_length(
    limit: u64,
    cache: Option<u64>,
    len: u64,
    fetch: Result<u64, Error>,
    store: Result<(), Error>,
)
    requires
        len > 0,
        crate::model::reserve_run(limit, cache, len, fetch, store).end is Grant,
    ensures
        ({
            let run = crate::model::reserve_run(limit, cache, len, fetch, store);
            &&& known_total(cache, fetch) matches Some(used)
            &&& run.cache matches Some(total)
            &&& total == used + len
            &&& total <= limit
            &&& run.stored == Some(total)
        }),
{
}

/// A refused write is charged nothing: nothing is stored, and the total is
/// what it was.
pub proof fn law_refusal_charges_nothing(
    limit: u64,
    cache: Option<u64>,
    len: u64,
    fetch: Result<u64, Error>,
    store: Result<(), Error>,
)
    requires
        crate::model::reserve_run(limit, cache, len, fetch, store).end is Exceed,
    ensures
        ({
            let run = crate::model::reserve_run(limit, cache, len, fetch, store);
            &&& run.stored is None
            &&& run.cache is Some
            &&& run.cache == known_total(cache, fetch)
        }),
{
}

/// A write that the tracker fails is reported with the tracker's error and
/// charged nothing: the cache holds the total that is known, and is as it was
/// if none became known.
pub proof fn law_failure_charges_nothing(
    limit: u64,
    cache: Option<u64>,
    len: u64,
    fetch: Result<u64, Error>,
    store: Result<(), Error>,
)
    requires
        crate::model::reserve_run(limit, cache, len, fetch, store).end is Fail,
    ensures
        ({
            let run = crate::model::reserve_run(limit, cache, len, fetch, store);
            &&& run.cache == known_total(cache, fetch)
            &&& known_total(cache, fetch) is None ==> run.cache == cache
            &&& run.end matches Next::Fail { cause } && (fetch == Err::<u64, Error>(cause)
                || store == Err::<(), Error>(cause))
        }),
{
}

/// Once the limit is reached, every further write is refused.
pub proof fn law_full_quota_refuses(
    limit: u64,
    cache: Option<u64>,
    len: u64,
    fetch: Result<u64, Error>,
    store: Result<(), Error>,
    used: u64,
)
    requires
        known_total(cache, fetch) == Some(used),
        used >= limit,
        len > 0,
    ensures
        crate::model::reserve_run(limit, cache, len, fetch, store).end == (Next::Exceed { used }),
{
}

/// The stored total is asked for only while the cache is cold, and a warm
/// cache stays warm: once the tracker has given a total, it is not asked
/// again.
pub proof fn law_warm_cache_is_not_fetched_again(
    limit: u64,
    cache: Option<u64>,
    len: u64,
    fetch: Result<u64, Error>,
    store: Result<(), Error>,
)
    ensures
        ({
            let run = crate::model::reserve_run(limit, cache, len, fetch, store);
            &&& run.fetched ==> cache is None
            &&& cache is Some ==> run.cache is Some
            &&& run.fetched && fetch is Ok ==> run.cache is Some
            &&& !crate::model::release_run(cache, len).fetched
            &&& cache is Some ==> crate::model::release_run(cache, len).cache is Some
        }),
{
}

/// Whenever the cached total changes, the tracker has been asked to store the
/// new one.
pub proof fn law_every_change_is_stored(
    limit: u64,
    cache: Option<u64>,
    len: u64,
    fetch: Result<u64, Error>,
    store: Result<(), Error>,
)
    ensures
        ({
            let run = crate::model::reserve_run(limit, cache, len, fetch, store);
            run.cache is Some && run.cache != known_total(cache, fetch) ==> run.stored == run.cache
        }),
        ({
            let run = crate::model::release_run(cache, len);
            run.cache != cache ==> run.stored == run.cache
        }),
{
}

/// A release undoes a reservation: the total is back where it was, in the
/// cache and at the tracker.
pub proof fn law_release_undoes_reserve(
    limit: u64,
    cache: Option<u64>,
    len: u64,
    fetch: Result<u64, Error>,
    store: Result<(), Error>,
)
    requires
        len > 0,
        crate::model::reserve_run(limit, cache, len, fetch, store).end is Grant,
    ensures
        ({
            let reserved = crate::model::reserve_run(limit, cache, len, fetch, store);
            let released = crate::model::release_run(reserved.cache, len);
            &&& released.cache is Some
            &&& released.cache == known_total(cache, fetch)
            &&& released.stored == released.cache
        }),
{
}

/// The bytes in `chunks` together.
pub open spec fn bytes(chunks: Seq<u64>) -> nat {
    crate::ledger::sum(chunks)
}

/// The cached total after one writer has reserved `chunks` in turn, if all of
/// them were granted.
pub open spec fn all_granted(limit: u64, used: u64, chunks: Seq<u64>) -> Option<u64>
    decreases chunks.len(),
{
    if chunks.len() == 0 {
        Some(used)
    } else {
        match all_granted(limit, used, chunks.drop_last()) {
            None => None,
            Some(total) => {
                let run = crate::model::reserve_run(
                    limit,
                    Some(total),
                    chunks.last(),
                    Ok(total),
                    Ok(()),
                );
                if run.end is Grant {
                    run.cache
                } else {
                    None
                }
            },
        }
    }
}

/// Chunks that were all granted have raised the total by what they hold.
pub proof fn law_granted_chunks_add_up(limit: u64, used: u64, chunks: Seq<u64>)
    requires
        all_granted(limit, used, chunks) is Some,
    ensures
        all_granted(limit, used, chunks)->0 == used + bytes(chunks),
    decreases chunks.len(),
{
    if chunks.len() > 0 {
        law_granted_chunks_add_up(limit, used, chunks.drop_last());
    }
}

/// An aborted writer gives back every chunk it has reserved: the total is what
/// it was before the first one.
pub proof fn law_abort_undoes_all_chunks(limit: u64, used: u64, chunks: Seq<u64>)
    requires
        all_granted(limit, used, chunks) is Some,
    ensures
        bytes(chunks) <= u64::MAX,
        crate::model::release_run(
            all_granted(limit, used, chunks),
            bytes(chunks) as u64,
        ).cache == Some(used),
{
    law_granted_chunks_add_up(limit, used, chunks);
}

/// What a tracker keeps: a total for each id that it has seen.
pub open spec fn stored_total(totals: Map<Seq<char>, u64>, id: Seq<char>) -> u64 {
    if totals.dom().contains(id) {
        totals[id]
    } else {
        0
    }
}

/// What a tracker keeps after `run` on the quota `id`, if it stores what it is
/// asked to.
pub open spec fn totals_after(totals: Map<Seq<char>, u64>, id: Seq<char>, run: Run) -> Map<
    Seq<char>,
    u64,
> {
    match run.stored {
        Some(total) => totals.insert(id, total),
        None => totals,
    }
}

/// With a tracker that keeps its word, the cached total is the stored one,
/// and stays so.
pub proof fn law_cache_agrees_with_tracker(
    limit: u64,
    cache: Option<u64>,
    len: u64,
    totals: Map<Seq<char>, u64>,
    id: Seq<char>,
)
    requires
        cache is Some ==> cache == Some(stored_total(totals, id)),
    ensures
        ({
            let run = crate::model::reserve_run(
                limit,
                cache,
                len,
                Ok(stored_total(totals, id)),
                Ok(()),
            );
            run.cache is Some ==> run.cache == Some(
                stored_total(totals_after(totals, id, run), id),
            )
        }),
        ({
            let run = crate::model::release_run(cache, len);
            run.cache is Some ==> run.cache == Some(
                stored_total(totals_after(totals, id, run), id),
            )
        }),
{
}

/// Usage survives restarts: a quota that starts anew, on a tracker that gives
/// the stored total, treats the next write as one that has been running all
/// along.
pub proof fn law_restart_resumes(
    limit: u64,
    len: u64,
    totals: Map<Seq<char>, u64>,
    id: Seq<char>,
    store: Result<(), Error>,
)
    requires
        len > 0,
    ensures
        ({
            let used = stored_total(totals, id);
            let anew = crate::model::reserve_run(limit, None, len, Ok(used), store);
            let running = crate::model::reserve_run(limit, Some(used), len, Ok(used), store);
            &&& anew.end == running.end
            &&& anew.stored == running.stored
            &&& anew.cache == running.cache
        }),
{
}

/// Quotas under different ids are independent: a reservation or a release
/// under one id leaves the stored total of every other id alone.
pub proof fn law_ids_are_independent(
    totals: Map<Seq<char>, u64>,
    id: Seq<char>,
    other: Seq<char>,
    run: Run,
)
    requires
        id != other,
    ensures
        stored_total(totals_after(totals, id, run), other) == stored_total(totals, other),
{
}

/// A known total is weighed exactly: what is refused is over the limit, and
/// what is stored otherwise is the total raised by the length.
pub proof fn law_weighing_is_exact(limit: u64, used: u64, len: u64)
    ensures
        ({
            let turn = crate::model::weigh(limit, used, len);
            &&& turn.cache == Some(used)
            &&& turn.next is Exceed <==> used + len > limit
            &&& turn.next is Exceed ==> turn.next->used == used
            &&& turn.next is Store <==> used + len <= limit
            &&& turn.next is Store ==> turn.next->total - used == len
        }),
{
}

/// If the stored total is needed and the tracker fails to give it, the write
/// ends with that very error, and nothing is stored or learnt.
pub proof fn law_failed_fetch_is_reported(
    limit: u64,
    len: u64,
    cause: Error,
    store: Result<(), Error>,
)
    requires
        len > 0,
    ensures
        ({
            let run = crate::model::reserve_run(limit, None, len, Err(cause), store);
            &&& run.fetched
            &&& run.end == (Next::Fail { cause })
            &&& run.stored is None
            &&& run.cache is None
        }),
{
}

/// If the write fits and the tracker fails to store the new total, the write
/// ends with that very error, and the total is what it was.
pub proof fn law_failed_store_is_reported(
    limit: u64,
    cache: Option<u64>,
    len: u64,
    fetch: Result<u64, Error>,
    cause: Error,
    used: u64,
)
    requires
        len > 0,
        known_total(cache, fetch) == Some(used),
        used + len <= limit,
    ensures
        ({
            let run = crate::model::reserve_run(limit, cache, len, fetch, Err(cause));
            &&& run.end == (Next::Fail { cause })
            &&& run.stored == Some((used + len) as u64)
            &&& run.cache == Some(used)
        }),
{
}

/// The stored total is asked for exactly if the cache is cold and the write is
/// not empty.
pub proof fn law_cold_cache_is_fetched(
    limit: u64,
    cache: Option<u64>,
    len: u64,
    fetch: Result<u64, Error>,
    store: Result<(), Error>,
)
    ensures
        crate::model::reserve_run(limit, cache, len, fetch, store).fetched <==> cache is None
            && len > 0,
{
}

/// A release lowers the total by its length, but not below zero, in the cache
/// and at the tracker alike. A cold cache counts as zero.
pub proof fn law_release_lowers_the_total(cache: Option<u64>, len: u64)
    requires
        len > 0,
    ensures
        ({
            let run = crate::model::release_run(cache, len);
            let used = if cache is Some {
                cache->0 as int
            } else {
                0
            };
            &&& run.cache is Some
            &&& run.stored == run.cache
            &&& used >= len ==> run.cache->0 == used - len
            &&& used < len ==> run.cache->0 == 0
            &&& run.end is Grant
        }),
{
}

/// Each step of a reservation tells its caller what is due: which id to ask
/// for, which total to store under which id, or what to return. A refusal is
/// returned as a rate-limit error, and a failure of the tracker as it is.
pub proof fn law_steps_tell_what_is_due(
    step: ReserveStep,
    next: Next,
    id: Seq<char>,
    limit: u64,
    len: u64,
)
    requires
        step.carries_out(next, id, limit, len),
    ensures
        step is Fetch <==> next is Fetch,
        step is Fetch ==> step->Fetch_id@ == id,
        step is Store <==> next is Store,
        step is Store ==> step->Store_id@ == id && step->total == next->total,
        step is Done ==> (step->0 is Ok <==> next is Grant),
        next is Fail ==> step->0->Err_0 == next->cause,
        next is Exceed ==> crate::error::error_view(step->0->Err_0).kind is RateLimited,
        next is Exceed ==> crate::error::error_view(step->0->Err_0)
            == crate::error::exceeded_error(id, next->used, len, limit),
{
}

/// The error for a write over the quota is a permanent rate-limit error. Its
/// context names the quota, its limit, what is used and what was asked for, in
/// this order.
pub proof fn law_refusal_names_the_quota(id: Seq<char>, used: u64, requested: u64, limit: u64)
    ensures
        ({
            let error = crate::error::exceeded_error(id, used, requested, limit);
            &&& error.kind is RateLimited
            &&& error.permanent
            &&& error.context.len() == 4
            &&& error.context[0].0 == "quota_id"@ && error.context[0].1 == id
            &&& error.context[1].0 == "quota_limit"@ && crate::text::value(error.context[1].1)
                == limit
            &&& error.context[2].0 == "quota_used"@ && crate::text::value(error.context[2].1)
                == used
            &&& error.context[3].0 == "quota_requested"@ && crate::text::value(
                error.context[3].1,
            ) == requested
            &&& error.message == crate::error::exceeded_message(id, used, requested, limit)
        }),
{
    crate::text::law_decimal_reads_back(limit as nat);
    crate::text::law_decimal_reads_back(used as nat);
    crate::text::law_decimal_reads_back(requested as nat);
}

/// The message for a write over the quota opens with the quota's id and what is
/// used of it, goes on with what was asked for and the limit, and holds nothing
/// else.
pub proof fn law_message_gives_the_figures(id: Seq<char>, used: u64, requested: u64, limit: u64)
    ensures
        ({
            let message = crate::error::exceeded_message(id, used, requested, limit);
            let opening = "write quota exceeded for '"@ + (id + ("': "@ + (crate::text::decimal(
                used as nat,
            ) + " bytes used, "@)));
            let rest = crate::text::decimal(requested as nat) + (" byte write requested, "@ + (
            crate::text::decimal(limit as nat) + " byte limit"@));
            &&& opening.is_prefix_of(message)
            &&& rest.is_suffix_of(message)
            &&& message.len() == opening.len() + rest.len()
        }),
{
    let message = crate::error::exceeded_message(id, used, requested, limit);
    let opening = "write quota exceeded for '"@ + (id + ("': "@ + (crate::text::decimal(
        used as nat,
    ) + " bytes used, "@)));
    let rest = crate::text::decimal(requested as nat) + (" byte write requested, "@ + (
    crate::text::decimal(limit as nat) + " byte limit"@));
    assert(message =~= opening + rest);
    assert(message.subrange(0, opening.len() as int) =~= opening);
    assert(message.subrange(opening.len() as int, message.len() as int) =~= rest);
}

} // verus!
