//! How a quota accounts for bytes, told over plain values.
//!
//! A reservation takes turns with the tracker. In each turn the quota looks
//! at its cached total and at the tracker's reply, and decides what comes
//! next. [`reserve_run`] and [`release_run`] put the turns of one reservation
//! and of one release together. A writer takes turns with its quota and with
//! its inner writer, and counts what it has reserved.
use opendal::Error;
use vstd::prelude::*;

use crate::writer::{AbortStep, WriteStep};

verus! {

/// What a reservation does next.
pub enum Next {
    /// Ask the tracker for the stored total.
    Fetch,
    /// Have the tracker store `total`.
    Store { total: u64 },
    /// End: the bytes are reserved.
    Grant,
    /// End: the bytes do not fit beside the `used` ones.
    Exceed { used: u64 },
    /// End: the tracker failed.
    Fail { cause: Error },
}

/// The state after one turn: the cached total, and what comes next.
pub struct Turn {
    pub cache: Option<u64>,
    pub next: Next,
}

/// The total when `len` bytes leave `used` ones.
pub open spec fn lowered(used: u64, len: u64) -> u64 {
    if used < len {
        0
    } else {
        (used - len) as u64
    }
}

/// The turn in which `len` bytes meet a known total of `used`. They are refused
/// exactly if they exceed the limit beside the used ones. Either way the known
/// total is in the cache.
pub open spec fn weigh(limit: u64, used: u64, len: u64) -> Turn {
    Turn {
        cache: Some(used),
        next: if used + len > limit {
            Next::Exceed { used }
        } else {
            Next::Store { total: (used + len) as u64 }
        },
    }
}

/// The turn in which a reservation of `len` bytes finds the cache.
pub open spec fn locked_turn(limit: u64, cache: Option<u64>, len: u64) -> Turn {
    match cache {
        Some(used) => weigh(limit, used, len),
        None => Turn { cache, next: Next::Fetch },
    }
}

/// The turn after the tracker was asked for the stored total.
pub open spec fn fetched_turn(
    limit: u64,
    cache: Option<u64>,
    len: u64,
    reply: Result<u64, Error>,
) -> Turn {
    match reply {
        Ok(used) => weigh(limit, used, len),
        Err(cause) => Turn { cache, next: Next::Fail { cause } },
    }
}

/// The turn after the tracker was asked to store `total`.
pub open spec fn stored_turn(cache: Option<u64>, total: u64, reply: Result<(), Error>) -> Turn {
    match reply {
        Ok(_) => Turn { cache: Some(total), next: Next::Grant },
        Err(cause) => Turn { cache, next: Next::Fail { cause } },
    }
}

/// A whole reservation or release.
pub struct Run {
    /// The cached total afterwards.
    pub cache: Option<u64>,
    /// Whether the tracker was asked for the stored total.
    pub fetched: bool,
    /// The total that the tracker was asked to store, if it was asked.
    pub stored: Option<u64>,
    /// How it ended.
    pub end: Next,
}

impl Run {
    /// What a reservation returns, where `refusal` is the error for a write
    /// over the quota.
    pub open spec fn answer(self, refusal: Error) -> Result<(), Error> {
        match self.end {
            Next::Exceed { .. } => Err(refusal),
            Next::Fail { cause } => Err(cause),
            _ => Ok(()),
        }
    }
}

/// A reservation of `len` bytes. `fetch` and `store` are the tracker's
/// replies; one that is not called for plays no part.
pub open spec fn reserve_run(
    limit: u64,
    cache: Option<u64>,
    len: u64,
    fetch: Result<u64, Error>,
    store: Result<(), Error>,
) -> Run {
    let first = if len == 0 {
        Turn { cache, next: Next::Grant }
    } else {
        locked_turn(limit, cache, len)
    };
    let second = if first.next is Fetch {
        fetched_turn(limit, first.cache, len, fetch)
    } else {
        first
    };
    let last = match second.next {
        Next::Store { total } => stored_turn(second.cache, total, store),
        _ => second,
    };
    Run {
        cache: last.cache,
        fetched: first.next is Fetch,
        stored: match second.next {
            Next::Store { total } => Some(total),
            _ => None,
        },
        end: last.next,
    }
}

/// The total that a release of `len` bytes has the tracker store. A cold cache
/// counts as zero.
pub open spec fn release_total(cache: Option<u64>, len: u64) -> u64 {
    lowered(
        match cache {
            Some(used) => used,
            None => 0,
        },
        len,
    )
}

/// The turn in which a release of `len` bytes finds the cache.
pub open spec fn release_turn(cache: Option<u64>, len: u64) -> Turn {
    Turn { cache, next: Next::Store { total: release_total(cache, len) } }
}

/// The turn after a release asked the tracker to store `total`. The reply makes
/// no difference.
pub open spec fn released_turn(total: u64) -> Turn {
    Turn { cache: Some(total), next: Next::Grant }
}

/// A release of `len` bytes. It takes no notice of the tracker's reply.
pub open spec fn release_run(cache: Option<u64>, len: u64) -> Run {
    if len == 0 {
        Run { cache, fetched: false, stored: None, end: Next::Grant }
    } else {
        let total = release_turn(cache, len).next->Store_total;
        let last = released_turn(total);
        Run { cache: last.cache, fetched: false, stored: Some(total), end: last.next }
    }
}

/// The state of a write after one turn: what the writer has reserved, and what
/// comes next.
pub struct WriteTurn {
    pub reserved: u64,
    pub step: WriteStep,
}

/// The turn after a writer asked its quota for `len` bytes.
pub open spec fn reserved_turn(reserved: u64, len: u64, reply: Result<(), Error>) -> WriteTurn {
    match reply {
        Ok(_) => WriteTurn {
            reserved: (reserved + len) as u64,
            step: WriteStep::Forward { len },
        },
        Err(cause) => WriteTurn { reserved, step: WriteStep::Done(Err(cause)) },
    }
}

/// The turn after the inner writer was handed `len` reserved bytes.
pub open spec fn forwarded_turn(reserved: u64, len: u64, reply: Result<(), Error>) -> WriteTurn {
    match reply {
        Ok(_) => WriteTurn { reserved, step: WriteStep::Done(Ok(())) },
        Err(cause) => WriteTurn {
            reserved: (reserved - len) as u64,
            step: WriteStep::Release { len, cause },
        },
    }
}

/// What a writer has reserved after the inner writer was closed.
pub open spec fn closed_turn<M>(reserved: u64, reply: Result<M, Error>) -> u64 {
    match reply {
        Ok(_) => 0,
        Err(_) => reserved,
    }
}

/// The state of an abort after its turn: what the writer has reserved, and
/// what comes next.
pub struct AbortTurn {
    pub reserved: u64,
    pub step: AbortStep,
}

/// The turn after the inner writer was aborted.
pub open spec fn aborted_turn(reserved: u64, reply: Result<(), Error>) -> AbortTurn {
    match reply {
        Ok(_) => AbortTurn { reserved: 0, step: AbortStep::Release { len: reserved } },
        Err(cause) => AbortTurn { reserved, step: AbortStep::Done(Err(cause)) },
    }
}

} // verus!
