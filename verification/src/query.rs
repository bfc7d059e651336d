//! The two-phase variable-length query protocol.
//!
//! Every variable-length kernel query follows the same shape: a probe call
//! with all buffer pointers null, which only fills in the count fields, then
//! one fill call with buffers of exactly the reported length. The protocol
//! below is the verified decision core; the surrounding program issues the
//! calls and feeds the results back. A probe that reports zero items
//! completes at once with an empty result: no fill call with a nonzero
//! buffer is ever requested. If the kernel would report a larger count on a
//! later call, the extra entries are not retrieved; the protocol never
//! loops until stable.

use vstd::prelude::*;

verus! {

/// Where a query stands between its two kernel calls.
enum QueryPhase<T> {
    /// The probe call is to be issued: buffer pointers null, counts zero.
    Probing,
    /// The probe reported `count` items; the fill call is to be issued with
    /// buffers of exactly `count` entries.
    Filling { count: u32 },
    /// The query is finished and `items` is its result.
    Complete { items: Vec<T> },
}

/// The protocol's state at the specification level.
pub enum QueryModel<T> {
    Probing,
    Filling { count: u32 },
    Complete { items: Seq<T> },
}

/// One run of the two-phase query protocol.
pub struct TwoPhaseQuery<T> {
    phase: QueryPhase<T>,
}

impl<T> View for TwoPhaseQuery<T> {
    type V = QueryModel<T>;

    closed spec fn view(&self) -> QueryModel<T> {
        match self.phase {
            QueryPhase::Probing => QueryModel::Probing,
            QueryPhase::Filling { count } => QueryModel::Filling { count },
            QueryPhase::Complete { items } => QueryModel::Complete { items: items@ },
        }
    }
}

impl<T> TwoPhaseQuery<T> {
    /// Starts a query: the probe call is owed next.
    pub fn new() -> (q: TwoPhaseQuery<T>)
        ensures
            q@ == QueryModel::<T>::Probing,
    {
        TwoPhaseQuery { phase: QueryPhase::Probing }
    }

    /// Feeds in the count the probe call reported. A zero count completes
    /// the query with an empty result and no fill step; a nonzero count
    /// moves to the fill step with buffers of exactly that length.
    pub fn on_probe_count(&mut self, count: u32)
        requires
            old(self)@ == QueryModel::<T>::Probing,
        ensures
            count == 0 ==> final (self)@ == (QueryModel::Complete { items: Seq::<T>::empty() }),
            count != 0 ==> final (self)@ == (QueryModel::<T>::Filling { count }),
    {
        if count == 0 {
            let items: Vec<T> = Vec::new();
            self.phase = QueryPhase::Complete { items };
        } else {
            self.phase = QueryPhase::Filling { count };
        }
    }

    /// How many entries the fill call's buffers must hold.
    pub fn fill_size(&self) -> (n: u32)
        requires
            self@ is Filling,
        ensures
            n == self@->count,
    {
        match &self.phase {
            QueryPhase::Filling { count } => *count,
            _ => {
                proof {
                    assert(false);
                }
                0
            },
        }
    }

    /// Feeds in the buffer the fill call wrote. The buffer length is the
    /// probed count: entries past it, had the kernel meanwhile grown the
    /// list, were never allocated and are not retrieved.
    pub fn on_filled(&mut self, items: Vec<T>)
        requires
            old(self)@ is Filling,
            items@.len() == old(self)@->count,
        ensures
            final (self)@ == (QueryModel::Complete { items: items@ }),
    {
        self.phase = QueryPhase::Complete { items };
    }

    /// Whether the query still owes a probe or fill call.
    pub fn is_complete(&self) -> (b: bool)
        ensures
            b == (self@ is Complete),
    {
        match &self.phase {
            QueryPhase::Complete { .. } => true,
            _ => false,
        }
    }

    /// Hands out the result of a completed query.
    pub fn into_items(self) -> (r: Vec<T>)
        requires
            self@ is Complete,
        ensures
            r@ == self@->items,
    {
        match self.phase {
            QueryPhase::Complete { items } => items,
            QueryPhase::Probing | QueryPhase::Filling { .. } => {
                proof {
                    assert(false);
                }
                Vec::new()
            },
        }
    }
}

} // verus!
