//! The price history: snapshots of each market, oldest first.

use vstd::prelude::*;
use crate::exchange::{kept, Exchange};
use crate::market::MarketId;
use crate::snapshot::PriceSnapshot;

verus! {

/// Whether a snapshot belongs to market `market_id`.
pub open spec fn of_market(market_id: MarketId) -> spec_fn(PriceSnapshot) -> bool {
    |s: PriceSnapshot| s.market_id == market_id
}

/// The snapshots of one market, oldest first.
pub open spec fn history_of(snapshots: Seq<PriceSnapshot>, market_id: MarketId) -> Seq<PriceSnapshot> {
    kept(snapshots, of_market(market_id))
}

/// Every item that `kept` keeps comes from the sequence.
proof fn lemma_kept_from<T>(s: Seq<T>, f: spec_fn(T) -> bool)
    ensures
        forall|k: int| 0 <= k < kept(s, f).len() ==> s.contains(#[trigger] kept(s, f)[k]),
    decreases s.len(),
{
    if s.len() > 0 {
        lemma_kept_from(s.drop_last(), f);
        assert forall|k: int| 0 <= k < kept(s, f).len() implies s.contains(#[trigger] kept(s, f)[k]) by {
            let rest = kept(s.drop_last(), f);
            if k < rest.len() {
                let x = rest[k];
                assert(s.drop_last().contains(x));
                let i = choose|i: int| 0 <= i < s.drop_last().len() && s.drop_last()[i] == x;
                assert(s[i] == x);
            } else {
                assert(s[s.len() - 1] == s.last());
            }
        }
    }
}

/// Keeping some snapshots of a time-ordered sequence keeps them in time order.
proof fn lemma_history_ordered(s: Seq<PriceSnapshot>, market_id: MarketId)
    requires
        forall|i: int, j: int| 0 <= i < j < s.len() ==> (#[trigger] s[i]).created_at <= (#[trigger] s[j]).created_at,
    ensures
        forall|i: int, j: int|
            0 <= i < j < history_of(s, market_id).len() ==> (#[trigger] history_of(s, market_id)[i]).created_at
                <= (#[trigger] history_of(s, market_id)[j]).created_at,
    decreases s.len(),
{
    let f = of_market(market_id);
    if s.len() > 0 {
        let t = s.drop_last();
        assert forall|i: int, j: int| 0 <= i < j < t.len() implies (#[trigger] t[i]).created_at
            <= (#[trigger] t[j]).created_at by {
            assert(t[i] == s[i] && t[j] == s[j]);
        }
        lemma_history_ordered(t, market_id);
        lemma_kept_from(t, f);
        let rest = kept(t, f);
        assert forall|k: int| 0 <= k < rest.len() implies (#[trigger] rest[k]).created_at <= s.last().created_at by {
            assert(t.contains(rest[k]));
            let i = choose|i: int| 0 <= i < t.len() && t[i] == rest[k];
            assert(s[i] == rest[k]);
            assert(s[s.len() - 1] == s.last());
        }
        let h = history_of(s, market_id);
        assert(h == if f(s.last()) { rest.push(s.last()) } else { rest });
        assert(rest == history_of(t, market_id));
        assert forall|i: int, j: int| 0 <= i < j < h.len() implies (#[trigger] h[i]).created_at
            <= (#[trigger] h[j]).created_at by {
            assert(h[i] == rest[i]);
            if j < rest.len() {
                assert(h[j] == rest[j]);
            } else {
                assert(h[j] == s.last());
            }
        }
    }
}

/// The last `limit` items of `h`, or all of them without a limit.
pub open spec fn last_items<T>(h: Seq<T>, limit: Option<usize>) -> Seq<T> {
    match limit {
        Some(n) => if n < h.len() {
            h.subrange(h.len() - n, h.len() as int)
        } else {
            h
        },
        None => h,
    }
}

impl Exchange {
    /// The price history of market `market_id`, oldest first: every
    /// snapshot, or the latest `limit` of them.
    pub fn price_history(&self, market_id: MarketId, limit: Option<usize>) -> (r: Vec<PriceSnapshot>)
        requires
            self.wf(),
        ensures
            r@ == last_items(history_of(self.snapshots@, market_id), limit),
            forall|i: int, j: int|
                0 <= i < j < r@.len() ==> (#[trigger] r@[i]).created_at <= (#[trigger] r@[j]).created_at,
    {
        proof {
            lemma_history_ordered(self.snapshots@, market_id);
        }
        let ghost f = of_market(market_id);
        let mut all: Vec<PriceSnapshot> = Vec::new();
        let mut i: usize = 0;
        while i < self.snapshots.len()
            invariant
                0 <= i <= self.snapshots@.len(),
                f == of_market(market_id),
                all@ == kept(self.snapshots@.subrange(0, i as int), f),
            decreases self.snapshots@.len() - i,
        {
            proof {
                assert(self.snapshots@.subrange(0, i + 1).drop_last() =~= self.snapshots@.subrange(
                    0,
                    i as int,
                ));
            }
            if self.snapshots[i].market_id == market_id {
                all.push(self.snapshots[i]);
            }
            i = i + 1;
        }
        proof {
            assert(self.snapshots@.subrange(0, self.snapshots@.len() as int) =~= self.snapshots@);
        }
        match limit {
            None => all,
            Some(n) => {
                if n >= all.len() {
                    return all;
                }
                let start = all.len() - n;
                let mut out: Vec<PriceSnapshot> = Vec::new();
                let mut j = start;
                while j < all.len()
                    invariant
                        start <= j <= all@.len(),
                        out@ == all@.subrange(start as int, j as int),
                    decreases all@.len() - j,
                {
                    out.push(all[j]);
                    proof {
                        assert(out@ =~= all@.subrange(start as int, j + 1));
                    }
                    j = j + 1;
                }
                out
            },
        }
    }

    /// The latest snapshot of market `market_id`, if it has any.
    pub fn latest_snapshot(&self, market_id: MarketId) -> (r: Option<PriceSnapshot>)
        requires
            self.wf(),
        ensures
            ({
                let h = history_of(self.snapshots@, market_id);
                r == if h.len() == 0 {
                    None::<PriceSnapshot>
                } else {
                    Some(h.last())
                }
            }),
    {
        let h = self.price_history(market_id, None);
        if h.len() == 0 {
            None
        } else {
            Some(h[h.len() - 1])
        }
    }
}

} // verus!
