//! Resolving a market and paying its winning positions.

use vstd::prelude::*;
use crate::error::MarketError;
use crate::exchange::Exchange;
use crate::market::{MarketId, MarketSide, UserId};
use crate::position::Position;
use crate::user::User;

verus! {

/// The side that a resolution with `outcome` pays.
pub open spec fn winning_side(outcome: bool) -> MarketSide {
    if outcome {
        MarketSide::Yes
    } else {
        MarketSide::No
    }
}

/// One credit of a settlement: position `position_id` of user `user_id`
/// pays `amount` currency millionths.
#[derive(Debug, Clone, Copy, PartialEq, Eq, Structural)]
pub struct Payout {
    pub position_id: i64,
    pub user_id: UserId,
    pub amount: u64,
}

/// What a resolution paid, and the payouts that could not be credited
/// (an unknown user, or a balance that cannot take the amount).
#[derive(Debug, Clone)]
pub struct SettlementReport {
    pub paid: Vec<Payout>,
    pub failures: Vec<Payout>,
}

/// Whether position `p` wins when `market_id` resolves with `outcome`.
pub open spec fn pays(p: Position, market_id: MarketId, outcome: bool) -> bool {
    &&& p.market_id == market_id
    &&& p.side == winning_side(outcome)
    &&& p.shares > 0
}

pub open spec fn payout_of(p: Position) -> Payout {
    Payout { position_id: p.id, user_id: p.user_id, amount: p.shares }
}

/// Whether `amount` can be credited to account `user_id`.
pub open spec fn can_credit(users: Seq<User>, user_id: UserId, amount: u64) -> bool {
    &&& 1 <= user_id <= users.len()
    &&& users[user_id - 1].balance + amount <= u64::MAX
}

/// The accounts, the payouts made and the payouts that failed after
/// settling `positions` in order against `users`: each winning position
/// credits its owner one unit per share, independently of the others.
pub open spec fn settled(
    users: Seq<User>,
    positions: Seq<Position>,
    market_id: MarketId,
    outcome: bool,
) -> (Seq<User>, Seq<Payout>, Seq<Payout>)
    decreases positions.len(),
{
    if positions.len() == 0 {
        (users, Seq::empty(), Seq::empty())
    } else {
        let before = settled(users, positions.drop_last(), market_id, outcome);
        let p = positions.last();
        let us = before.0;
        if !pays(p, market_id, outcome) {
            before
        } else if can_credit(us, p.user_id, p.shares) {
            (
                us.update(
                    p.user_id - 1,
                    us[p.user_id - 1].with_balance(us[p.user_id - 1].balance + p.shares),
                ),
                before.1.push(payout_of(p)),
                before.2,
            )
        } else {
            (us, before.1, before.2.push(payout_of(p)))
        }
    }
}

/// Settling keeps the accounts' identifiers and usernames.
proof fn lemma_settled_keeps_ids(
    users: Seq<User>,
    positions: Seq<Position>,
    market_id: MarketId,
    outcome: bool,
)
    requires
        forall|i: int| 0 <= i < users.len() ==> #[trigger] users[i].id == i + 1,
    ensures
        ({
            let us = settled(users, positions, market_id, outcome).0;
            &&& us.len() == users.len()
            &&& forall|i: int| 0 <= i < us.len() ==> #[trigger] us[i].id == i + 1
            &&& forall|i: int| 0 <= i < us.len() ==> #[trigger] us[i].username == users[i].username
        }),
    decreases positions.len(),
{
    if positions.len() > 0 {
        lemma_settled_keeps_ids(users, positions.drop_last(), market_id, outcome);
    }
}

impl Exchange {
    /// Resolves market `market_id` with `outcome` on behalf of `requester`
    /// at time `now`, then settles it: every winning position with shares
    /// credits its owner one unit per share. A credit that cannot be made
    /// is reported and does not stop the others. Fails with `MarketNotFound`
    /// for an unknown market, with `AlreadyResolved` for a resolved one, and
    /// with `Unauthorized` unless the requester may resolve it now (it is
    /// closed and the requester is its effective oracle); a failure changes
    /// nothing, and an authorized request always succeeds.
    pub fn resolve_market(
        &mut self,
        market_id: MarketId,
        outcome: bool,
        requester: UserId,
        now: i64,
    ) -> (r: Result<SettlementReport, MarketError>)
        requires
            old(self).wf(),
        ensures
            final(self).wf(),
            !old(self).has_market(market_id) ==> r is Err && r->Err_0 == MarketError::MarketNotFound,
            old(self).has_market(market_id) && old(self).market_at(market_id).resolved ==> r is Err
                && r->Err_0 == MarketError::AlreadyResolved,
            old(self).has_market(market_id) && !old(self).market_at(market_id).resolved && !old(
                self,
            ).market_at(market_id).can_resolve_by_spec(requester, now) ==> r is Err && r->Err_0
                == MarketError::Unauthorized,
            old(self).has_market(market_id) && old(self).market_at(market_id).can_resolve_by_spec(
                requester,
                now,
            ) ==> r is Ok,
            r is Err ==> *final(self) == *old(self),
            r is Ok ==> {
                let m = old(self).market_at(market_id);
                let outcome_of = settled(old(self).users@, old(self).positions@, market_id, outcome);
                &&& old(self).has_market(market_id)
                &&& m.can_resolve_by_spec(requester, now)
                &&& final(self).markets@ == old(self).markets@.update(
                    market_id - 1,
                    m.resolved_with(outcome),
                )
                &&& final(self).users@ == outcome_of.0
                &&& r->Ok_0.paid@ == outcome_of.1
                &&& r->Ok_0.failures@ == outcome_of.2
                &&& final(self).positions == old(self).positions
                &&& final(self).snapshots == old(self).snapshots
            },
    {
        let mi = match self.market_index(market_id) {
            Some(i) => i,
            None => return Err(MarketError::MarketNotFound),
        };
        if self.markets[mi].resolved {
            return Err(MarketError::AlreadyResolved);
        }
        if !self.markets[mi].can_resolve_by(requester, now) {
            return Err(MarketError::Unauthorized);
        }
        let resolved = self.markets[mi].resolve(outcome, now);
        if let Err(e) = resolved {
            return Err(e);
        }
        let ghost pre_users = self.users@;
        let ghost positions = self.positions@;
        let winning = if outcome {
            MarketSide::Yes
        } else {
            MarketSide::No
        };
        let mut paid: Vec<Payout> = Vec::new();
        let mut failures: Vec<Payout> = Vec::new();
        let mut i: usize = 0;
        while i < self.positions.len()
            invariant
                self.positions@ == positions,
                positions == old(self).positions@,
                pre_users == old(self).users@,
                self.markets@ == old(self).markets@.update(
                    market_id - 1,
                    old(self).market_at(market_id).resolved_with(outcome),
                ),
                self.snapshots == old(self).snapshots,
                self.positions == old(self).positions,
                winning == winning_side(outcome),
                0 <= i <= positions.len(),
                (self.users@, paid@, failures@) == settled(
                    pre_users,
                    positions.subrange(0, i as int),
                    market_id,
                    outcome,
                ),
                self.users@.len() == pre_users.len(),
            decreases positions.len() - i,
        {
            let p = self.positions[i];
            proof {
                assert(positions.subrange(0, i + 1).drop_last() =~= positions.subrange(0, i as int));
                assert(positions.subrange(0, i + 1).last() == p);
            }
            if p.market_id == market_id && p.side == winning && p.shares > 0 {
                let credited = match self.user_index(p.user_id) {
                    Some(ui) => {
                        if self.users[ui].balance <= u64::MAX - p.shares {
                            self.users[ui].add_balance(p.shares);
                            true
                        } else {
                            false
                        }
                    },
                    None => false,
                };
                let payout = Payout { position_id: p.id, user_id: p.user_id, amount: p.shares };
                if credited {
                    paid.push(payout);
                } else {
                    failures.push(payout);
                }
            }
            i = i + 1;
        }
        proof {
            assert(positions.subrange(0, positions.len() as int) =~= positions);
            lemma_settled_keeps_ids(pre_users, positions, market_id, outcome);
        }
        Ok(SettlementReport { paid, failures })
    }
}

} // verus!
