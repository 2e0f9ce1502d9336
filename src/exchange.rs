//! The store of the market engine and its records.

use vstd::prelude::*;
use crate::error::MarketError;
use crate::forms::{end_date_spec, CreateMarketForm, FormError};
use crate::market::{same_text, Market, MarketId, MarketSide, UserId, DEFAULT_LIQUIDITY};
use crate::position::Position;
use crate::pricing::UNIT;
use crate::snapshot::PriceSnapshot;
use crate::supply::{held, lemma_held_none};
use crate::user::User;

verus! {

/// The balance a new account starts with: one thousand units.
pub const STARTING_BALANCE: u64 = 1_000_000_000;

/// The records of the market engine: accounts, markets, positions and the
/// price history. Each record's identifier is its place in its list plus
/// one, so identifiers are dense and never reused.
///
/// Every operation takes the whole store by `&mut`, so trades on it are
/// serialised, and each one either applies all of its changes or returns an
/// error and leaves the store as it was.
pub struct Exchange {
    pub users: Vec<User>,
    pub markets: Vec<Market>,
    pub positions: Vec<Position>,
    pub snapshots: Vec<PriceSnapshot>,
}

/// Whether `p` is the holding of `user_id` on `side` of `market_id`.
pub open spec fn same_holding(p: Position, user_id: UserId, market_id: MarketId, side: MarketSide) -> bool {
    p.user_id == user_id && p.market_id == market_id && p.side == side
}

/// The items of `s` that `f` keeps, in order.
pub open spec fn kept<T>(s: Seq<T>, f: spec_fn(T) -> bool) -> Seq<T>
    decreases s.len(),
{
    if s.len() == 0 {
        Seq::empty()
    } else {
        let rest = kept(s.drop_last(), f);
        if f(s.last()) {
            rest.push(s.last())
        } else {
            rest
        }
    }
}

/// The identifiers of the unresolved markets among `markets`, newest first.
pub open spec fn unresolved_ids(markets: Seq<Market>) -> Seq<MarketId>
    decreases markets.len(),
{
    if markets.len() == 0 {
        Seq::empty()
    } else {
        let rest = unresolved_ids(markets.drop_last());
        if !markets.last().resolved {
            seq![markets.last().id] + rest
        } else {
            rest
        }
    }
}

impl Exchange {
    /// The store's invariant: dense identifiers, distinct usernames,
    /// well-formed markets and positions, positions only on listed markets,
    /// each side's outstanding count equal to the shares its positions hold,
    /// at most one position per user, market and side, and snapshots whose
    /// two probabilities add up to one and whose times never decrease.
    pub open spec fn wf(&self) -> bool {
        &&& forall|i: int| 0 <= i < self.users@.len() ==> #[trigger] self.users@[i].id == i + 1
        &&& forall|i: int, j: int|
            0 <= i < j < self.users@.len() ==> (#[trigger] self.users@[i]).username@ != (
            #[trigger] self.users@[j]).username@
        &&& forall|i: int|
            0 <= i < self.markets@.len() ==> (#[trigger] self.markets@[i]).id == i + 1
                && self.markets@[i].wf() && self.markets@[i].q_yes == held(
                self.positions@,
                self.markets@[i].id,
                MarketSide::Yes,
            ) && self.markets@[i].q_no == held(
                self.positions@,
                self.markets@[i].id,
                MarketSide::No,
            )
        &&& forall|i: int|
            0 <= i < self.positions@.len() ==> (#[trigger] self.positions@[i]).id == i + 1
                && self.positions@[i].wf() && 1 <= self.positions@[i].market_id
                <= self.markets@.len()
        &&& forall|i: int, j: int|
            0 <= i < j < self.positions@.len() ==> !same_holding(
                #[trigger] self.positions@[j],
                (#[trigger] self.positions@[i]).user_id,
                self.positions@[i].market_id,
                self.positions@[i].side,
            )
        &&& forall|i: int|
            0 <= i < self.snapshots@.len() ==> (#[trigger] self.snapshots@[i]).id == i + 1
                && self.snapshots@[i].yes_probability + self.snapshots@[i].no_probability == UNIT
        &&& forall|i: int, j: int|
            0 <= i < j < self.snapshots@.len() ==> (#[trigger] self.snapshots@[i]).created_at
                <= (#[trigger] self.snapshots@[j]).created_at
    }

    pub open spec fn has_market(&self, id: MarketId) -> bool {
        1 <= id <= self.markets@.len()
    }

    pub open spec fn market_at(&self, id: MarketId) -> Market {
        self.markets@[id - 1]
    }

    pub open spec fn has_user(&self, id: UserId) -> bool {
        1 <= id <= self.users@.len()
    }

    pub open spec fn user_at(&self, id: UserId) -> User {
        self.users@[id - 1]
    }

    /// Whether some position belongs to this user, market and side.
    pub open spec fn holds(&self, user_id: UserId, market_id: MarketId, side: MarketSide) -> bool {
        exists|i: int|
            0 <= i < self.positions@.len() && same_holding(
                #[trigger] self.positions@[i],
                user_id,
                market_id,
                side,
            )
    }

    pub open spec fn holding_index(&self, user_id: UserId, market_id: MarketId, side: MarketSide) -> int {
        choose|i: int|
            0 <= i < self.positions@.len() && same_holding(
                #[trigger] self.positions@[i],
                user_id,
                market_id,
                side,
            )
    }

    pub open spec fn holding(&self, user_id: UserId, market_id: MarketId, side: MarketSide) -> Position {
        self.positions@[self.holding_index(user_id, market_id, side)]
    }

    /// The account that uses this username, when `username_taken` holds.
    pub open spec fn user_named(&self, username: Seq<char>) -> UserId {
        ((choose|i: int| 0 <= i < self.users@.len() && (#[trigger] self.users@[i]).username@ == username)
            + 1) as i64
    }

    /// Whether an account already uses this username.
    pub open spec fn username_taken(&self, username: Seq<char>) -> bool {
        exists|i: int| 0 <= i < self.users@.len() && (#[trigger] self.users@[i]).username@ == username
    }

    /// An empty store.
    pub fn new() -> (e: Exchange)
        ensures
            e.wf(),
            e.users@.len() == 0,
            e.markets@.len() == 0,
            e.positions@.len() == 0,
            e.snapshots@.len() == 0,
    {
        Exchange { users: Vec::new(), markets: Vec::new(), positions: Vec::new(), snapshots: Vec::new() }
    }

    /// The position at `i` is the one `holding` names.
    pub(crate) proof fn lemma_holding_at(&self, i: int)
        requires
            self.wf(),
            0 <= i < self.positions@.len(),
        ensures
            ({
                let p = self.positions@[i];
                &&& self.holds(p.user_id, p.market_id, p.side)
                &&& self.holding_index(p.user_id, p.market_id, p.side) == i
            }),
    {
        let p = self.positions@[i];
        assert(same_holding(self.positions@[i], p.user_id, p.market_id, p.side));
        let j = self.holding_index(p.user_id, p.market_id, p.side);
        if j < i {
            assert(!same_holding(self.positions@[i], self.positions@[j].user_id, self.positions@[j].market_id, self.positions@[j].side));
        } else if j > i {
            assert(!same_holding(self.positions@[j], self.positions@[i].user_id, self.positions@[i].market_id, self.positions@[i].side));
        }
    }

    pub(crate) fn market_index(&self, id: i64) -> (r: Option<usize>)
        ensures
            match r {
                Some(i) => self.has_market(id) && i == id - 1,
                None => !self.has_market(id),
            },
    {
        if id < 1 {
            return None;
        }
        let k: u64 = (id - 1) as u64;
        if k < self.markets.len() as u64 {
            Some(k as usize)
        } else {
            None
        }
    }


    pub(crate) fn user_index(&self, id: i64) -> (r: Option<usize>)
        ensures
            match r {
                Some(i) => self.has_user(id) && i == id - 1,
                None => !self.has_user(id),
            },
    {
        if id < 1 {
            return None;
        }
        let k: u64 = (id - 1) as u64;
        if k < self.users.len() as u64 {
            Some(k as usize)
        } else {
            None
        }
    }


    /// The index of the position of this user, market and side, if any.
    pub(crate) fn find_position(&self, user_id: UserId, market_id: MarketId, side: MarketSide) -> (r: Option<usize>)
        requires
            self.wf(),
        ensures
            match r {
                Some(i) => {
                    &&& self.holds(user_id, market_id, side)
                    &&& i == self.holding_index(user_id, market_id, side)
                    &&& i < self.positions@.len()
                },
                None => !self.holds(user_id, market_id, side),
            },
    {
        let mut i: usize = 0;
        while i < self.positions.len()
            invariant
                self.wf(),
                0 <= i <= self.positions@.len(),
                forall|j: int| 0 <= j < i ==> !same_holding(#[trigger] self.positions@[j], user_id, market_id, side),
            decreases self.positions@.len() - i,
        {
            let p = &self.positions[i];
            if p.user_id == user_id && p.market_id == market_id && p.side == side {
                proof {
                    self.lemma_holding_at(i as int);
                }
                return Some(i);
            }
            i = i + 1;
        }
        None
    }

    /// The market with this identifier.
    pub fn market(&self, id: MarketId) -> (r: Option<&Market>)
        ensures
            match r {
                Some(m) => self.has_market(id) && *m == self.market_at(id),
                None => !self.has_market(id),
            },
    {
        match self.market_index(id) {
            Some(i) => Some(&self.markets[i]),
            None => None,
        }
    }

    /// The account with this identifier.
    pub fn user(&self, id: UserId) -> (r: Option<&User>)
        ensures
            match r {
                Some(u) => self.has_user(id) && *u == self.user_at(id),
                None => !self.has_user(id),
            },
    {
        match self.user_index(id) {
            Some(i) => Some(&self.users[i]),
            None => None,
        }
    }

    /// The position of this user on this side of this market.
    pub fn position(&self, user_id: UserId, market_id: MarketId, side: MarketSide) -> (r: Option<Position>)
        requires
            self.wf(),
        ensures
            match r {
                Some(p) => self.holds(user_id, market_id, side) && p == self.holding(
                    user_id,
                    market_id,
                    side,
                ),
                None => !self.holds(user_id, market_id, side),
            },
    {
        match self.find_position(user_id, market_id, side) {
            Some(i) => Some(self.positions[i]),
            None => None,
        }
    }

    /// The identifier of the account with this username.
    pub fn find_user_by_username(&self, username: &str) -> (r: Option<UserId>)
        requires
            self.wf(),
        ensures
            match r {
                Some(id) => {
                    &&& self.username_taken(username@)
                    &&& id == self.user_named(username@)
                    &&& self.has_user(id)
                    &&& self.user_at(id).username@ == username@
                },
                None => !self.username_taken(username@),
            },
    {
        let mut i: usize = 0;
        while i < self.users.len()
            invariant
                self.wf(),
                0 <= i <= self.users@.len(),
                forall|j: int| 0 <= j < i ==> (#[trigger] self.users@[j]).username@ != username@,
            decreases self.users@.len() - i,
        {
            if same_text(self.users[i].username.as_str(), username) {
                proof {
                    let k = choose|k: int|
                        0 <= k < self.users@.len() && (#[trigger] self.users@[k]).username@
                            == username@;
                    if k < i {
                        assert(self.users@[k].username@ != self.users@[i as int].username@);
                    } else if k > i {
                        assert(self.users@[i as int].username@ != self.users@[k].username@);
                    }
                }
                return Some(self.users[i].id);
            }
            i = i + 1;
        }
        None
    }

    /// Opens an account with the starting balance at time `now`. Fails with
    /// `UsernameTaken`, changing nothing, when the username is in use.
    pub fn create_user(&mut self, username: String, password_hash: String, now: i64) -> (r: Result<
        UserId,
        MarketError,
    >)
        requires
            old(self).wf(),
            old(self).users@.len() < i64::MAX,
        ensures
            final(self).wf(),
            old(self).username_taken(username@) ==> r == Err::<UserId, MarketError>(
                MarketError::UsernameTaken,
            ) && *final(self) == *old(self),
            !old(self).username_taken(username@) ==> {
                &&& r == Ok::<UserId, MarketError>((old(self).users@.len() + 1) as i64)
                &&& final(self).users@ == old(self).users@.push(
                    User {
                        id: (old(self).users@.len() + 1) as i64,
                        username,
                        password_hash,
                        balance: STARTING_BALANCE,
                        created_at: now,
                    },
                )
                &&& final(self).markets == old(self).markets
                &&& final(self).positions == old(self).positions
                &&& final(self).snapshots == old(self).snapshots
            },
    {
        if let Some(_) = self.find_user_by_username(username.as_str()) {
            return Err(MarketError::UsernameTaken);
        }
        let id = self.users.len() as i64 + 1;
        let user = User::new(id, username, password_hash, STARTING_BALANCE, now);
        self.users.push(user);
        Ok(id)
    }

    /// Lists a new LMSR market at time `now` with no outstanding shares.
    /// Fails with `InvalidLiquidity`, changing nothing, when
    /// `liquidity_param` is zero.
    pub fn create_market(
        &mut self,
        question: String,
        description: Option<String>,
        creator_id: UserId,
        oracle_id: Option<UserId>,
        end_date: i64,
        liquidity_param: u64,
        now: i64,
    ) -> (r: Result<MarketId, MarketError>)
        requires
            old(self).wf(),
            old(self).markets@.len() < i64::MAX,
        ensures
            final(self).wf(),
            liquidity_param == 0 ==> r == Err::<MarketId, MarketError>(
                MarketError::InvalidLiquidity,
            ) && *final(self) == *old(self),
            liquidity_param > 0 ==> {
                &&& r == Ok::<MarketId, MarketError>((old(self).markets@.len() + 1) as i64)
                &&& final(self).markets@ == old(self).markets@.push(
                    Market {
                        id: (old(self).markets@.len() + 1) as i64,
                        question,
                        description,
                        creator_id,
                        oracle_id,
                        end_date,
                        closed_at: None,
                        resolved: false,
                        outcome: None,
                        yes_pool: 0,
                        no_pool: 0,
                        q_yes: 0,
                        q_no: 0,
                        liquidity_param,
                        created_at: now,
                    },
                )
                &&& final(self).users == old(self).users
                &&& final(self).positions == old(self).positions
                &&& final(self).snapshots == old(self).snapshots
            },
    {
        if liquidity_param == 0 {
            return Err(MarketError::InvalidLiquidity);
        }
        let id = self.markets.len() as i64 + 1;
        let market = Market::new_lmsr(
            id,
            question,
            description,
            creator_id,
            oracle_id,
            end_date,
            liquidity_param,
            now,
        );
        proof {
            lemma_held_none(self.positions@, id, MarketSide::Yes);
            lemma_held_none(self.positions@, id, MarketSide::No);
        }
        self.markets.push(market);
        Ok(id)
    }

    /// Closes a market by hand at time `now`. A market already closed by
    /// hand, or resolved, is left as it is. Fails with `MarketNotFound` for
    /// an unknown market.
    pub fn close_market(&mut self, market_id: MarketId, now: i64) -> (r: Result<(), MarketError>)
        requires
            old(self).wf(),
        ensures
            final(self).wf(),
            !old(self).has_market(market_id) ==> r == Err::<(), MarketError>(
                MarketError::MarketNotFound,
            ) && *final(self) == *old(self),
            old(self).has_market(market_id) ==> {
                let m = old(self).market_at(market_id);
                &&& r is Ok
                &&& final(self).markets@ == if m.closed_at.is_none() && !m.resolved {
                    old(self).markets@.update(market_id - 1, Market { closed_at: Some(now), ..m })
                } else {
                    old(self).markets@
                }
                &&& final(self).users == old(self).users
                &&& final(self).positions == old(self).positions
                &&& final(self).snapshots == old(self).snapshots
            },
    {
        let mi = match self.market_index(market_id) {
            Some(i) => i,
            None => return Err(MarketError::MarketNotFound),
        };
        if self.markets[mi].closed_at.is_none() && !self.markets[mi].resolved {
            self.markets[mi].closed_at = Some(now);
        }
        proof {
            let m = old(self).market_at(market_id);
            if m.closed_at.is_none() && !m.resolved {
                assert(self.markets@ =~= old(self).markets@.update(
                    market_id - 1,
                    Market { closed_at: Some(now), ..m },
                ));
            } else {
                assert(self.markets@ =~= old(self).markets@);
            }
        }
        Ok(())
    }

    /// The oracle a listing form names: none when no username (or an empty
    /// one) is given, else the account with that username.
    pub open spec fn oracle_choice(&self, name: Option<String>) -> Result<Option<UserId>, FormError> {
        match name {
            None => Ok(None),
            Some(n) => if n@.len() == 0 {
                Ok(None)
            } else if self.username_taken(n@) {
                Ok(Some(self.user_named(n@)))
            } else {
                Err(FormError::OracleNotFound)
            },
        }
    }

    /// The first refusal a listing form meets, if any: an empty question,
    /// a duration under a day or past the last representable time, or an
    /// oracle username that no account uses.
    pub open spec fn listing_failure(&self, form: CreateMarketForm, now: i64) -> Option<FormError> {
        if form.question@.len() == 0 {
            Some(FormError::QuestionRequired)
        } else if end_date_spec(now, form.days_until_end) is Err {
            Some(FormError::InvalidDuration)
        } else if self.oracle_choice(form.oracle_username) is Err {
            Some(FormError::OracleNotFound)
        } else {
            None
        }
    }

    /// Lists the market that `form` describes for `creator_id` at time
    /// `now`, with the default liquidity parameter; an empty description is
    /// none. A refused form changes nothing.
    pub fn create_market_from_form(
        &mut self,
        form: &CreateMarketForm,
        creator_id: UserId,
        now: i64,
    ) -> (r: Result<MarketId, FormError>)
        requires
            old(self).wf(),
            old(self).markets@.len() < i64::MAX,
        ensures
            final(self).wf(),
            r is Err ==> {
                &&& old(self).listing_failure(*form, now) == Some(r->Err_0)
                &&& *final(self) == *old(self)
            },
            r is Ok ==> {
                &&& old(self).listing_failure(*form, now) is None
                &&& r->Ok_0 == old(self).markets@.len() + 1
                &&& final(self).markets@ == old(self).markets@.push(
                    Market {
                        id: r->Ok_0,
                        question: form.question,
                        description: if form.description@.len() == 0 {
                            None
                        } else {
                            Some(form.description)
                        },
                        creator_id,
                        oracle_id: old(self).oracle_choice(form.oracle_username)->Ok_0,
                        end_date: end_date_spec(now, form.days_until_end)->Ok_0,
                        closed_at: None,
                        resolved: false,
                        outcome: None,
                        yes_pool: 0,
                        no_pool: 0,
                        q_yes: 0,
                        q_no: 0,
                        liquidity_param: DEFAULT_LIQUIDITY,
                        created_at: now,
                    },
                )
                &&& final(self).users == old(self).users
                &&& final(self).positions == old(self).positions
                &&& final(self).snapshots == old(self).snapshots
            },
    {
        if let Err(e) = form.validate() {
            return Err(e);
        }
        let end_date = match form.end_date(now) {
            Ok(t) => t,
            Err(e) => return Err(e),
        };
        let oracle_id = match &form.oracle_username {
            Some(name) => {
                if name.as_str().is_empty() {
                    None
                } else {
                    match self.find_user_by_username(name.as_str()) {
                        Some(id) => Some(id),
                        None => return Err(FormError::OracleNotFound),
                    }
                }
            },
            None => None,
        };
        let description = form.description_value();
        let created = self.create_market(
            form.question.clone(),
            description,
            creator_id,
            oracle_id,
            end_date,
            DEFAULT_LIQUIDITY,
            now,
        );
        match created {
            Ok(id) => Ok(id),
            Err(_) => Err(FormError::InvalidDuration),
        }
    }

    /// The holdings of user `user_id`: the positions that still hold shares,
    /// oldest first. Emptied positions stay in the store but are not listed.
    pub fn holdings(&self, user_id: UserId) -> (r: Vec<Position>)
        ensures
            r@ == kept(self.positions@, |p: Position| p.user_id == user_id && p.shares > 0),
    {
        let ghost f = |p: Position| p.user_id == user_id && p.shares > 0;
        let mut out: Vec<Position> = Vec::new();
        let mut i: usize = 0;
        while i < self.positions.len()
            invariant
                0 <= i <= self.positions@.len(),
                f == (|p: Position| p.user_id == user_id && p.shares > 0),
                out@ == kept(self.positions@.subrange(0, i as int), f),
            decreases self.positions@.len() - i,
        {
            proof {
                assert(self.positions@.subrange(0, i + 1).drop_last() =~= self.positions@.subrange(
                    0,
                    i as int,
                ));
            }
            if self.positions[i].user_id == user_id && self.positions[i].shares > 0 {
                out.push(self.positions[i]);
            }
            i = i + 1;
        }
        proof {
            assert(self.positions@.subrange(0, self.positions@.len() as int) =~= self.positions@);
        }
        out
    }

    /// The positions on market `market_id` that hold shares, oldest first.
    pub fn positions_of_market(&self, market_id: MarketId) -> (r: Vec<Position>)
        ensures
            r@ == kept(self.positions@, |p: Position| p.market_id == market_id && p.shares > 0),
    {
        let ghost f = |p: Position| p.market_id == market_id && p.shares > 0;
        let mut out: Vec<Position> = Vec::new();
        let mut i: usize = 0;
        while i < self.positions.len()
            invariant
                0 <= i <= self.positions@.len(),
                f == (|p: Position| p.market_id == market_id && p.shares > 0),
                out@ == kept(self.positions@.subrange(0, i as int), f),
            decreases self.positions@.len() - i,
        {
            proof {
                assert(self.positions@.subrange(0, i + 1).drop_last() =~= self.positions@.subrange(
                    0,
                    i as int,
                ));
            }
            if self.positions[i].market_id == market_id && self.positions[i].shares > 0 {
                out.push(self.positions[i]);
            }
            i = i + 1;
        }
        proof {
            assert(self.positions@.subrange(0, self.positions@.len() as int) =~= self.positions@);
        }
        out
    }

    /// The identifiers of the markets not yet resolved, newest first.
    pub fn unresolved_markets(&self) -> (r: Vec<MarketId>)
        ensures
            r@ == unresolved_ids(self.markets@),
    {
        let mut out: Vec<MarketId> = Vec::new();
        let mut i: usize = 0;
        while i < self.markets.len()
            invariant
                0 <= i <= self.markets@.len(),
                out@ == unresolved_ids(self.markets@.subrange(0, i as int)),
            decreases self.markets@.len() - i,
        {
            proof {
                assert(self.markets@.subrange(0, i + 1).drop_last() =~= self.markets@.subrange(
                    0,
                    i as int,
                ));
            }
            if !self.markets[i].resolved {
                let ghost rest = out@;
                out.insert(0, self.markets[i].id);
                proof {
                    assert(out@ =~= seq![self.markets@[i as int].id] + rest);
                }
            }
            i = i + 1;
        }
        proof {
            assert(self.markets@.subrange(0, self.markets@.len() as int) =~= self.markets@);
        }
        out
    }
}

} // verus!
