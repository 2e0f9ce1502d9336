use vstd::prelude::*;
use vstd::string::*;
use crate::error::MarketError;

verus! {

pub type MarketId = i64;

pub type UserId = i64;

/// The liquidity parameter that `Market::new` gives a market.
pub const DEFAULT_LIQUIDITY: u64 = 100_000_000;

/// One of the two outcomes a share pays on.
#[derive(Debug, Clone, Copy, PartialEq, Eq, Structural)]
pub enum MarketSide {
    Yes,
    No,
}

/// The side named by an already lower-cased token, if any.
pub open spec fn side_of_word(t: Seq<char>) -> Option<MarketSide> {
    if t == seq!['y', 'e', 's'] {
        Some(MarketSide::Yes)
    } else if t == seq!['n', 'o'] {
        Some(MarketSide::No)
    } else {
        None
    }
}

/// What `str::to_lowercase` makes of a text.
pub uninterp spec fn lower_of(s: Seq<char>) -> Seq<char>;

/// Relies on `str::to_lowercase`: the lower-case form of the text, which
/// depends on its characters alone.
#[verifier::external_body]
fn lowercase(s: &str) -> (r: String)
    ensures
        r@ == lower_of(s@),
{
    s.to_lowercase()
}

/// Whether the text is exactly the given characters.
pub(crate) fn text_is(t: &str, word: &[char]) -> (r: bool)
    ensures
        r == (t@ == word@),
{
    let n = t.unicode_len();
    if n != word.len() {
        return false;
    }
    let mut i: usize = 0;
    while i < n
        invariant
            n == t@.len(),
            n == word@.len(),
            0 <= i <= n,
            forall|j: int| 0 <= j < i ==> t@[j] == word@[j],
        decreases n - i,
    {
        if t.get_char(i) != word[i] {
            return false;
        }
        i = i + 1;
    }
    assert(t@ =~= word@);
    true
}

/// Whether two texts hold the same characters.
pub(crate) fn same_text(a: &str, b: &str) -> (r: bool)
    ensures
        r == (a@ == b@),
{
    let n = a.unicode_len();
    if n != b.unicode_len() {
        return false;
    }
    let mut i: usize = 0;
    while i < n
        invariant
            n == a@.len(),
            n == b@.len(),
            0 <= i <= n,
            forall|j: int| 0 <= j < i ==> a@[j] == b@[j],
        decreases n - i,
    {
        if a.get_char(i) != b.get_char(i) {
            return false;
        }
        i = i + 1;
    }
    assert(a@ =~= b@);
    true
}

impl MarketSide {
    pub open spec fn opposite_spec(self) -> MarketSide {
        match self {
            MarketSide::Yes => MarketSide::No,
            MarketSide::No => MarketSide::Yes,
        }
    }

    /// The other side.
    pub fn opposite(&self) -> (r: Self)
        ensures
            r == self.opposite_spec(),
            r != *self,
    {
        match self {
            MarketSide::Yes => MarketSide::No,
            MarketSide::No => MarketSide::Yes,
        }
    }

    /// Reads a side from a token that is already lower case: `yes` or `no`.
    pub fn from_lowercase(t: &str) -> (r: Result<MarketSide, MarketError>)
        ensures
            r == (match side_of_word(t@) {
                Some(s) => Ok(s),
                None => Err(MarketError::InvalidSide),
            }),
    {
        let yes: [char; 3] = ['y', 'e', 's'];
        let no: [char; 2] = ['n', 'o'];
        assert(yes@ =~= seq!['y', 'e', 's']);
        assert(no@ =~= seq!['n', 'o']);
        if text_is(t, &yes) {
            Ok(MarketSide::Yes)
        } else if text_is(t, &no) {
            Ok(MarketSide::No)
        } else {
            Err(MarketError::InvalidSide)
        }
    }

    /// Reads a side from user input, ignoring case.
    pub fn parse(s: &str) -> (r: Result<MarketSide, MarketError>)
        ensures
            r == (match side_of_word(lower_of(s@)) {
                Some(side) => Ok(side),
                None => Err(MarketError::InvalidSide),
            }),
    {
        let t = lowercase(s);
        MarketSide::from_lowercase(t.as_str())
    }
}

/// Where a market stands in its life.
#[derive(Debug, Clone, Copy, PartialEq, Eq, Structural)]
pub enum MarketStatus {
    Active,
    Closed,
    Resolved,
}

/// A binary market. Times are milliseconds since the Unix epoch; share
/// counts and the liquidity parameter are in millionths of a share.
#[derive(Debug, Clone)]
pub struct Market {
    pub id: MarketId,
    pub question: String,
    pub description: Option<String>,
    pub creator_id: UserId,
    pub oracle_id: Option<UserId>,
    pub end_date: i64,
    pub closed_at: Option<i64>,
    pub resolved: bool,
    pub outcome: Option<bool>,
    /// Pool sizes of the constant-product pricing that older markets used.
    pub yes_pool: u64,
    pub no_pool: u64,
    /// Outstanding YES and NO shares.
    pub q_yes: u64,
    pub q_no: u64,
    /// The LMSR liquidity parameter `b`.
    pub liquidity_param: u64,
    pub created_at: i64,
}

impl Market {
    /// The invariant every stored market keeps: a positive liquidity
    /// parameter, and an outcome exactly when it is resolved.
    pub open spec fn wf(&self) -> bool {
        &&& self.liquidity_param > 0
        &&& self.outcome.is_some() == self.resolved
    }

    /// The user who may resolve the market: the oracle, or else the creator.
    pub open spec fn effective_oracle(&self) -> UserId {
        match self.oracle_id {
            Some(o) => o,
            None => self.creator_id,
        }
    }

    pub open spec fn closed_spec(&self, now: i64) -> bool {
        self.closed_at.is_some() || now > self.end_date
    }

    pub open spec fn status_spec(&self, now: i64) -> MarketStatus {
        if self.resolved {
            MarketStatus::Resolved
        } else if self.closed_spec(now) {
            MarketStatus::Closed
        } else {
            MarketStatus::Active
        }
    }

    pub open spec fn can_resolve_by_spec(&self, user_id: UserId, now: i64) -> bool {
        &&& self.status_spec(now) == MarketStatus::Closed
        &&& self.effective_oracle() == user_id
    }

    /// The market as it stands after `resolve` refuses nothing.
    pub open spec fn resolved_with(self, outcome: bool) -> Market {
        Market { resolved: true, outcome: Some(outcome), ..self }
    }

    /// A market with the default liquidity parameter and no outstanding shares.
    pub fn new(
        id: MarketId,
        question: String,
        description: Option<String>,
        creator_id: UserId,
        oracle_id: Option<UserId>,
        end_date: i64,
        yes_pool: u64,
        no_pool: u64,
        created_at: i64,
    ) -> (m: Market)
        ensures
            m == (Market {
                id,
                question,
                description,
                creator_id,
                oracle_id,
                end_date,
                closed_at: None,
                resolved: false,
                outcome: None,
                yes_pool,
                no_pool,
                q_yes: 0,
                q_no: 0,
                liquidity_param: DEFAULT_LIQUIDITY,
                created_at,
            }),
            m.wf(),
    {
        Market {
            id,
            question,
            description,
            creator_id,
            oracle_id,
            end_date,
            closed_at: None,
            resolved: false,
            outcome: None,
            yes_pool,
            no_pool,
            q_yes: 0,
            q_no: 0,
            liquidity_param: DEFAULT_LIQUIDITY,
            created_at,
        }
    }

    /// An LMSR market with the given liquidity parameter, no outstanding
    /// shares and empty legacy pools.
    pub fn new_lmsr(
        id: MarketId,
        question: String,
        description: Option<String>,
        creator_id: UserId,
        oracle_id: Option<UserId>,
        end_date: i64,
        liquidity_param: u64,
        created_at: i64,
    ) -> (m: Market)
        ensures
            m == (Market {
                id,
                question,
                description,
                creator_id,
                oracle_id,
                end_date,
                closed_at: None,
                resolved: false,
                outcome: None,
                yes_pool: 0,
                no_pool: 0,
                q_yes: 0,
                q_no: 0,
                liquidity_param,
                created_at,
            }),
            m.wf() == (liquidity_param > 0),
    {
        Market {
            id,
            question,
            description,
            creator_id,
            oracle_id,
            end_date,
            closed_at: None,
            resolved: false,
            outcome: None,
            yes_pool: 0,
            no_pool: 0,
            q_yes: 0,
            q_no: 0,
            liquidity_param,
            created_at,
        }
    }

    pub fn get_oracle(&self) -> (r: UserId)
        ensures
            r == self.effective_oracle(),
    {
        match self.oracle_id {
            Some(o) => o,
            None => self.creator_id,
        }
    }

    /// Whether the market is closed at time `now`: closed explicitly, or
    /// past its end date.
    pub fn is_closed(&self, now: i64) -> (r: bool)
        ensures
            r == self.closed_spec(now),
    {
        self.closed_at.is_some() || now > self.end_date
    }

    pub fn status(&self, now: i64) -> (r: MarketStatus)
        ensures
            r == self.status_spec(now),
    {
        if self.resolved {
            MarketStatus::Resolved
        } else if self.is_closed(now) {
            MarketStatus::Closed
        } else {
            MarketStatus::Active
        }
    }

    pub fn can_trade(&self, now: i64) -> (r: bool)
        ensures
            r == (self.status_spec(now) == MarketStatus::Active),
    {
        !self.is_closed(now) && !self.resolved
    }

    pub fn can_resolve(&self, now: i64) -> (r: bool)
        ensures
            r == (self.status_spec(now) == MarketStatus::Closed),
    {
        !self.resolved && self.is_closed(now)
    }

    /// Whether `user_id` may resolve the market at time `now`: it is closed,
    /// not resolved, and the user is its effective oracle.
    pub fn can_resolve_by(&self, user_id: UserId, now: i64) -> (r: bool)
        ensures
            r == self.can_resolve_by_spec(user_id, now),
    {
        self.can_resolve(now) && self.get_oracle() == user_id
    }

    /// Settles the market's outcome at time `now`.
    pub fn resolve(&mut self, outcome: bool, now: i64) -> (r: Result<(), MarketError>)
        ensures
            old(self).resolved ==> r == Err::<(), MarketError>(MarketError::AlreadyResolved),
            !old(self).resolved && !old(self).closed_spec(now) ==> r == Err::<(), MarketError>(
                MarketError::NotYetClosed,
            ),
            r is Err ==> *final(self) == *old(self),
            r is Ok ==> *final(self) == old(self).resolved_with(outcome),
            r is Ok <==> old(self).status_spec(now) == MarketStatus::Closed,
            old(self).wf() ==> final(self).wf(),
    {
        if self.resolved {
            return Err(MarketError::AlreadyResolved);
        }
        if !self.can_resolve(now) {
            return Err(MarketError::NotYetClosed);
        }
        self.resolved = true;
        self.outcome = Some(outcome);
        Ok(())
    }

    /// The market's depth: the liquidity parameter, or for a legacy market
    /// without one the sum of its pools.
    pub fn total_liquidity(&self) -> (r: u128)
        ensures
            r == if self.liquidity_param > 0 {
                self.liquidity_param as int
            } else {
                self.yes_pool + self.no_pool
            },
    {
        if self.liquidity_param > 0 {
            self.liquidity_param as u128
        } else {
            self.yes_pool as u128 + self.no_pool as u128
        }
    }

    pub fn total_outstanding_shares(&self) -> (r: u128)
        ensures
            r == self.q_yes + self.q_no,
    {
        self.q_yes as u128 + self.q_no as u128
    }
}

} // verus!
