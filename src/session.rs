use vstd::prelude::*;
use crate::market::UserId;

verus! {

/// The user a login session belongs to.
#[derive(Debug, Clone, Copy, PartialEq, Eq, Structural)]
pub struct AuthSession {
    pub user_id: UserId,
}

impl AuthSession {
    pub fn new(user_id: UserId) -> (s: Self)
        ensures
            s.user_id == user_id,
    {
        AuthSession { user_id }
    }
}

/// A request made by a signed-in user.
#[derive(Debug, Clone, Copy, PartialEq, Eq, Structural)]
pub struct RequireAuth {
    pub user_id: UserId,
}

/// A request that may come from a signed-in user.
#[derive(Debug, Clone, Copy, PartialEq, Eq, Structural)]
pub struct OptionalAuth {
    pub user_id: Option<UserId>,
}

} // verus!
