//! Opening accounts and signing in, with passwords kept as bcrypt hashes.

use vstd::prelude::*;
use crate::exchange::{Exchange, STARTING_BALANCE};
use crate::forms::{signup_check, FormError, LoginForm, SignupForm};
use crate::market::UserId;

verus! {

/// What `bcrypt::verify` decides for a password and a stored hash.
pub uninterp spec fn bcrypt_accepts(password: Seq<char>, hash: Seq<char>) -> bool;

/// Relies on `bcrypt::verify`: whether `password` hashes to `hash` under the
/// cost and salt that `hash` carries, which depends on the two texts alone.
/// A hash that cannot be read matches no password.
#[verifier::external_body]
fn password_matches(password: &str, hash: &str) -> (r: bool)
    ensures
        r == bcrypt_accepts(password@, hash@),
{
    bcrypt::verify(password, hash).unwrap_or(false)
}

/// Relies on `bcrypt::hash` with `bcrypt::DEFAULT_COST`: a hash salted from
/// the operating system's randomness, or none when that fails. The hash
/// carries its cost and salt, so `bcrypt::verify` accepts the password
/// against it.
#[verifier::external_body]
fn hash_password(password: &str) -> (r: Option<String>)
    ensures
        r is Some ==> bcrypt_accepts(password@, r->Some_0@),
{
    bcrypt::hash(password, bcrypt::DEFAULT_COST).ok()
}

impl Exchange {
    /// Opens the account that `form` asks for at time `now`: the form is
    /// checked, the password hashed, and the account created with the
    /// starting balance; its password then signs in to it. A refusal changes
    /// nothing.
    pub fn signup(&mut self, form: &SignupForm, now: i64) -> (r: Result<UserId, FormError>)
        requires
            old(self).wf(),
            old(self).users@.len() < i64::MAX,
        ensures
            final(self).wf(),
            r is Err ==> *final(self) == *old(self),
            signup_check(form.username@, form.password@) is Err ==> r == Err::<UserId, FormError>(
                signup_check(form.username@, form.password@)->Err_0,
            ),
            signup_check(form.username@, form.password@) is Ok && old(self).username_taken(
                form.username@,
            ) ==> r is Err,
            r is Err && signup_check(form.username@, form.password@) is Ok ==> r->Err_0
                == FormError::PasswordHashFailed || (r->Err_0 == FormError::UsernameTaken && old(
                self,
            ).username_taken(form.username@)),
            r is Ok ==> {
                &&& signup_check(form.username@, form.password@) is Ok
                &&& !old(self).username_taken(form.username@)
                &&& r->Ok_0 == old(self).users@.len() + 1
                &&& final(self).users@.len() == old(self).users@.len() + 1
                &&& final(self).users@.drop_last() == old(self).users@
                &&& final(self).users@.last().id == r->Ok_0
                &&& final(self).users@.last().username == form.username
                &&& bcrypt_accepts(form.password@, final(self).users@.last().password_hash@)
                &&& final(self).users@.last().balance == STARTING_BALANCE
                &&& final(self).users@.last().created_at == now
                &&& final(self).markets == old(self).markets
                &&& final(self).positions == old(self).positions
                &&& final(self).snapshots == old(self).snapshots
            },
    {
        if let Err(e) = form.validate() {
            return Err(e);
        }
        let password_hash = match hash_password(form.password.as_str()) {
            Some(h) => h,
            None => return Err(FormError::PasswordHashFailed),
        };
        match self.create_user(form.username.clone(), password_hash, now) {
            Ok(id) => {
                proof {
                    assert(self.users@.drop_last() =~= old(self).users@);
                }
                Ok(id)
            },
            Err(_) => Err(FormError::UsernameTaken),
        }
    }

    /// The account that `form` signs in to: the one with its username, when
    /// the password matches that account's hash.
    pub fn login(&self, form: &LoginForm) -> (r: Result<UserId, FormError>)
        requires
            self.wf(),
        ensures
            r == if self.username_taken(form.username@) && bcrypt_accepts(
                form.password@,
                self.user_at(self.user_named(form.username@)).password_hash@,
            ) {
                Ok::<UserId, FormError>(self.user_named(form.username@))
            } else {
                Err::<UserId, FormError>(FormError::InvalidCredentials)
            },
    {
        let id = match self.find_user_by_username(form.username.as_str()) {
            Some(id) => id,
            None => return Err(FormError::InvalidCredentials),
        };
        let user = match self.user(id) {
            Some(u) => u,
            None => return Err(FormError::InvalidCredentials),
        };
        if password_matches(form.password.as_str(), user.password_hash.as_str()) {
            Ok(id)
        } else {
            Err(FormError::InvalidCredentials)
        }
    }
}

} // verus!
