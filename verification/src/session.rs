//! The credential/session resolver: the decisions around a bearer
//! token. Decoding the token's signature is the serving layer's
//! business; what is decided here — and verified — is what each
//! decode outcome means: which error each failure maps to, which
//! account a subject resolves to, what claims a fresh token carries,
//! and which roles a guarded route admits.

use vstd::prelude::*;

use crate::errors::ErrorMessage;
use crate::model::User;
use crate::model::UserRole;
use crate::store::Store;

verus! {

/// What a session token carries.
#[derive(Debug, Clone, Copy, PartialEq)]
pub struct TokenClaims {
    pub sub: u64,
    pub role: UserRole,
    pub iat: i64,
    pub exp: i64,
    pub subscription_expires_at: Option<i64>,
}

/// Whether the claims carry a subscription that is still running.
pub fn is_premium(claims: &TokenClaims, now: i64) -> (r: bool)
    ensures
        r == (match claims.subscription_expires_at {
            Some(ts) => ts > now,
            None => false,
        }),
{
    match claims.subscription_expires_at {
        Some(ts) => ts > now,
        None => false,
    }
}

/// The instant a token issued now expires, saturated to the
/// representable range.
pub open spec fn expiry_instant(now: i64, expiration_in_seconds: i64) -> i64 {
    let e = now + expiration_in_seconds;
    if e > i64::MAX {
        i64::MAX
    } else if e < i64::MIN {
        i64::MIN
    } else {
        e as i64
    }
}

/// Builds the claims of a fresh session token: issued now, expiring
/// after the given lifetime. The nil subject is refused.
pub fn build_token_claims(
    user_id: u64,
    role: UserRole,
    subscription_expires_at: Option<i64>,
    now: i64,
    expiration_in_seconds: i64,
) -> (r: Result<TokenClaims, ErrorMessage>)
    ensures
        r is Err <==> user_id == 0,
        r is Err ==> r == Err::<TokenClaims, ErrorMessage>(ErrorMessage::InvalidToken),
        r matches Ok(c) ==> c == (TokenClaims {
            sub: user_id,
            role,
            iat: now,
            exp: expiry_instant(now, expiration_in_seconds),
            subscription_expires_at,
        }),
{
    if user_id == 0 {
        return Err(ErrorMessage::InvalidToken);
    }
    let e: i128 = (now as i128) + (expiration_in_seconds as i128);
    let exp: i64 = if e > i64::MAX as i128 {
        i64::MAX
    } else if e < i64::MIN as i128 {
        i64::MIN
    } else {
        e as i64
    };
    Ok(TokenClaims { sub: user_id, role, iat: now, exp, subscription_expires_at })
}

/// Resolves a request's credentials to an account. A missing token is
/// unauthenticated; a token whose verification yielded no subject is
/// invalid; a subject that no longer names a stored account is gone;
/// anything else resolves. Read-only.
pub fn resolve_account(store: &Store, token: Option<&str>, subject: Option<u64>) -> (r: Result<
    User,
    ErrorMessage,
>)
    requires
        store.wf(),
    ensures
        token is None ==> r == Err::<User, ErrorMessage>(ErrorMessage::TokenNotProvided),
        token is Some && subject is None ==> r == Err::<User, ErrorMessage>(
            ErrorMessage::InvalidToken,
        ),
        (match (token, subject) {
            (Some(_), Some(id)) => match r {
                Ok(u) => u.id == id && exists|i: int|
                    0 <= i < store.users@.len() && #[trigger] store.users@[i] == u,
                Err(e) => e == ErrorMessage::UserNoLongerExist && (forall|i: int|
                    0 <= i < store.users@.len() ==> store.users@[i].id != id),
            },
            _ => true,
        }),
{
    if token.is_none() {
        return Err(ErrorMessage::TokenNotProvided);
    }
    let id = match subject {
        Some(id) => id,
        None => {
            return Err(ErrorMessage::InvalidToken);
        },
    };
    match store.find_user_by_id(id) {
        Some(i) => Ok(store.users[i].clone()),
        None => Err(ErrorMessage::UserNoLongerExist),
    }
}

/// The role a request acts under, from whatever claims could be
/// decoded: absent or undecodable claims act as a plain user.
pub fn role_from_claims(claims: Option<&TokenClaims>) -> (r: UserRole)
    ensures
        r == (match claims {
            Some(c) => c.role,
            None => UserRole::User,
        }),
{
    match claims {
        Some(c) => c.role,
        None => UserRole::User,
    }
}

/// A route guard: the set of roles a guarded scope admits.
#[derive(Debug, PartialEq)]
pub struct RoleCheck {
    pub roles: Vec<UserRole>,
}

impl RoleCheck {
    /// A guard admitting exactly these roles.
    pub fn new(roles: Vec<UserRole>) -> (r: RoleCheck)
        ensures
            r.roles == roles,
    {
        Self { roles }
    }

    /// Whether the guard admits this role.
    pub fn authorized(&self, role: UserRole) -> (r: bool)
        ensures
            r == self.roles@.contains(role),
    {
        let mut i: usize = 0;
        while i < self.roles.len()
            invariant
                i <= self.roles@.len(),
                forall|j: int| 0 <= j < i ==> self.roles@[j] != role,
            decreases self.roles@.len() - i,
        {
            if self.roles[i] == role {
                proof {
                    assert(self.roles@.contains(role));
                }
                return true;
            }
            i = i + 1;
        }
        proof {
            assert(!self.roles@.contains(role));
        }
        false
    }
}

} // verus!
