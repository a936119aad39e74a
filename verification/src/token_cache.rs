//! The payment-provider token cache.
//!
//! One shared bearer token serves every outbound provider call. A
//! caller first reads optimistically (`cache_lookup`); on a miss it
//! fetches a new token over the network without holding any lock, and
//! installs the result under the write lock (`install_token`), which
//! re-checks whether a competing caller already installed a token that
//! is still fresh — if so, the redundant fetch result is discarded.
//! The network fetch and the locking live outside the engine; what is
//! decided here is exactly when a cached token may be served and which
//! token wins an install race.

use vstd::prelude::*;

use crate::errors::ErrorMessage;
use crate::jsonfields::get_json_i64_field;
use crate::jsonfields::get_json_str_field;
use crate::jsonfields::json_i64_field;
use crate::jsonfields::json_str_field;

verus! {

/// The cached bearer credential: the token and the instant it expires.
#[derive(Debug, PartialEq)]
pub struct CachedToken {
    pub access_token: String,
    pub expires_at: i64,
}

impl Clone for CachedToken {
    /// A clone is equal to the original.
    fn clone(&self) -> (r: Self)
        ensures
            r == *self,
    {
        CachedToken { access_token: self.access_token.clone(), expires_at: self.expires_at }
    }
}

impl CachedToken {
    /// Whether the token is still usable at this instant.
    pub fn is_valid(&self, now: i64) -> (r: bool)
        ensures
            r == (now < self.expires_at),
    {
        now < self.expires_at
    }
}

/// A cached token may be served while the current instant is still a
/// full safety margin short of its expiry.
pub open spec fn fresh_at(tok: CachedToken, now: i64, safety_margin: i64) -> bool {
    now < tok.expires_at - safety_margin
}

/// What the optimistic read serves: the cached token exactly when it
/// is fresh, nothing otherwise.
pub open spec fn spec_cache_lookup(cache: Option<CachedToken>, now: i64, safety_margin: i64) -> Option<String> {
    match cache {
        Some(tok) => if fresh_at(tok, now, safety_margin) {
            Some(tok.access_token)
        } else {
            None
        },
        None => None,
    }
}

/// The optimistic read: serves the cached token only while it is
/// fresh, so a caller never deliberately observes a stale token.
pub fn cache_lookup(cache: &Option<CachedToken>, now: i64, safety_margin: i64) -> (r: Option<
    String,
>)
    ensures
        r == spec_cache_lookup(*cache, now, safety_margin),
{
    match cache {
        Some(tok) => {
            let fresh = (now as i128) < (tok.expires_at as i128) - (safety_margin as i128);
            if fresh {
                Some(tok.access_token.clone())
            } else {
                None
            }
        },
        None => None,
    }
}

/// The install step, run under the write lock after a fetch: if a
/// competing caller already installed a token that is still fresh,
/// the fetched one is discarded and the winner is returned; otherwise
/// the fetched token is installed and returned.
pub fn install_token(
    cache: &mut Option<CachedToken>,
    fetched: CachedToken,
    now: i64,
    safety_margin: i64,
) -> (r: String)
    ensures
        match *old(cache) {
            Some(tok) => if fresh_at(tok, now, safety_margin) {
                *final(cache) == *old(cache) && r == tok.access_token
            } else {
                *final(cache) == Some(fetched) && r == fetched.access_token
            },
            None => *final(cache) == Some(fetched) && r == fetched.access_token,
        },
{
    let keep = match cache {
        Some(tok) => (now as i128) < (tok.expires_at as i128) - (safety_margin as i128),
        None => false,
    };
    if keep {
        match cache {
            Some(tok) => tok.access_token.clone(),
            None => fetched.access_token,  // unreachable: keep implies a cached token
        }
    } else {
        let out = fetched.access_token.clone();
        *cache = Some(fetched);
        out
    }
}

/// The expiry instant stored for a fetched token: its lifetime minus a
/// one-minute head start, from now, saturated to the representable
/// range.
pub open spec fn token_expiry_of(now: i64, expires_in: i64) -> i64 {
    let e = now + expires_in - 60;
    if e > i64::MAX {
        i64::MAX
    } else if e < i64::MIN {
        i64::MIN
    } else {
        e as i64
    }
}

/// Reads the provider's token response: the access token is required,
/// the lifetime defaults to an hour when absent, and the stored expiry
/// gets a one-minute head start. A response without an access token is
/// a provider authentication failure, to be retried, never served.
pub fn ingest_token_response(body: &[u8], now: i64) -> (r: Result<CachedToken, ErrorMessage>)
    ensures
        r is Err <==> json_str_field(body@, "access_token"@) is None,
        r is Err ==> r == Err::<CachedToken, ErrorMessage>(ErrorMessage::ProviderAuthError),
        r matches Ok(tok) ==> {
            &&& json_str_field(body@, "access_token"@) == Some(tok.access_token@)
            &&& tok.expires_at == token_expiry_of(
                now,
                match json_i64_field(body@, "expires_in"@) {
                    Some(v) => v,
                    None => 3600,
                },
            )
        },
{
    let access_token = match get_json_str_field(body, "access_token") {
        Some(t) => t,
        None => {
            return Err(ErrorMessage::ProviderAuthError);
        },
    };
    let expires_in: i64 = match get_json_i64_field(body, "expires_in") {
        Some(v) => v,
        None => 3600,
    };
    let e: i128 = (now as i128) + (expires_in as i128) - 60;
    let expires_at: i64 = if e > i64::MAX as i128 {
        i64::MAX
    } else if e < i64::MIN as i128 {
        i64::MIN
    } else {
        e as i64
    };
    Ok(CachedToken { access_token, expires_at })
}

/// A token that expires within the safety margin is never served: the
/// very next lookup misses and forces a refresh.
pub proof fn lemma_stale_token_forces_refresh(tok: CachedToken, now: i64, safety_margin: i64)
    requires
        tok.expires_at - now <= safety_margin,
    ensures
        spec_cache_lookup(Some(tok), now, safety_margin) is None,
{
}

} // verus!
