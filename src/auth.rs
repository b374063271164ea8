//! The directory credential of a user: the login's state check, when a token
//! must be refreshed, and when a new token expires. Times are seconds since
//! the epoch.
use vstd::prelude::*;

verus! {

/// How long a token lasts when the directory does not say.
pub const DEFAULT_TOKEN_LIFETIME: u64 = 7200;

/// What the authorization callback brings back: the code, and the state sent
/// out beside the state that came back.
#[derive(Clone, Debug)]
pub struct Credentials {
    pub code: String,
    pub old_state: String,
    pub new_state: String,
}

impl Credentials {
    /// Whether the state came back as it was sent; a login proceeds only then.
    pub fn state_matches(&self) -> (r: bool)
        ensures
            r == (self.old_state@ == self.new_state@),
    {
        self.old_state == self.new_state
    }
}

/// A bearer token for the directory, with what renews it.
#[derive(Clone, Debug)]
pub struct Credential {
    pub access_token: String,
    pub refresh_token: Option<String>,
    pub expires_at: i64,
}

/// What keeping a credential usable calls for at a given time.
#[derive(Clone, Debug)]
pub enum Freshness {
    /// The token has not expired: use it.
    Fresh,
    /// The token has expired: renew it with this refresh token.
    Refresh(String),
    /// The token has expired and cannot be renewed.
    NoRefreshToken,
}

/// Why a renewed token could not be taken.
#[derive(PartialEq, Eq, Structural, Clone, Copy, Debug)]
pub enum TokenError {
    /// The renewal did not say how long the token lasts.
    NoLifetime,
    /// The expiry time does not fit.
    ExpiryOutOfRange,
}

/// A token lifetime added to a time, when the sum fits.
pub open spec fn expiry(now: i64, lifetime: u64) -> Option<i64> {
    if now + lifetime <= i64::MAX {
        Some((now + lifetime) as i64)
    } else {
        None
    }
}

fn add_lifetime(now: i64, lifetime: u64) -> (r: Option<i64>)
    ensures
        r == expiry(now, lifetime),
{
    let sum: i128 = now as i128 + lifetime as i128;
    if sum <= i64::MAX as i128 {
        Some(sum as i64)
    } else {
        None
    }
}

impl Credential {
    /// What keeping this credential usable calls for at time `now`: nothing
    /// until it has expired, then a renewal with its refresh token.
    pub fn freshness(&self, now: i64) -> (r: Freshness)
        ensures
            self.expires_at >= now ==> r is Fresh,
            self.expires_at < now ==> match self.refresh_token {
                Some(t) => r == Freshness::Refresh(t),
                None => r is NoRefreshToken,
            },
    {
        if self.expires_at < now {
            match &self.refresh_token {
                Some(t) => Freshness::Refresh(t.clone()),
                None => Freshness::NoRefreshToken,
            }
        } else {
            Freshness::Fresh
        }
    }

    /// The credential that a renewal at time `now` issued: its tokens, and an
    /// expiry `lifetime` seconds on. A renewal must state the lifetime.
    pub fn renewed(
        access_token: String,
        refresh_token: Option<String>,
        lifetime: Option<u64>,
        now: i64,
    ) -> (r: Result<Credential, TokenError>)
        ensures
            lifetime is None ==> r == Err::<Credential, TokenError>(TokenError::NoLifetime),
            lifetime matches Some(l) ==> match expiry(now, l) {
                Some(at) => r == Ok::<Credential, TokenError>(Credential { access_token, refresh_token, expires_at: at }),
                None => r == Err::<Credential, TokenError>(TokenError::ExpiryOutOfRange),
            },
    {
        match lifetime {
            None => Err(TokenError::NoLifetime),
            Some(l) => match add_lifetime(now, l) {
                Some(at) => Ok(Credential { access_token, refresh_token, expires_at: at }),
                None => Err(TokenError::ExpiryOutOfRange),
            },
        }
    }

    /// The credential that a login at time `now` issued; without a stated
    /// lifetime the token lasts two hours.
    pub fn issued(
        access_token: String,
        refresh_token: Option<String>,
        lifetime: Option<u64>,
        now: i64,
    ) -> (r: Result<Credential, TokenError>)
        ensures
            ({
                let l = match lifetime { Some(l) => l, None => DEFAULT_TOKEN_LIFETIME };
                match expiry(now, l) {
                    Some(at) => r == Ok::<Credential, TokenError>(Credential { access_token, refresh_token, expires_at: at }),
                    None => r == Err::<Credential, TokenError>(TokenError::ExpiryOutOfRange),
                }
            }),
    {
        let l = match lifetime {
            Some(l) => l,
            None => DEFAULT_TOKEN_LIFETIME,
        };
        match add_lifetime(now, l) {
            Some(at) => Ok(Credential { access_token, refresh_token, expires_at: at }),
            None => Err(TokenError::ExpiryOutOfRange),
        }
    }
}

} // verus!
