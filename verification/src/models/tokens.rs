//! Refresh tokens, one-time tokens (password reset and e-mail verification)
//! and links to social login accounts.
use vstd::prelude::*;
use crate::clock::in_range;

verus! {

/// A stored refresh token. Instants are micro-seconds since the Unix epoch.
#[derive(Debug, Clone)]
pub struct RefreshToken {
    pub id: String,
    pub user_id: String,
    pub token: String,
    pub expires_at: i64,
    pub used_at: Option<i64>,
    pub revoked_at: Option<i64>,
    pub created_at: i64,
}

/// A stored one-time token, used both for password resets and for e-mail
/// verification.
#[derive(Debug, Clone)]
pub struct PasswordResetToken {
    pub id: String,
    pub user_id: String,
    pub token: String,
    pub expires_at: i64,
    pub used_at: Option<i64>,
    pub created_at: i64,
}

/// A link between a user and an account at a social login provider.
#[derive(Debug, Clone)]
pub struct SocialAccount {
    pub id: String,
    pub user_id: String,
    pub provider: String,
    pub provider_id: String,
    pub created_at: i64,
    pub updated_at: i64,
}

/// A refresh token is usable at `now` while it is neither revoked nor used
/// and has not expired.
pub open spec fn refresh_usable(t: RefreshToken, now: int) -> bool {
    t.revoked_at is None && t.used_at is None && now < t.expires_at
}

/// A one-time token is usable at `now` while it is unused and has not expired.
pub open spec fn one_time_usable(t: PasswordResetToken, now: int) -> bool {
    t.used_at is None && now < t.expires_at
}

impl RefreshToken {
    /// Whether this token is usable at instant `now`.
    pub fn is_valid_at(&self, now: i64) -> (b: bool)
        ensures
            b == refresh_usable(*self, now as int),
    {
        self.revoked_at.is_none() && self.used_at.is_none() && now < self.expires_at
    }

    /// Whether this token is usable now.
    pub fn is_valid(&self) -> (b: bool)
        ensures
            self.revoked_at is Some || self.used_at is Some || self.expires_at <= 0 ==> !b,
            exists|now: int|
                0 <= now && in_range(now) && b == #[trigger] refresh_usable(*self, now),
    {
        let now = crate::clock::now_micros();
        self.is_valid_at(now)
    }
}

impl PasswordResetToken {
    /// Whether this token is usable at instant `now`.
    pub fn is_valid_at(&self, now: i64) -> (b: bool)
        ensures
            b == one_time_usable(*self, now as int),
    {
        self.used_at.is_none() && now < self.expires_at
    }

    /// Whether this token is usable now.
    pub fn is_valid(&self) -> (b: bool)
        ensures
            self.used_at is Some || self.expires_at <= 0 ==> !b,
            exists|now: int|
                0 <= now && in_range(now) && b == #[trigger] one_time_usable(*self, now),
    {
        let now = crate::clock::now_micros();
        self.is_valid_at(now)
    }
}

} // verus!
