//! The claims of a bearer credential.

use vstd::prelude::*;
use vstd::string::StringExecFns;
use crate::error::{AppError, AppErrorView};
use crate::utils::ident::{format_uuid, parse_uuid, parsed_uuid, uuid_text};

verus! {

/// What a bearer credential states about its holder.
#[derive(Debug)]
pub struct Claims {
    /// The holder's identifier in hyphenated form.
    pub sub: String,
    pub username: String,
    pub role: String,
    /// The second, counted from the Unix epoch, at which the credential expires.
    pub exp: i64,
    /// The second at which the credential was issued.
    pub iat: i64,
}

/// The mathematical value of a [`Claims`].
pub struct ClaimsView {
    pub sub: Seq<char>,
    pub username: Seq<char>,
    pub role: Seq<char>,
    pub exp: i64,
    pub iat: i64,
}

impl View for Claims {
    type V = ClaimsView;

    open spec fn view(&self) -> ClaimsView {
        ClaimsView {
            sub: self.sub.deep_view(),
            username: self.username.deep_view(),
            role: self.role.deep_view(),
            exp: self.exp,
            iat: self.iat,
        }
    }
}

impl DeepView for Claims {
    type V = ClaimsView;

    open spec fn deep_view(&self) -> ClaimsView {
        self@
    }
}

impl Clone for Claims {
    fn clone(&self) -> (r: Self)
        ensures
            r@ == self@,
    {
        Claims {
            sub: self.sub.clone(),
            username: self.username.clone(),
            role: self.role.clone(),
            exp: self.exp,
            iat: self.iat,
        }
    }
}
/// `Utc::now().timestamp()`: the seconds that the system clock counts since
/// the Unix epoch. The call does not return where the clock stands before
/// the epoch, so what comes back is never negative.
#[verifier::external_body]
pub(crate) fn unix_now() -> (seconds: i64)
    ensures
        seconds >= 0,
{
    chrono::Utc::now().timestamp()
}

/// The claims issued at second `now` to a user, valid for
/// `expiration_seconds`.
pub open spec fn issued_claims(
    user_id: u128,
    username: Seq<char>,
    role: Seq<char>,
    expiration_seconds: i64,
    now: i64,
) -> ClaimsView {
    ClaimsView {
        sub: uuid_text(user_id),
        username,
        role,
        exp: (now + expiration_seconds) as i64,
        iat: now,
    }
}

impl Claims {
    /// The claims issued at second `now`: the subject is the hyphenated form
    /// of the user's identifier, the expiry lies `expiration_seconds` after
    /// `now`.
    pub fn issued_at(
        user_id: u128,
        username: String,
        role: String,
        expiration_seconds: i64,
        now: i64,
    ) -> (claims: Claims)
        requires
            i64::MIN <= now + expiration_seconds <= i64::MAX,
        ensures
            claims@ == issued_claims(user_id, username@, role@, expiration_seconds, now),
            parsed_uuid(claims@.sub) == Some(user_id),
    {
        Claims {
            sub: format_uuid(user_id),
            username,
            role,
            exp: now + expiration_seconds,
            iat: now,
        }
    }

    /// The claims issued now, by the system clock. `None` where the expiry
    /// cannot be counted in 64 bits.
    pub fn new(user_id: u128, username: String, role: String, expiration_seconds: i64) -> (claims:
        Option<Claims>)
        ensures
            claims matches Some(c) ==> exists|now: i64|
                0 <= now && i64::MIN <= now + expiration_seconds <= i64::MAX && c@ == #[trigger] issued_claims(
                    user_id,
                    username@,
                    role@,
                    expiration_seconds,
                    now,
                ),
            claims matches Some(c) ==> parsed_uuid(c@.sub) == Some(user_id),
            expiration_seconds <= 0 ==> claims is Some,
    {
        let now = unix_now();
        if expiration_seconds > 0 && now > i64::MAX - expiration_seconds {
            None
        } else {
            Some(Claims::issued_at(user_id, username, role, expiration_seconds, now))
        }
    }

    /// The identifier that the subject stands for. A subject that is no
    /// identifier makes the credential invalid.
    pub fn user_id(&self) -> (r: Result<u128, AppError>)
        ensures
            match parsed_uuid(self@.sub) {
                Some(id) => r == Ok::<u128, AppError>(id),
                None => r is Err && r->Err_0@ == AppErrorView::Unauthorized("Invalid token"@),
            },
    {
        match parse_uuid(self.sub.as_str()) {
            Some(id) => Ok(id),
            None => Err(AppError::Unauthorized(String::from_str("Invalid token"))),
        }
    }
}

} // verus!
