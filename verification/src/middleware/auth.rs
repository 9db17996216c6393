//! The principal of a request and the bearer credential it comes from.

use vstd::prelude::*;
use vstd::string::StringExecFns;
use crate::error::{AppError, AppErrorView};
use crate::text::{strip_prefix, without_prefix};
use crate::utils::jwt::{Claims, ClaimsView};

verus! {

/// The principal of a request: the claims of its verified bearer credential.
#[derive(Debug)]
pub struct AuthUser {
    pub claims: Claims,
}

/// The mathematical value of an [`AuthUser`].
pub struct AuthUserView {
    pub claims: ClaimsView,
}

impl View for AuthUser {
    type V = AuthUserView;

    open spec fn view(&self) -> AuthUserView {
        AuthUserView {
            claims: self.claims@,
        }
    }
}

impl DeepView for AuthUser {
    type V = AuthUserView;

    open spec fn deep_view(&self) -> AuthUserView {
        self@
    }
}

impl Clone for AuthUser {
    fn clone(&self) -> (r: Self)
        ensures
            r@ == self@,
    {
        AuthUser {
            claims: self.claims.clone(),
        }
    }
}
/// The bearer token that an authorization header carries.
pub open spec fn bearer_of(header: Option<Seq<char>>) -> Result<Seq<char>, AppErrorView> {
    match header {
        None => Err(AppErrorView::Unauthorized("Missing authorization header"@)),
        Some(h) => match without_prefix(h, "Bearer "@) {
            Some(token) => Ok(token),
            None => Err(AppErrorView::Unauthorized("Invalid authorization header format"@)),
        },
    }
}

/// Takes the bearer token out of an authorization header: what follows the
/// word `Bearer` and one space. A request without the header, or with
/// another scheme, is not authenticated.
pub fn bearer_token(auth_header: Option<&str>) -> (r: Result<String, AppError>)
    ensures
        match bearer_of(
            match auth_header {
                Some(h) => Some(h@),
                None => None,
            },
        ) {
            Ok(token) => r is Ok && r->Ok_0@ == token,
            Err(e) => r is Err && r->Err_0@ == e,
        },
{
    let auth_value = match auth_header {
        Some(h) => h,
        None => {
            return Err(AppError::Unauthorized(String::from_str("Missing authorization header")));
        },
    };
    match strip_prefix(auth_value, "Bearer ") {
        Some(token) => Ok(String::from_str(token)),
        None => Err(
            AppError::Unauthorized(String::from_str("Invalid authorization header format")),
        ),
    }
}

impl AuthUser {
    /// The principal that verified claims stand for.
    pub fn new(claims: Claims) -> (user: AuthUser)
        ensures
            user@.claims == claims@,
    {
        AuthUser { claims }
    }
}

} // verus!
