//! Registration, login and the account of the current principal.

use vstd::prelude::*;
use vstd::string::StringExecFns;
use crate::db::{lemma_first_index, Database, DatabaseView};
use crate::error::{answers, AppError, AppErrorView};
use crate::middleware::auth::AuthUser;
use crate::models::user::{
    credentials_fault, email_is_valid, registration_fault, shown, CreateUserRequest,
    CreateUserRequestView, LoginRequest, LoginRequestView, User, UserResponse, UserResponseView,
    UserRole, UserView,
};
use crate::utils::ident::parsed_uuid;
use crate::utils::jwt::{issued_claims, unix_now, Claims, ClaimsView};
use crate::utils::password::{bcrypt_verdict, hash_password, password_check, verify_password};

verus! {

/// What a successful login hands out: the claims to sign into a bearer
/// credential, and the account.
#[derive(Debug)]
pub struct LoginGrant {
    pub claims: Claims,
    pub user: UserResponse,
}

/// The mathematical value of a [`LoginGrant`].
pub struct LoginGrantView {
    pub claims: ClaimsView,
    pub user: UserResponseView,
}

impl View for LoginGrant {
    type V = LoginGrantView;

    open spec fn view(&self) -> LoginGrantView {
        LoginGrantView {
            claims: self.claims@,
            user: self.user@,
        }
    }
}

impl DeepView for LoginGrant {
    type V = LoginGrantView;

    open spec fn deep_view(&self) -> LoginGrantView {
        self@
    }
}

impl Clone for LoginGrant {
    fn clone(&self) -> (r: Self)
        ensures
            r@ == self@,
    {
        LoginGrant {
            claims: self.claims.clone(),
            user: self.user.clone(),
        }
    }
}
/// The account row carries the user name or the e-mail address.
pub open spec fn claims_name(u: UserView, username: Seq<char>, email: Seq<char>) -> bool {
    u.username == username || u.email == email
}

/// The row of a new account: an active account of role `user`.
pub open spec fn account_row(
    payload: CreateUserRequestView,
    password_hash: Seq<char>,
    new_id: u128,
    now: i64,
) -> UserView {
    UserView {
        id: new_id,
        username: payload.username,
        email: payload.email,
        password_hash,
        full_name: payload.full_name,
        role: UserRole::User.name(),
        is_active: true,
        created_at: now,
        updated_at: now,
    }
}

impl DatabaseView {
    /// Some account carries the user name or the e-mail address.
    pub open spec fn is_taken(self, username: Seq<char>, email: Seq<char>) -> bool {
        exists|i: int| 0 <= i < self.users.len() && claims_name(#[trigger] self.users[i], username, email)
    }

    /// The store with one more account at the end of its table.
    pub open spec fn with_user(self, user: UserView) -> DatabaseView {
        DatabaseView { users: self.users.push(user), ..self }
    }

    /// What a registration comes to, given whether its e-mail address is
    /// valid and the hash of its password.
    pub open spec fn registration(
        self,
        payload: CreateUserRequestView,
        email_ok: bool,
        password_hash: Seq<char>,
        new_id: u128,
        now: i64,
    ) -> Result<UserView, AppErrorView> {
        match registration_fault(payload, email_ok) {
            Some(e) => Err(e),
            None => if self.is_taken(payload.username, payload.email) {
                Err(AppErrorView::BadRequest("Username or email already exists"@))
            } else {
                Ok(account_row(payload, password_hash, new_id, now))
            },
        }
    }

    /// What a login at second `now` comes to, given the result of checking
    /// the password against the hash of the account: the account and the
    /// claims to sign. An unknown user and a wrong password get the same
    /// answer.
    pub open spec fn login_outcome(
        self,
        payload: LoginRequestView,
        check: Result<bool, AppErrorView>,
        expiration_seconds: i64,
        now: i64,
    ) -> Result<LoginGrantView, AppErrorView> {
        match credentials_fault(payload.username, payload.password) {
            Some(e) => Err(e),
            None => match self.find_user_by_username(payload.username) {
                None => Err(AppErrorView::Unauthorized("Invalid credentials"@)),
                Some(user) => if !user.is_active {
                    Err(AppErrorView::Unauthorized("Account is not active"@))
                } else {
                    match check {
                        Err(e) => Err(e),
                        Ok(false) => Err(AppErrorView::Unauthorized("Invalid credentials"@)),
                        Ok(true) => if !(i64::MIN <= now + expiration_seconds <= i64::MAX) {
                            Err(AppErrorView::InternalServerError("Token expiry out of range"@))
                        } else {
                            Ok(
                                LoginGrantView {
                                    claims: issued_claims(
                                        user.id,
                                        user.username,
                                        user.role,
                                        expiration_seconds,
                                        now,
                                    ),
                                    user: shown(user),
                                },
                            )
                        },
                    }
                },
            },
        }
    }

    /// What a request for the account of the principal comes to.
    pub open spec fn current_user(self, user_id: u128) -> Result<UserResponseView, AppErrorView> {
        match self.find_user(user_id) {
            Some(user) => Ok(shown(user)),
            None => Err(AppErrorView::NotFound("Resource not found"@)),
        }
    }
}

/// Whether some account carries the user name or the e-mail address.
pub fn is_taken(db: &Database, username: &str, email: &str) -> (taken: bool)
    ensures
        taken == db@.is_taken(username@, email@),
{
    let mut i: usize = 0;
    while i < db.users.len()
        invariant
            i <= db.users.len(),
            forall|j: int| 0 <= j < i ==> !claims_name(#[trigger] db@.users[j], username@, email@),
        decreases db.users.len() - i,
    {
        let u = &db.users[i];
        if crate::text::str_eq(u.username.as_str(), username) || crate::text::str_eq(
            u.email.as_str(),
            email,
        ) {
            assert(claims_name(db@.users[i as int], username@, email@));
            return true;
        }
        i += 1;
    }
    false
}

/// Registers an account, given whether its e-mail address is valid and the
/// hash of its password.
pub fn register_with(
    db: &mut Database,
    payload: CreateUserRequest,
    email_ok: bool,
    password_hash: String,
    new_id: u128,
    now: i64,
) -> (r: Result<UserResponse, AppError>)
    ensures
        ({
            let outcome = old(db)@.registration(payload@, email_ok, password_hash@, new_id, now);
            match outcome {
                Ok(user) => r is Ok && r->Ok_0@ == shown(user) && final(db)@ == old(db)@.with_user(
                    user,
                ),
                Err(e) => r is Err && r->Err_0@ == e && final(db)@ == old(db)@,
            }
        }),
{
    match payload.validate_with(email_ok) {
        Ok(_) => {},
        Err(e) => {
            return Err(e);
        },
    }
    if is_taken(db, payload.username.as_str(), payload.email.as_str()) {
        return Err(AppError::BadRequest(String::from_str("Username or email already exists")));
    }
    let user = User {
        id: new_id,
        username: payload.username,
        email: payload.email,
        password_hash,
        full_name: payload.full_name,
        role: String::from_str(UserRole::User.as_str()),
        is_active: true,
        created_at: now,
        updated_at: now,
    };
    db.users.push(user.clone());
    assert(db@.users =~= old(db)@.users.push(user@));
    Ok(UserResponse::from_user(user))
}

/// Registers an account. The body must keep its rules and neither the user
/// name nor the e-mail address may be taken. Of the password only its
/// salted hash is stored, one that accepts the password.
pub fn register(db: &mut Database, payload: CreateUserRequest, new_id: u128, now: i64) -> (r: Result<
    UserResponse,
    AppError,
>)
    ensures
        match registration_fault(payload@, email_is_valid(payload@.email)) {
            Some(e) => answers(r, Err(e)) && final(db)@ == old(db)@,
            None => if old(db)@.is_taken(payload@.username, payload@.email) {
                answers(r, Err(AppErrorView::BadRequest("Username or email already exists"@)))
                    && final(db)@ == old(db)@
            } else {
                match r {
                    Ok(response) => {
                        let stored = final(db)@.users.last();
                        &&& final(db)@ == old(db)@.with_user(stored)
                        &&& stored == account_row(payload@, stored.password_hash, new_id, now)
                        &&& bcrypt_verdict(payload@.password, stored.password_hash) == Some(true)
                        &&& response@ == shown(stored)
                    },
                    Err(e) => e@ is InternalServerError && final(db)@ == old(db)@,
                }
            },
        },
{
    match payload.validate() {
        Ok(_) => {},
        Err(e) => {
            return Err(e);
        },
    }
    if is_taken(db, payload.username.as_str(), payload.email.as_str()) {
        return Err(AppError::BadRequest(String::from_str("Username or email already exists")));
    }
    let password_hash = match hash_password(payload.password.as_str()) {
        Ok(h) => h,
        Err(e) => {
            return Err(e);
        },
    };
    register_with(db, payload, true, password_hash, new_id, now)
}

/// Logs a user in at second `now`, given the result of checking the
/// password against the hash of the account.
pub fn login_with(
    db: &Database,
    payload: &LoginRequest,
    check: Result<bool, AppError>,
    expiration_seconds: i64,
    now: i64,
) -> (r: Result<LoginGrant, AppError>)
    ensures
        answers(
            r,
            db@.login_outcome(
                payload@,
                match check {
                    Ok(b) => Ok(b),
                    Err(e) => Err(e@),
                },
                expiration_seconds,
                now,
            ),
        ),
{
    match payload.validate() {
        Ok(_) => {},
        Err(e) => {
            return Err(e);
        },
    }
    let i = match db.user_index_by_username(payload.username.as_str()) {
        Some(i) => i,
        None => {
            return Err(AppError::Unauthorized(String::from_str("Invalid credentials")));
        },
    };
    proof {
        lemma_first_index(db@.users, |u: UserView| u.username == payload@.username, i as int);
    }
    let user = db.users[i].clone();
    if !user.is_active {
        return Err(AppError::Unauthorized(String::from_str("Account is not active")));
    }
    match check {
        Err(e) => {
            return Err(e);
        },
        Ok(false) => {
            return Err(AppError::Unauthorized(String::from_str("Invalid credentials")));
        },
        Ok(true) => {},
    }
    if (expiration_seconds > 0 && now > i64::MAX - expiration_seconds) || (expiration_seconds < 0
        && now < i64::MIN - expiration_seconds) {
        return Err(AppError::InternalServerError(String::from_str("Token expiry out of range")));
    }
    let claims = Claims::issued_at(
        user.id,
        user.username.clone(),
        user.role.clone(),
        expiration_seconds,
        now,
    );
    Ok(LoginGrant { claims, user: UserResponse::from_user(user) })
}

/// Logs a user in: the account must exist, be active, and its hash must
/// accept the password. What comes back are the claims of a credential that
/// is issued now and lives for `expiration_seconds`.
pub fn login(db: &Database, payload: &LoginRequest, expiration_seconds: i64) -> (r: Result<
    LoginGrant,
    AppError,
>)
    ensures
        exists|check: Result<bool, AppErrorView>, now: i64|
            {
                &&& now >= 0
                &&& db@.find_user_by_username(payload@.username) matches Some(user)
                    ==> password_check(
                    bcrypt_verdict(payload@.password, user.password_hash),
                    check,
                )
                &&& answers(r, #[trigger] db@.login_outcome(payload@, check, expiration_seconds, now))
            },
{
    let check = match db.user_index_by_username(payload.username.as_str()) {
        Some(i) => {
            proof {
                lemma_first_index(
                    db@.users,
                    |u: UserView| u.username == payload@.username,
                    i as int,
                );
            }
            verify_password(payload.password.as_str(), db.users[i].password_hash.as_str())
        },
        None => Ok(false),
    };
    let now = unix_now();
    let ghost check_view: Result<bool, AppErrorView> = match &check {
        Ok(b) => Ok(*b),
        Err(e) => Err(e@),
    };
    let r = login_with(db, payload, check, expiration_seconds, now);
    proof {
        assert(answers(r, db@.login_outcome(payload@, check_view, expiration_seconds, now)));
    }
    r
}

/// The account of the principal.
pub fn get_current_user(db: &Database, user: &AuthUser) -> (r: Result<UserResponse, AppError>)
    ensures
        match parsed_uuid(user@.claims.sub) {
            None => answers(r, Err(AppErrorView::Unauthorized("Invalid token"@))),
            Some(user_id) => answers(r, db@.current_user(user_id)),
        },
{
    let user_id = match user.claims.user_id() {
        Ok(id) => id,
        Err(e) => {
            return Err(e);
        },
    };
    match db.user_index(user_id) {
        Some(i) => {
            proof {
                lemma_first_index(db@.users, |u: UserView| u.id == user_id, i as int);
            }
            Ok(UserResponse::from_user(db.users[i].clone()))
        },
        None => Err(AppError::NotFound(String::from_str("Resource not found"))),
    }
}

} // verus!
