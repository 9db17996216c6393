//! Accounts and the bodies of the requests about them.

use vstd::prelude::*;
use vstd::string::{StrSliceExecFns, StringExecFns};
use crate::error::{AppError, AppErrorView};
use crate::text::{
    ascii_lowercase, clone_opt_text, is_ascii_text, lowercase_of, str_eq, to_lowercase,
};

verus! {

/// An account.
#[derive(Debug)]
pub struct User {
    pub id: u128,
    pub username: String,
    pub email: String,
    pub password_hash: String,
    pub full_name: Option<String>,
    pub role: String,
    pub is_active: bool,
    pub created_at: i64,
    pub updated_at: i64,
}

/// The mathematical value of a [`User`].
pub struct UserView {
    pub id: u128,
    pub username: Seq<char>,
    pub email: Seq<char>,
    pub password_hash: Seq<char>,
    pub full_name: Option<Seq<char>>,
    pub role: Seq<char>,
    pub is_active: bool,
    pub created_at: i64,
    pub updated_at: i64,
}

impl View for User {
    type V = UserView;

    open spec fn view(&self) -> UserView {
        UserView {
            id: self.id,
            username: self.username.deep_view(),
            email: self.email.deep_view(),
            password_hash: self.password_hash.deep_view(),
            full_name: self.full_name.deep_view(),
            role: self.role.deep_view(),
            is_active: self.is_active,
            created_at: self.created_at,
            updated_at: self.updated_at,
        }
    }
}

impl DeepView for User {
    type V = UserView;

    open spec fn deep_view(&self) -> UserView {
        self@
    }
}

impl Clone for User {
    fn clone(&self) -> (r: Self)
        ensures
            r@ == self@,
    {
        User {
            id: self.id,
            username: self.username.clone(),
            email: self.email.clone(),
            password_hash: self.password_hash.clone(),
            full_name: clone_opt_text(&self.full_name),
            role: self.role.clone(),
            is_active: self.is_active,
            created_at: self.created_at,
            updated_at: self.updated_at,
        }
    }
}

/// An account before the store has given it an identifier and its times.
#[derive(Debug)]
pub struct NewUser {
    pub username: String,
    pub email: String,
    pub password_hash: String,
    pub full_name: Option<String>,
    pub role: String,
}

/// The mathematical value of a [`NewUser`].
pub struct NewUserView {
    pub username: Seq<char>,
    pub email: Seq<char>,
    pub password_hash: Seq<char>,
    pub full_name: Option<Seq<char>>,
    pub role: Seq<char>,
}

impl View for NewUser {
    type V = NewUserView;

    open spec fn view(&self) -> NewUserView {
        NewUserView {
            username: self.username.deep_view(),
            email: self.email.deep_view(),
            password_hash: self.password_hash.deep_view(),
            full_name: self.full_name.deep_view(),
            role: self.role.deep_view(),
        }
    }
}

impl DeepView for NewUser {
    type V = NewUserView;

    open spec fn deep_view(&self) -> NewUserView {
        self@
    }
}

impl Clone for NewUser {
    fn clone(&self) -> (r: Self)
        ensures
            r@ == self@,
    {
        NewUser {
            username: self.username.clone(),
            email: self.email.clone(),
            password_hash: self.password_hash.clone(),
            full_name: clone_opt_text(&self.full_name),
            role: self.role.clone(),
        }
    }
}

/// The body of a registration request.
#[derive(Debug)]
pub struct CreateUserRequest {
    pub username: String,
    pub email: String,
    pub password: String,
    pub full_name: Option<String>,
}

/// The mathematical value of a [`CreateUserRequest`].
pub struct CreateUserRequestView {
    pub username: Seq<char>,
    pub email: Seq<char>,
    pub password: Seq<char>,
    pub full_name: Option<Seq<char>>,
}

impl View for CreateUserRequest {
    type V = CreateUserRequestView;

    open spec fn view(&self) -> CreateUserRequestView {
        CreateUserRequestView {
            username: self.username.deep_view(),
            email: self.email.deep_view(),
            password: self.password.deep_view(),
            full_name: self.full_name.deep_view(),
        }
    }
}

impl DeepView for CreateUserRequest {
    type V = CreateUserRequestView;

    open spec fn deep_view(&self) -> CreateUserRequestView {
        self@
    }
}

impl Clone for CreateUserRequest {
    fn clone(&self) -> (r: Self)
        ensures
            r@ == self@,
    {
        CreateUserRequest {
            username: self.username.clone(),
            email: self.email.clone(),
            password: self.password.clone(),
            full_name: clone_opt_text(&self.full_name),
        }
    }
}

/// The body of a login request.
#[derive(Debug)]
pub struct LoginRequest {
    pub username: String,
    pub password: String,
}

/// The mathematical value of a [`LoginRequest`].
pub struct LoginRequestView {
    pub username: Seq<char>,
    pub password: Seq<char>,
}

impl View for LoginRequest {
    type V = LoginRequestView;

    open spec fn view(&self) -> LoginRequestView {
        LoginRequestView {
            username: self.username.deep_view(),
            password: self.password.deep_view(),
        }
    }
}

impl DeepView for LoginRequest {
    type V = LoginRequestView;

    open spec fn deep_view(&self) -> LoginRequestView {
        self@
    }
}

impl Clone for LoginRequest {
    fn clone(&self) -> (r: Self)
        ensures
            r@ == self@,
    {
        LoginRequest {
            username: self.username.clone(),
            password: self.password.clone(),
        }
    }
}

/// An account as it is shown to clients: without the password hash.
#[derive(Debug)]
pub struct UserResponse {
    pub id: u128,
    pub username: String,
    pub email: String,
    pub full_name: Option<String>,
    pub role: String,
    pub is_active: bool,
    pub created_at: i64,
}

/// The mathematical value of a [`UserResponse`].
pub struct UserResponseView {
    pub id: u128,
    pub username: Seq<char>,
    pub email: Seq<char>,
    pub full_name: Option<Seq<char>>,
    pub role: Seq<char>,
    pub is_active: bool,
    pub created_at: i64,
}

impl View for UserResponse {
    type V = UserResponseView;

    open spec fn view(&self) -> UserResponseView {
        UserResponseView {
            id: self.id,
            username: self.username.deep_view(),
            email: self.email.deep_view(),
            full_name: self.full_name.deep_view(),
            role: self.role.deep_view(),
            is_active: self.is_active,
            created_at: self.created_at,
        }
    }
}

impl DeepView for UserResponse {
    type V = UserResponseView;

    open spec fn deep_view(&self) -> UserResponseView {
        self@
    }
}

impl Clone for UserResponse {
    fn clone(&self) -> (r: Self)
        ensures
            r@ == self@,
    {
        UserResponse {
            id: self.id,
            username: self.username.clone(),
            email: self.email.clone(),
            full_name: clone_opt_text(&self.full_name),
            role: self.role.clone(),
            is_active: self.is_active,
            created_at: self.created_at,
        }
    }
}

/// The answer to a successful login.
#[derive(Debug)]
pub struct LoginResponse {
    pub token: String,
    pub user: UserResponse,
}

/// The mathematical value of a [`LoginResponse`].
pub struct LoginResponseView {
    pub token: Seq<char>,
    pub user: UserResponseView,
}

impl View for LoginResponse {
    type V = LoginResponseView;

    open spec fn view(&self) -> LoginResponseView {
        LoginResponseView {
            token: self.token.deep_view(),
            user: self.user@,
        }
    }
}

impl DeepView for LoginResponse {
    type V = LoginResponseView;

    open spec fn deep_view(&self) -> LoginResponseView {
        self@
    }
}

impl Clone for LoginResponse {
    fn clone(&self) -> (r: Self)
        ensures
            r@ == self@,
    {
        LoginResponse {
            token: self.token.clone(),
            user: self.user.clone(),
        }
    }
}

/// The coarse class of an account. It plays no part in the decisions about
/// single documents.
#[derive(Debug, Clone, Copy, PartialEq, Eq, Structural)]
pub enum UserRole {
    Admin,
    User,
    Guest,
}

impl UserRole {
    /// The text under which the role is stored.
    pub open spec fn name(self) -> Seq<char> {
        match self {
            UserRole::Admin => "admin"@,
            UserRole::User => "user"@,
            UserRole::Guest => "guest"@,
        }
    }

    /// The role that a text in lower case names, if it names one.
    pub open spec fn parse(s: Seq<char>) -> Option<UserRole> {
        if s == "admin"@ {
            Some(UserRole::Admin)
        } else if s == "user"@ {
            Some(UserRole::User)
        } else if s == "guest"@ {
            Some(UserRole::Guest)
        } else {
            None
        }
    }

    /// The text under which the role is stored.
    pub fn as_str(&self) -> (s: &'static str)
        ensures
            s@ == self.name(),
    {
        match self {
            UserRole::Admin => "admin",
            UserRole::User => "user",
            UserRole::Guest => "guest",
        }
    }

    /// The role named by a text that is already in lower case.
    pub fn from_lowercase(s: &str) -> (r: Option<UserRole>)
        ensures
            r == UserRole::parse(s@),
    {
        if str_eq(s, "admin") {
            Some(UserRole::Admin)
        } else if str_eq(s, "user") {
            Some(UserRole::User)
        } else if str_eq(s, "guest") {
            Some(UserRole::Guest)
        } else {
            None
        }
    }

    /// The role named by a text, whatever the case of its letters.
    pub fn from_str(s: &str) -> (r: Option<UserRole>)
        ensures
            r == UserRole::parse(lowercase_of(s@)),
            is_ascii_text(s@) ==> r == UserRole::parse(ascii_lowercase(s@)),
    {
        let lower = to_lowercase(s);
        UserRole::from_lowercase(lower.as_str())
    }
}

/// What `validator::validate_email` answers for a text.
pub uninterp spec fn email_is_valid(email: Seq<char>) -> bool;

/// `validator::validate_email`: whether the text is an e-mail address by
/// the rules of the HTML5 specification, with a user part of at most 64 and
/// a domain part of at most 255 characters.
#[verifier::external_body]
fn validate_email(email: &str) -> (ok: bool)
    ensures
        ok == email_is_valid(email@),
{
    validator::validate_email(email)
}

/// A user name may have 3 to 100 characters.
pub open spec fn valid_username(username: Seq<char>) -> bool {
    3 <= username.len() <= 100
}

/// A password has at least 6 characters.
pub open spec fn valid_password(password: Seq<char>) -> bool {
    password.len() >= 6
}

/// The error that answers a user name of the wrong length.
pub open spec fn invalid_username() -> AppErrorView {
    AppErrorView::ValidationError("username: length must be between 3 and 100 characters"@)
}

/// The error that answers a text that is no e-mail address.
pub open spec fn invalid_email() -> AppErrorView {
    AppErrorView::ValidationError("email: must be a valid email address"@)
}

/// The error that answers a password that is too short.
pub open spec fn invalid_password() -> AppErrorView {
    AppErrorView::ValidationError("password: length must be at least 6 characters"@)
}

/// What is wrong with a user name and a password, if anything is: the
/// user name is looked at first.
pub open spec fn credentials_fault(username: Seq<char>, password: Seq<char>) -> Option<
    AppErrorView,
> {
    if !valid_username(username) {
        Some(invalid_username())
    } else if !valid_password(password) {
        Some(invalid_password())
    } else {
        None
    }
}

/// What is wrong with a registration, if anything is, given whether its
/// e-mail address is valid: the user name is looked at first, then the
/// address, then the password.
pub open spec fn registration_fault(
    payload: CreateUserRequestView,
    email_ok: bool,
) -> Option<AppErrorView> {
    if !valid_username(payload.username) {
        Some(invalid_username())
    } else if !email_ok {
        Some(invalid_email())
    } else if !valid_password(payload.password) {
        Some(invalid_password())
    } else {
        None
    }
}

fn username_is_valid(username: &str) -> (ok: bool)
    ensures
        ok == valid_username(username@),
{
    let n = username.unicode_len();
    3 <= n && n <= 100
}

fn password_is_valid(password: &str) -> (ok: bool)
    ensures
        ok == valid_password(password@),
{
    password.unicode_len() >= 6
}

fn username_error() -> (e: AppError)
    ensures
        e@ == invalid_username(),
{
    AppError::ValidationError(
        String::from_str("username: length must be between 3 and 100 characters"),
    )
}

fn password_error() -> (e: AppError)
    ensures
        e@ == invalid_password(),
{
    AppError::ValidationError(String::from_str("password: length must be at least 6 characters"))
}

impl CreateUserRequest {
    /// Holds the body to its rules, given whether its e-mail address is
    /// valid.
    pub fn validate_with(&self, email_ok: bool) -> (r: Result<(), AppError>)
        ensures
            match registration_fault(self@, email_ok) {
                Some(e) => r is Err && r->Err_0@ == e,
                None => r is Ok,
            },
    {
        if !username_is_valid(self.username.as_str()) {
            Err(username_error())
        } else if !email_ok {
            Err(AppError::ValidationError(String::from_str("email: must be a valid email address")))
        } else if !password_is_valid(self.password.as_str()) {
            Err(password_error())
        } else {
            Ok(())
        }
    }

    /// Holds the body to its rules: a user name of 3 to 100 characters, a
    /// valid e-mail address, a password of at least 6 characters.
    pub fn validate(&self) -> (r: Result<(), AppError>)
        ensures
            match registration_fault(self@, email_is_valid(self@.email)) {
                Some(e) => r is Err && r->Err_0@ == e,
                None => r is Ok,
            },
    {
        let email_ok = validate_email(self.email.as_str());
        self.validate_with(email_ok)
    }
}

impl LoginRequest {
    /// Holds the body to its rules: a user name of 3 to 100 characters and
    /// a password of at least 6.
    pub fn validate(&self) -> (r: Result<(), AppError>)
        ensures
            match credentials_fault(self@.username, self@.password) {
                Some(e) => r is Err && r->Err_0@ == e,
                None => r is Ok,
            },
    {
        if !username_is_valid(self.username.as_str()) {
            Err(username_error())
        } else if !password_is_valid(self.password.as_str()) {
            Err(password_error())
        } else {
            Ok(())
        }
    }
}

/// An account as clients see it.
pub open spec fn shown(user: UserView) -> UserResponseView {
    UserResponseView {
        id: user.id,
        username: user.username,
        email: user.email,
        full_name: user.full_name,
        role: user.role,
        is_active: user.is_active,
        created_at: user.created_at,
    }
}

impl UserResponse {
    /// The account as clients see it: everything but the password hash and
    /// the time of the last change.
    pub fn from_user(user: User) -> (response: UserResponse)
        ensures
            response@ == shown(user@),
    {
        UserResponse {
            id: user.id,
            username: user.username,
            email: user.email,
            full_name: user.full_name,
            role: user.role,
            is_active: user.is_active,
            created_at: user.created_at,
        }
    }
}

} // verus!
