use document_management_system::db::Database;
use document_management_system::error::AppError;
use document_management_system::handlers::auth::{
    get_current_user, is_taken, login, login_with, register, register_with,
};
use document_management_system::middleware::auth::{bearer_token, AuthUser};
use document_management_system::models::user::{
    CreateUserRequest, LoginRequest, User, UserResponse, UserRole,
};
use document_management_system::utils::jwt::Claims;
use document_management_system::utils::password::{hash_password, verify_password};

const NOW: i64 = 1_700_000_000_000_000;
const ALICE: u128 = 0xa1a2a3a4_b1b2_c1c2_d1d2_d3d4d5d6d7d8;

fn registration(username: &str, email: &str, password: &str) -> CreateUserRequest {
    CreateUserRequest {
        username: username.to_string(),
        email: email.to_string(),
        password: password.to_string(),
        full_name: Some("Full Name".to_string()),
    }
}

fn credentials(username: &str, password: &str) -> LoginRequest {
    LoginRequest { username: username.to_string(), password: password.to_string() }
}

fn account(id: u128, username: &str, email: &str, password_hash: &str) -> User {
    User {
        id,
        username: username.to_string(),
        email: email.to_string(),
        password_hash: password_hash.to_string(),
        full_name: None,
        role: "user".to_string(),
        is_active: true,
        created_at: NOW,
        updated_at: NOW,
    }
}

#[test]
fn password_hash_accepts_its_password_and_no_other() {
    let h = hash_password("correct horse").unwrap();
    assert_ne!(h, "correct horse");
    assert!(h.starts_with("$2b$12$"));
    assert_eq!(h.len(), 60);
    assert_eq!(verify_password("correct horse", &h).unwrap(), true);
    assert_eq!(verify_password("correct horsf", &h).unwrap(), false);
    assert_eq!(verify_password("", &h).unwrap(), false);
    let again = hash_password("correct horse").unwrap();
    assert_ne!(again, h);
    assert_eq!(verify_password("correct horse", &again).unwrap(), true);
}

#[test]
fn known_hash_is_verified() {
    let h = "$2b$04$EGdrhbKUv8Oc9vGiXX0HQOxSg445d458Muh7DAHskb6QbtCvdxcie";
    assert_eq!(verify_password("correctbatteryhorsestapler", h).unwrap(), true);
    assert_eq!(verify_password("wrong", h).unwrap(), false);
}

#[test]
fn text_that_is_no_hash_cannot_be_verified() {
    for stored in ["", "plain", "$2b$12$short", "$9z$04$EGdrhbKUv8Oc9vGiXX0HQOxSg445d458Muh7DAHskb6QbtCvdxcie"] {
        match verify_password("pw", stored) {
            Err(e @ AppError::InternalServerError(_)) => {
                assert!(e.message().starts_with("Failed to verify password: "));
                assert!(e.message().len() > "Failed to verify password: ".len());
                assert_eq!(e.status_code(), 500);
            }
            other => panic!("unexpected: {:?}", other),
        }
    }
}

#[test]
fn registration_is_held_to_its_rules_in_order() {
    let mut db = Database::new();
    let cases = [
        (registration("ab", "nobody", "short"), "username: length must be between 3 and 100 characters"),
        (registration(&"a".repeat(101), "a@b.co", "longenough"), "username: length must be between 3 and 100 characters"),
        (registration("abc", "nobody", "short"), "email: must be a valid email address"),
        (registration("abc", "a@b@", "longenough"), "email: must be a valid email address"),
        (registration("abc", "", "longenough"), "email: must be a valid email address"),
        (registration("abc", "a@b.co", "short"), "password: length must be at least 6 characters"),
    ];
    for (payload, message) in cases {
        match register(&mut db, payload, 1, NOW) {
            Err(e @ AppError::ValidationError(_)) => {
                assert_eq!(e.message(), message);
                assert_eq!(e.status_code(), 400);
            }
            other => panic!("unexpected: {:?}", other),
        }
    }
    assert!(db.users.is_empty());
    assert!(registration("abc", "email@here.com", "sixsix").validate().is_ok());
    assert!(registration(&"a".repeat(100), "weirder-email@here.and.there.com", "sixsix").validate().is_ok());
    assert!(registration("abc", "x", "sixsix").validate_with(true).is_ok());
    assert!(registration("abc", "email@here.com", "sixsix").validate_with(false).is_err());
}

#[test]
fn registration_stores_an_active_user_with_a_hash() {
    let mut db = Database::new();
    let shown = register(&mut db, registration("alice", "alice@example.com", "wonderland"), ALICE, NOW).unwrap();
    assert_eq!(shown.id, ALICE);
    assert_eq!(shown.username, "alice");
    assert_eq!(shown.email, "alice@example.com");
    assert_eq!(shown.full_name.as_deref(), Some("Full Name"));
    assert_eq!(shown.role, "user");
    assert!(shown.is_active);
    assert_eq!(shown.created_at, NOW);
    assert_eq!(db.users.len(), 1);
    let stored = &db.users[0];
    assert_eq!(stored.id, ALICE);
    assert_eq!(stored.role, UserRole::User.as_str());
    assert_eq!(stored.updated_at, NOW);
    assert_ne!(stored.password_hash, "wonderland");
    assert_eq!(verify_password("wonderland", &stored.password_hash).unwrap(), true);
}

#[test]
fn taken_name_or_address_is_refused() {
    let mut db = Database::new();
    db.users.push(account(1, "alice", "alice@example.com", "h"));
    assert!(is_taken(&db, "alice", "new@example.com"));
    assert!(is_taken(&db, "bob", "alice@example.com"));
    assert!(!is_taken(&db, "bob", "bob@example.com"));
    assert!(!is_taken(&db, "Alice", "Alice@example.com"));
    for payload in [
        registration("alice", "new@example.com", "longenough"),
        registration("bobby", "alice@example.com", "longenough"),
    ] {
        match register_with(&mut db, payload, true, "hash".to_string(), 2, NOW) {
            Err(AppError::BadRequest(m)) => assert_eq!(m, "Username or email already exists"),
            other => panic!("unexpected: {:?}", other),
        }
    }
    assert_eq!(db.users.len(), 1);
    let shown = register_with(&mut db, registration("bobby", "bob@example.com", "longenough"), true, "hash".to_string(), 2, NOW).unwrap();
    assert_eq!(shown.username, "bobby");
    assert_eq!(db.users[1].password_hash, "hash");
}

#[test]
fn login_hands_out_claims_for_the_account() {
    let mut db = Database::new();
    register(&mut db, registration("alice", "alice@example.com", "wonderland"), ALICE, NOW).unwrap();
    let grant = login(&db, &credentials("alice", "wonderland"), 86400).unwrap();
    assert_eq!(grant.claims.sub, "a1a2a3a4-b1b2-c1c2-d1d2-d3d4d5d6d7d8");
    assert_eq!(grant.claims.username, "alice");
    assert_eq!(grant.claims.role, "user");
    assert_eq!(grant.claims.exp - grant.claims.iat, 86400);
    assert!(grant.claims.iat > 1_600_000_000);
    assert_eq!(grant.claims.user_id().unwrap(), ALICE);
    assert_eq!(grant.user.id, ALICE);
    assert_eq!(grant.user.email, "alice@example.com");
}

#[test]
fn login_with_a_wrong_password_or_an_unknown_name_is_unauthorized() {
    let mut db = Database::new();
    register(&mut db, registration("alice", "alice@example.com", "wonderland"), ALICE, NOW).unwrap();
    for payload in [credentials("alice", "wonderlamp"), credentials("nobody", "wonderland")] {
        match login(&db, &payload, 86400) {
            Err(e @ AppError::Unauthorized(_)) => {
                assert_eq!(e.message(), "Invalid credentials");
                assert_eq!(e.status_code(), 401);
            }
            other => panic!("unexpected: {:?}", other),
        }
    }
}

#[test]
fn login_is_decided_in_the_order_of_its_checks() {
    let mut db = Database::new();
    let mut idle = account(7, "sleepy", "s@example.com", "h");
    idle.is_active = false;
    db.users.push(idle);
    db.users.push(account(8, "awake", "a@example.com", "h"));

    assert!(matches!(login_with(&db, &credentials("sl", "longenough"), Ok(true), 10, 100), Err(AppError::ValidationError(_))));
    match login_with(&db, &credentials("sleepy", "short"), Ok(true), 10, 100) {
        Err(AppError::ValidationError(m)) => assert_eq!(m, "password: length must be at least 6 characters"),
        other => panic!("unexpected: {:?}", other),
    }
    match login_with(&db, &credentials("sleepy", "longenough"), Ok(true), 10, 100) {
        Err(AppError::Unauthorized(m)) => assert_eq!(m, "Account is not active"),
        other => panic!("unexpected: {:?}", other),
    }
    match login_with(&db, &credentials("nobody", "longenough"), Ok(true), 10, 100) {
        Err(AppError::Unauthorized(m)) => assert_eq!(m, "Invalid credentials"),
        other => panic!("unexpected: {:?}", other),
    }
    match login_with(&db, &credentials("awake", "longenough"), Ok(false), 10, 100) {
        Err(AppError::Unauthorized(m)) => assert_eq!(m, "Invalid credentials"),
        other => panic!("unexpected: {:?}", other),
    }
    match login_with(&db, &credentials("awake", "longenough"), Err(AppError::InternalServerError("broken".to_string())), 10, 100) {
        Err(AppError::InternalServerError(m)) => assert_eq!(m, "broken"),
        other => panic!("unexpected: {:?}", other),
    }
    let grant = login_with(&db, &credentials("awake", "longenough"), Ok(true), 10, 100).unwrap();
    assert_eq!(grant.claims.iat, 100);
    assert_eq!(grant.claims.exp, 110);
    assert_eq!(grant.claims.sub, "00000000-0000-0000-0000-000000000008");
    assert_eq!(grant.user.username, "awake");
}

#[test]
fn login_with_an_expiry_beyond_64_bits_fails() {
    let mut db = Database::new();
    db.users.push(account(8, "awake", "a@example.com", "h"));
    for (expiration, now) in [(i64::MAX, 1), (1, i64::MAX), (i64::MIN, -1), (-1, i64::MIN)] {
        match login_with(&db, &credentials("awake", "longenough"), Ok(true), expiration, now) {
            Err(AppError::InternalServerError(m)) => assert_eq!(m, "Token expiry out of range"),
            other => panic!("unexpected: {:?}", other),
        }
    }
    let grant = login_with(&db, &credentials("awake", "longenough"), Ok(true), i64::MAX, 0).unwrap();
    assert_eq!(grant.claims.exp, i64::MAX);
    let grant = login_with(&db, &credentials("awake", "longenough"), Ok(true), i64::MIN, 0).unwrap();
    assert_eq!(grant.claims.exp, i64::MIN);
}

#[test]
fn login_against_a_stored_text_that_is_no_hash_fails() {
    let mut db = Database::new();
    db.users.push(account(8, "awake", "a@example.com", "plain"));
    match login(&db, &credentials("awake", "longenough"), 10) {
        Err(e @ AppError::InternalServerError(_)) => {
            assert!(e.message().starts_with("Failed to verify password: "))
        }
        other => panic!("unexpected: {:?}", other),
    }
}

#[test]
fn current_user_is_the_account_of_the_claims() {
    let mut db = Database::new();
    db.users.push(account(ALICE, "alice", "alice@example.com", "h"));
    let user = AuthUser::new(Claims::issued_at(ALICE, "alice".to_string(), "user".to_string(), 10, 100));
    let shown = get_current_user(&db, &user).unwrap();
    assert_eq!(shown.id, ALICE);
    assert_eq!(shown.username, "alice");
    let stranger = AuthUser::new(Claims::issued_at(5, "x".to_string(), "user".to_string(), 10, 100));
    match get_current_user(&db, &stranger) {
        Err(AppError::NotFound(m)) => assert_eq!(m, "Resource not found"),
        other => panic!("unexpected: {:?}", other),
    }
}

#[test]
fn claims_are_issued_for_a_span() {
    let claims = Claims::issued_at(ALICE, "alice".to_string(), "admin".to_string(), 3600, 1_700_000_000);
    assert_eq!(claims.sub, "a1a2a3a4-b1b2-c1c2-d1d2-d3d4d5d6d7d8");
    assert_eq!(claims.username, "alice");
    assert_eq!(claims.role, "admin");
    assert_eq!(claims.iat, 1_700_000_000);
    assert_eq!(claims.exp, 1_700_003_600);
    let past = Claims::issued_at(0, String::new(), String::new(), -50, 20);
    assert_eq!(past.exp, -30);
    assert_eq!(past.sub, "00000000-0000-0000-0000-000000000000");
    let top = Claims::issued_at(u128::MAX, String::new(), String::new(), 0, 0);
    assert_eq!(top.sub, "ffffffff-ffff-ffff-ffff-ffffffffffff");
    assert_eq!(top.user_id().unwrap(), u128::MAX);
}

#[test]
fn claims_issued_now_use_the_clock() {
    let claims = Claims::new(ALICE, "alice".to_string(), "user".to_string(), 60).unwrap();
    assert!(claims.iat > 1_600_000_000);
    assert_eq!(claims.exp, claims.iat + 60);
    assert_eq!(claims.user_id().unwrap(), ALICE);
    assert!(Claims::new(ALICE, "alice".to_string(), "user".to_string(), i64::MAX).is_none());
    let old = Claims::new(ALICE, "alice".to_string(), "user".to_string(), -60).unwrap();
    assert_eq!(old.exp, old.iat - 60);
}

#[test]
fn subject_of_the_claims_must_be_an_identifier() {
    let with_subject = |sub: &str| Claims {
        sub: sub.to_string(),
        username: String::new(),
        role: String::new(),
        exp: 0,
        iat: 0,
    };
    assert_eq!(with_subject("936da01f-9abd-4d9d-80c7-02af85c822a8").user_id().unwrap(), 0x936da01f9abd4d9d80c702af85c822a8);
    assert_eq!(with_subject("936DA01F9ABD4D9D80C702AF85C822A8").user_id().unwrap(), 0x936da01f9abd4d9d80c702af85c822a8);
    assert_eq!(with_subject("{936da01f-9abd-4d9d-80c7-02af85c822a8}").user_id().unwrap(), 0x936da01f9abd4d9d80c702af85c822a8);
    assert_eq!(
        with_subject("urn:uuid:936da01f-9abd-4d9d-80c7-02af85c822a8").user_id().unwrap(),
        0x936da01f9abd4d9d80c702af85c822a8
    );
    for sub in ["", "alice", "936da01f-9abd-4d9d-80c7-02af85c822a", "936da01f-9abd-4d9d-80c7-02af85c822ag"] {
        match with_subject(sub).user_id() {
            Err(e @ AppError::Unauthorized(_)) => {
                assert_eq!(e.message(), "Invalid token");
                assert_eq!(e.status_code(), 401);
            }
            other => panic!("unexpected: {:?}", other),
        }
    }
}

#[test]
fn bearer_token_follows_the_scheme() {
    assert_eq!(bearer_token(Some("Bearer abc.def.ghi")).unwrap(), "abc.def.ghi");
    assert_eq!(bearer_token(Some("Bearer ")).unwrap(), "");
    assert_eq!(bearer_token(Some("Bearer  two")).unwrap(), " two");
    match bearer_token(None) {
        Err(AppError::Unauthorized(m)) => assert_eq!(m, "Missing authorization header"),
        other => panic!("unexpected: {:?}", other),
    }
    for header in ["", "Bearer", "bearer abc", "Basic abc", " Bearer abc", "Token abc"] {
        match bearer_token(Some(header)) {
            Err(AppError::Unauthorized(m)) => assert_eq!(m, "Invalid authorization header format"),
            other => panic!("unexpected: {:?}", other),
        }
    }
}

#[test]
fn roles_have_names() {
    assert_eq!(UserRole::Admin.as_str(), "admin");
    assert_eq!(UserRole::User.as_str(), "user");
    assert_eq!(UserRole::Guest.as_str(), "guest");
    assert_eq!(UserRole::from_str("admin"), Some(UserRole::Admin));
    assert_eq!(UserRole::from_str("USER"), Some(UserRole::User));
    assert_eq!(UserRole::from_str("Guest"), Some(UserRole::Guest));
    assert_eq!(UserRole::from_str("root"), None);
    assert_eq!(UserRole::from_lowercase("USER"), None);
    assert_eq!(UserRole::from_lowercase("guest"), Some(UserRole::Guest));
}

#[test]
fn shown_account_hides_the_hash() {
    let mut user = account(9, "carol", "carol@example.com", "secret-hash");
    user.full_name = Some("Carol".to_string());
    user.updated_at = NOW + 5;
    let shown = UserResponse::from_user(user);
    assert_eq!(shown.id, 9);
    assert_eq!(shown.username, "carol");
    assert_eq!(shown.email, "carol@example.com");
    assert_eq!(shown.full_name.as_deref(), Some("Carol"));
    assert_eq!(shown.role, "user");
    assert!(shown.is_active);
    assert_eq!(shown.created_at, NOW);
    assert!(!format!("{:?}", shown).contains("secret-hash"));
}
