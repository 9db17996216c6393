use document_management_system::db::Database;
use document_management_system::error::AppError;
use document_management_system::handlers::permission::{
    create_share_link, delete_share_link, get_share_link, grant_permission, issue_share_link,
    list_permissions, list_share_links, redeem_share_link, revoke_permission,
};
use document_management_system::middleware::auth::AuthUser;
use document_management_system::models::document::Document;
use document_management_system::models::permission::{
    CreateShareLinkRequest, DocumentPermission, GrantPermissionRequest, PermissionType, ShareLink,
};
use document_management_system::services::permission::PermissionService;
use document_management_system::utils::jwt::Claims;
use document_management_system::utils::password::hash_password;

const OWNER: u128 = 1;
const ALICE: u128 = 2;
const BOB: u128 = 3;
const DOC: u128 = 100;
const OTHER_DOC: u128 = 101;
const NOW: i64 = 1_700_000_000_000_000;

fn principal(id: u128) -> AuthUser {
    AuthUser::new(Claims::issued_at(id, "someone".to_string(), "user".to_string(), 3600, 1_700_000_000))
}

fn broken_principal() -> AuthUser {
    AuthUser::new(Claims {
        sub: "not-an-identifier".to_string(),
        username: "someone".to_string(),
        role: "user".to_string(),
        exp: 2,
        iat: 1,
    })
}

fn document(id: u128, owner_id: u128) -> Document {
    Document {
        id,
        name: "report.docx".to_string(),
        description: None,
        file_path: "blobs/report.docx".to_string(),
        file_size: 10,
        mime_type: "application/octet-stream".to_string(),
        version: 1,
        status: "active".to_string(),
        owner_id,
        parent_folder_id: None,
        is_folder: false,
        tags: None,
        metadata: None,
        created_at: NOW,
        updated_at: NOW,
        deleted_at: None,
    }
}

fn store() -> Database {
    let mut db = Database::new();
    db.documents.push(document(DOC, OWNER));
    db.documents.push(document(OTHER_DOC, OWNER));
    db
}

fn link(id: u128, token: &str, max: Option<i32>, expires_at: Option<i64>) -> ShareLink {
    ShareLink {
        id,
        document_id: DOC,
        token: token.to_string(),
        created_by: OWNER,
        permission: "read".to_string(),
        password_hash: None,
        max_access_count: max,
        access_count: 0,
        expires_at,
        created_at: NOW,
    }
}

fn request(permission: PermissionType) -> CreateShareLinkRequest {
    CreateShareLinkRequest { permission, password: None, max_access_count: None, expires_at: None }
}

fn is_hyphenated_identifier(token: &str) -> bool {
    token.len() == 36
        && token.chars().enumerate().all(|(i, c)| {
            if i == 8 || i == 13 || i == 18 || i == 23 {
                c == '-'
            } else {
                c.is_ascii_digit() || ('a'..='f').contains(&c)
            }
        })
}

#[test]
fn created_link_carries_the_request_and_a_fresh_token() {
    let mut db = store();
    let payload = CreateShareLinkRequest {
        permission: PermissionType::Write,
        password: None,
        max_access_count: Some(3),
        expires_at: Some(NOW + 60),
    };
    let made = create_share_link(&mut db, &principal(OWNER), DOC, payload, 77, NOW).unwrap();
    assert_eq!(made.id, 77);
    assert_eq!(made.document_id, DOC);
    assert_eq!(made.created_by, OWNER);
    assert_eq!(made.permission, "write");
    assert_eq!(made.permission_type(), Some(PermissionType::Write));
    assert_eq!(made.password_hash, None);
    assert_eq!(made.max_access_count, Some(3));
    assert_eq!(made.access_count, 0);
    assert_eq!(made.expires_at, Some(NOW + 60));
    assert_eq!(made.created_at, NOW);
    assert!(is_hyphenated_identifier(&made.token));
    assert_eq!(made.token.as_bytes()[14], b'4');
    assert_eq!(db.share_links.len(), 1);
    assert_eq!(db.share_links[0].token, made.token);

    let second = create_share_link(&mut db, &principal(OWNER), DOC, request(PermissionType::Read), 78, NOW).unwrap();
    assert_ne!(second.token, made.token);
    assert_eq!(db.share_links.len(), 2);
}

#[test]
fn creating_a_link_needs_share_on_the_document() {
    let mut db = store();
    PermissionService::grant_permission(&mut db, DOC, ALICE, PermissionType::Admin, OWNER, None, 1, NOW);
    match create_share_link(&mut db, &principal(ALICE), DOC, request(PermissionType::Read), 77, NOW) {
        Err(AppError::Forbidden(m)) => assert_eq!(m, "No permission to share this document"),
        other => panic!("unexpected: {:?}", other),
    }
    assert!(db.share_links.is_empty());
    PermissionService::grant_permission(&mut db, DOC, ALICE, PermissionType::Share, OWNER, None, 2, NOW);
    assert!(create_share_link(&mut db, &principal(ALICE), DOC, request(PermissionType::Read), 77, NOW).is_ok());
    assert_eq!(db.share_links[0].created_by, ALICE);
}

#[test]
fn creating_a_link_with_an_invalid_credential_is_unauthorized() {
    let mut db = store();
    match create_share_link(&mut db, &broken_principal(), DOC, request(PermissionType::Read), 77, NOW) {
        Err(AppError::Unauthorized(m)) => assert_eq!(m, "Invalid token"),
        other => panic!("unexpected: {:?}", other),
    }
    assert!(db.share_links.is_empty());
}

#[test]
fn issued_link_is_stored_as_handed_in() {
    let mut db = store();
    let made = issue_share_link(
        &mut db,
        OWNER,
        DOC,
        PermissionType::Delete,
        Some(0),
        None,
        "tok".to_string(),
        Some("hash".to_string()),
        5,
        NOW,
    )
    .unwrap();
    assert_eq!(made.token, "tok");
    assert_eq!(made.password_hash.as_deref(), Some("hash"));
    assert_eq!(made.permission, "delete");
    assert_eq!(db.share_links.len(), 1);
    assert!(matches!(
        issue_share_link(&mut db, BOB, DOC, PermissionType::Read, None, None, "t2".to_string(), None, 6, NOW),
        Err(AppError::Forbidden(_))
    ));
    assert_eq!(db.share_links.len(), 1);
}

#[test]
fn link_capped_at_one_is_redeemed_exactly_once() {
    let mut db = store();
    let payload = CreateShareLinkRequest {
        permission: PermissionType::Read,
        password: None,
        max_access_count: Some(1),
        expires_at: None,
    };
    let made = create_share_link(&mut db, &principal(OWNER), DOC, payload, 77, NOW).unwrap();

    let first = get_share_link(&mut db, &made.token, None, NOW + 1).unwrap();
    assert_eq!(first.permission_type(), Some(PermissionType::Read));
    assert_eq!(first.document_id, DOC);
    assert_eq!(first.access_count, 0);
    assert_eq!(db.share_links[0].access_count, 1);

    match get_share_link(&mut db, &made.token, None, NOW + 2) {
        Err(AppError::BadRequest(m)) => assert_eq!(m, "Share link access limit reached"),
        other => panic!("unexpected: {:?}", other),
    }
    assert_eq!(db.share_links[0].access_count, 1);
}

#[test]
fn many_attempts_on_a_cap_of_one_give_one_success() {
    let mut db = store();
    db.share_links.push(link(1, "once", Some(1), None));
    let mut granted = 0;
    let mut refused = 0;
    for k in 0..25 {
        match get_share_link(&mut db, "once", None, NOW + k) {
            Ok(_) => granted += 1,
            Err(AppError::BadRequest(m)) => {
                assert_eq!(m, "Share link access limit reached");
                refused += 1;
            }
            other => panic!("unexpected: {:?}", other),
        }
    }
    assert_eq!(granted, 1);
    assert_eq!(refused, 24);
    assert_eq!(db.share_links[0].access_count, 1);
}

#[test]
fn cap_of_three_leaves_room_for_three() {
    let mut db = store();
    db.share_links.push(link(1, "thrice", Some(3), None));
    let outcomes: Vec<bool> = (0..5).map(|_| get_share_link(&mut db, "thrice", None, NOW).is_ok()).collect();
    assert_eq!(outcomes, vec![true, true, true, false, false]);
    assert_eq!(db.share_links[0].access_count, 3);
}

#[test]
fn link_without_cap_counts_every_redemption() {
    let mut db = store();
    db.share_links.push(link(1, "open", None, None));
    for k in 0..4 {
        let got = get_share_link(&mut db, "open", None, NOW).unwrap();
        assert_eq!(got.access_count, k);
    }
    assert_eq!(db.share_links[0].access_count, 4);
}

#[test]
fn link_with_a_cap_of_zero_is_never_redeemed() {
    let mut db = store();
    db.share_links.push(link(1, "never", Some(0), None));
    assert!(matches!(get_share_link(&mut db, "never", None, NOW), Err(AppError::BadRequest(_))));
    assert_eq!(db.share_links[0].access_count, 0);
}

#[test]
fn expired_link_is_never_redeemed() {
    let mut db = store();
    db.share_links.push(link(1, "old", None, Some(NOW - 1)));
    for _ in 0..3 {
        match get_share_link(&mut db, "old", None, NOW) {
            Err(AppError::BadRequest(m)) => assert_eq!(m, "Share link has expired"),
            other => panic!("unexpected: {:?}", other),
        }
    }
    assert_eq!(db.share_links[0].access_count, 0);
}

#[test]
fn link_can_be_redeemed_up_to_its_expiry() {
    let mut db = store();
    db.share_links.push(link(1, "edge", None, Some(NOW)));
    assert!(get_share_link(&mut db, "edge", None, NOW - 1).is_ok());
    assert!(get_share_link(&mut db, "edge", None, NOW).is_ok());
    assert!(get_share_link(&mut db, "edge", None, NOW + 1).is_err());
    assert_eq!(db.share_links[0].access_count, 2);
}

#[test]
fn expiry_is_reported_before_the_limit() {
    let mut db = store();
    db.share_links.push(link(1, "both", Some(0), Some(NOW - 1)));
    match get_share_link(&mut db, "both", None, NOW) {
        Err(AppError::BadRequest(m)) => assert_eq!(m, "Share link has expired"),
        other => panic!("unexpected: {:?}", other),
    }
}

#[test]
fn unknown_token_is_not_found() {
    let mut db = store();
    db.share_links.push(link(1, "known", None, None));
    match get_share_link(&mut db, "unknown", None, NOW) {
        Err(AppError::NotFound(m)) => assert_eq!(m, "Resource not found"),
        other => panic!("unexpected: {:?}", other),
    }
    assert_eq!(db.share_links[0].access_count, 0);
}

#[test]
fn redemption_touches_only_the_redeemed_link() {
    let mut db = store();
    db.share_links.push(link(1, "a", None, None));
    db.share_links.push(link(2, "b", None, None));
    db.share_links.push(link(3, "a", None, None));
    let got = get_share_link(&mut db, "a", None, NOW).unwrap();
    assert_eq!(got.id, 1);
    let counts: Vec<i32> = db.share_links.iter().map(|l| l.access_count).collect();
    assert_eq!(counts, vec![1, 0, 0]);
    assert_eq!(db.documents.len(), 2);
}

#[test]
fn wrong_password_is_refused_and_not_counted() {
    let mut db = store();
    let payload = CreateShareLinkRequest {
        permission: PermissionType::Read,
        password: Some("open sesame".to_string()),
        max_access_count: Some(1),
        expires_at: None,
    };
    let made = create_share_link(&mut db, &principal(OWNER), DOC, payload, 77, NOW).unwrap();
    let stored = made.password_hash.clone().unwrap();
    assert_ne!(stored, "open sesame");
    assert!(stored.starts_with("$2"));

    match get_share_link(&mut db, &made.token, Some("open barley"), NOW) {
        Err(AppError::Forbidden(m)) => assert_eq!(m, "Invalid share link password"),
        other => panic!("unexpected: {:?}", other),
    }
    assert_eq!(db.share_links[0].access_count, 0);
    match get_share_link(&mut db, &made.token, None, NOW) {
        Err(AppError::Forbidden(m)) => assert_eq!(m, "Invalid share link password"),
        other => panic!("unexpected: {:?}", other),
    }
    assert_eq!(db.share_links[0].access_count, 0);

    let got = get_share_link(&mut db, &made.token, Some("open sesame"), NOW).unwrap();
    assert_eq!(got.document_id, DOC);
    assert_eq!(db.share_links[0].access_count, 1);

    assert!(matches!(
        get_share_link(&mut db, &made.token, Some("open sesame"), NOW),
        Err(AppError::BadRequest(_))
    ));
}

#[test]
fn password_of_a_link_without_one_is_not_looked_at() {
    let mut db = store();
    db.share_links.push(link(1, "free", None, None));
    assert!(get_share_link(&mut db, "free", Some("anything"), NOW).is_ok());
    assert!(redeem_share_link(&mut db, "free", Some(false), NOW).is_ok());
    assert!(redeem_share_link(&mut db, "free", None, NOW).is_ok());
    assert_eq!(db.share_links[0].access_count, 3);
}

#[test]
fn stored_hash_that_is_no_hash_cannot_be_checked() {
    let mut db = store();
    let mut l = link(1, "bad", None, None);
    l.password_hash = Some("plain".to_string());
    db.share_links.push(l);
    match get_share_link(&mut db, "bad", Some("plain"), NOW) {
        Err(AppError::InternalServerError(m)) => assert_eq!(m, "Failed to verify password"),
        other => panic!("unexpected: {:?}", other),
    }
    assert_eq!(db.share_links[0].access_count, 0);
}

#[test]
fn verdict_decides_the_redemption_of_a_protected_link() {
    let mut db = store();
    let mut l = link(1, "locked", Some(5), None);
    l.password_hash = Some(hash_password("pw").unwrap());
    db.share_links.push(l);
    assert!(matches!(redeem_share_link(&mut db, "locked", Some(false), NOW), Err(AppError::Forbidden(_))));
    assert!(matches!(redeem_share_link(&mut db, "locked", None, NOW), Err(AppError::InternalServerError(_))));
    assert_eq!(db.share_links[0].access_count, 0);
    assert!(redeem_share_link(&mut db, "locked", Some(true), NOW).is_ok());
    assert_eq!(db.share_links[0].access_count, 1);
}

#[test]
fn limit_is_reported_before_the_password() {
    let mut db = store();
    let mut l = link(1, "spent", Some(1), None);
    l.access_count = 1;
    l.password_hash = Some("plain".to_string());
    db.share_links.push(l);
    match redeem_share_link(&mut db, "spent", Some(false), NOW) {
        Err(AppError::BadRequest(m)) => assert_eq!(m, "Share link access limit reached"),
        other => panic!("unexpected: {:?}", other),
    }
}

#[test]
fn counter_at_its_maximum_cannot_count_further() {
    let mut db = store();
    let mut l = link(1, "full", None, None);
    l.access_count = i32::MAX;
    db.share_links.push(l);
    match get_share_link(&mut db, "full", None, NOW) {
        Err(AppError::DatabaseError(m)) => assert_eq!(m, "integer out of range"),
        other => panic!("unexpected: {:?}", other),
    }
    assert_eq!(db.share_links[0].access_count, i32::MAX);
    db.share_links[0].access_count = i32::MAX - 1;
    assert!(get_share_link(&mut db, "full", None, NOW).is_ok());
    assert_eq!(db.share_links[0].access_count, i32::MAX);
}

#[test]
fn link_is_deleted_by_its_creator_or_an_admin_only() {
    let mut db = store();
    PermissionService::grant_permission(&mut db, DOC, ALICE, PermissionType::Share, OWNER, None, 1, NOW);
    let made = create_share_link(&mut db, &principal(ALICE), DOC, request(PermissionType::Read), 77, NOW).unwrap();
    db.share_links.push(link(78, "other", None, None));

    match delete_share_link(&mut db, &principal(BOB), DOC, made.id, NOW) {
        Err(AppError::Forbidden(m)) => assert_eq!(m, "No permission to delete this share link"),
        other => panic!("unexpected: {:?}", other),
    }
    assert_eq!(db.share_links.len(), 2);

    PermissionService::grant_permission(&mut db, DOC, BOB, PermissionType::Share, OWNER, None, 2, NOW);
    assert!(matches!(delete_share_link(&mut db, &principal(BOB), DOC, made.id, NOW), Err(AppError::Forbidden(_))));

    assert!(delete_share_link(&mut db, &principal(ALICE), DOC, made.id, NOW).is_ok());
    assert_eq!(db.share_links.len(), 1);
    assert_eq!(db.share_links[0].id, 78);

    PermissionService::grant_permission(&mut db, DOC, BOB, PermissionType::Admin, OWNER, None, 3, NOW);
    assert!(delete_share_link(&mut db, &principal(BOB), DOC, 78, NOW).is_ok());
    assert!(db.share_links.is_empty());
}

#[test]
fn deleting_a_link_under_another_document_is_not_found() {
    let mut db = store();
    db.share_links.push(link(78, "tok", None, None));
    match delete_share_link(&mut db, &principal(OWNER), OTHER_DOC, 78, NOW) {
        Err(AppError::NotFound(m)) => assert_eq!(m, "Share link not found for this document"),
        other => panic!("unexpected: {:?}", other),
    }
    match delete_share_link(&mut db, &principal(OWNER), DOC, 79, NOW) {
        Err(AppError::NotFound(m)) => assert_eq!(m, "Resource not found"),
        other => panic!("unexpected: {:?}", other),
    }
    assert_eq!(db.share_links.len(), 1);
}

#[test]
fn expired_and_spent_links_are_deleted_like_any_other() {
    let mut db = store();
    let mut l = link(78, "tok", Some(1), Some(NOW - 100));
    l.access_count = 1;
    db.share_links.push(l);
    assert!(delete_share_link(&mut db, &principal(OWNER), DOC, 78, NOW).is_ok());
    assert!(db.share_links.is_empty());
}

#[test]
fn links_are_listed_for_holders_of_share() {
    let mut db = store();
    db.share_links.push(link(1, "a", None, None));
    let mut elsewhere = link(2, "b", None, None);
    elsewhere.document_id = OTHER_DOC;
    db.share_links.push(elsewhere);
    db.share_links.push(link(3, "c", None, Some(NOW - 5)));
    let listed = list_share_links(&db, &principal(OWNER), DOC, NOW).unwrap();
    let ids: Vec<u128> = listed.iter().map(|l| l.id).collect();
    assert_eq!(ids, vec![1, 3]);
    match list_share_links(&db, &principal(ALICE), DOC, NOW) {
        Err(AppError::Forbidden(m)) => assert_eq!(m, "No permission to view share links"),
        other => panic!("unexpected: {:?}", other),
    }
}

#[test]
fn granting_needs_admin_on_the_document() {
    let mut db = store();
    let payload = GrantPermissionRequest { user_id: BOB, permission: PermissionType::Read, expires_at: None };
    match grant_permission(&mut db, &principal(ALICE), DOC, payload, 1, NOW) {
        Err(AppError::Forbidden(m)) => assert_eq!(m, "No permission to grant permissions"),
        other => panic!("unexpected: {:?}", other),
    }
    assert!(db.document_permissions.is_empty());

    let row = grant_permission(&mut db, &principal(OWNER), DOC, payload, 1, NOW).unwrap();
    assert_eq!(row.user_id, BOB);
    assert_eq!(row.granted_by, OWNER);
    assert_eq!(row.permission, "read");
    assert!(PermissionService::check_permission(&db, BOB, DOC, PermissionType::Read, NOW));
    assert!(!PermissionService::check_permission(&db, BOB, DOC, PermissionType::Write, NOW));

    assert!(matches!(
        grant_permission(&mut db, &broken_principal(), DOC, payload, 2, NOW),
        Err(AppError::Unauthorized(_))
    ));
}

#[test]
fn revoking_needs_admin_and_a_level_that_exists() {
    let mut db = store();
    PermissionService::grant_permission(&mut db, DOC, BOB, PermissionType::Read, OWNER, None, 1, NOW);
    PermissionService::grant_permission(&mut db, DOC, BOB, PermissionType::Write, OWNER, None, 2, NOW);
    match revoke_permission(&mut db, &principal(ALICE), DOC, BOB, "read", NOW) {
        Err(AppError::Forbidden(m)) => assert_eq!(m, "No permission to revoke permissions"),
        other => panic!("unexpected: {:?}", other),
    }
    match revoke_permission(&mut db, &principal(OWNER), DOC, BOB, "reed", NOW) {
        Err(AppError::BadRequest(m)) => assert_eq!(m, "Invalid permission type"),
        other => panic!("unexpected: {:?}", other),
    }
    match revoke_permission(&mut db, &principal(ALICE), DOC, BOB, "reed", NOW) {
        Err(AppError::Forbidden(_)) => {}
        other => panic!("unexpected: {:?}", other),
    }
    assert_eq!(db.document_permissions.len(), 2);
    assert_eq!(
        revoke_permission(&mut db, &principal(OWNER), DOC, BOB, "READ", NOW).unwrap(),
        PermissionType::Read
    );
    assert_eq!(db.document_permissions.len(), 1);
    assert!(!PermissionService::check_permission(&db, BOB, DOC, PermissionType::Read, NOW));
    assert!(PermissionService::check_permission(&db, BOB, DOC, PermissionType::Write, NOW));
}

#[test]
fn grants_of_a_document_are_listed_for_admins_expired_ones_too() {
    let mut db = store();
    PermissionService::grant_permission(&mut db, DOC, BOB, PermissionType::Read, OWNER, Some(NOW - 1), 1, NOW);
    PermissionService::grant_permission(&mut db, OTHER_DOC, BOB, PermissionType::Read, OWNER, None, 2, NOW);
    PermissionService::grant_permission(&mut db, DOC, ALICE, PermissionType::Admin, OWNER, None, 3, NOW);
    let listed: Vec<DocumentPermission> = list_permissions(&db, &principal(ALICE), DOC, NOW).unwrap();
    let ids: Vec<u128> = listed.iter().map(|g| g.id).collect();
    assert_eq!(ids, vec![1, 3]);
    match list_permissions(&db, &principal(BOB), DOC, NOW) {
        Err(AppError::Forbidden(m)) => assert_eq!(m, "No permission to list permissions"),
        other => panic!("unexpected: {:?}", other),
    }
}
