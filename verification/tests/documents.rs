use document_management_system::db::Database;
use document_management_system::error::AppError;
use document_management_system::handlers::document::{
    check_upload, create_folder, default_limit, delete_document, download_document, get_document,
    list_documents, move_document, parse_parent_folder, parse_tags, update_document,
    upload_document, ListDocumentsParams, UploadForm,
};
use document_management_system::middleware::auth::AuthUser;
use document_management_system::models::document::{
    name_is_valid, CreateDocumentRequest, CreateFolderRequest, Document, MoveDocumentRequest,
    UpdateDocumentRequest,
};
use document_management_system::models::permission::PermissionType;
use document_management_system::services::permission::PermissionService;
use document_management_system::utils::jwt::Claims;

const OWNER: u128 = 1;
const ALICE: u128 = 2;
const DOC: u128 = 100;
const FOLDER: u128 = 200;
const OTHER_FOLDER: u128 = 201;
const NOW: i64 = 1_700_000_000_000_000;

fn principal(id: u128) -> AuthUser {
    AuthUser::new(Claims::issued_at(id, "someone".to_string(), "user".to_string(), 3600, 1_700_000_000))
}

fn broken_principal() -> AuthUser {
    AuthUser::new(Claims {
        sub: "nobody".to_string(),
        username: "someone".to_string(),
        role: "user".to_string(),
        exp: 2,
        iat: 1,
    })
}

fn file(id: u128, owner_id: u128, parent: Option<u128>, created_at: i64) -> Document {
    Document {
        id,
        name: "report.docx".to_string(),
        description: Some("quarterly".to_string()),
        file_path: format!("blobs/{}", id),
        file_size: 10,
        mime_type: "application/octet-stream".to_string(),
        version: 1,
        status: "active".to_string(),
        owner_id,
        parent_folder_id: parent,
        is_folder: false,
        tags: Some(vec![Some("a".to_string())]),
        metadata: None,
        created_at,
        updated_at: created_at,
        deleted_at: None,
    }
}

fn folder(id: u128, owner_id: u128) -> Document {
    let mut d = file(id, owner_id, None, NOW);
    d.name = "folder".to_string();
    d.file_path = String::new();
    d.file_size = 0;
    d.mime_type = "inode/directory".to_string();
    d.is_folder = true;
    d.tags = None;
    d
}

fn store() -> Database {
    let mut db = Database::new();
    db.documents.push(file(DOC, OWNER, None, NOW));
    db.documents.push(folder(FOLDER, OWNER));
    db.documents.push(folder(OTHER_FOLDER, ALICE));
    db
}

fn folder_request(name: &str, parent: Option<u128>) -> CreateFolderRequest {
    CreateFolderRequest { name: name.to_string(), description: None, parent_folder_id: parent }
}

fn form(parent: Option<u128>) -> UploadForm {
    UploadForm {
        file_size: Some(1234),
        file_name: Some("photo.png".to_string()),
        content_type: Some("image/png".to_string()),
        parent_folder_id: parent,
        description: Some("a photo".to_string()),
        tags: Some(vec!["x".to_string(), "y".to_string()]),
    }
}

#[test]
fn names_have_one_to_255_characters() {
    assert!(!name_is_valid(""));
    assert!(name_is_valid("a"));
    assert!(name_is_valid(&"a".repeat(255)));
    assert!(!name_is_valid(&"a".repeat(256)));
    assert!(name_is_valid(&"é".repeat(255)));
    assert!(!name_is_valid(&"é".repeat(256)));
    let body = CreateDocumentRequest { name: String::new(), description: None, parent_folder_id: None, tags: None };
    match body.validate() {
        Err(AppError::ValidationError(m)) => {
            assert_eq!(m, "name: length must be between 1 and 255 characters")
        }
        other => panic!("unexpected: {:?}", other),
    }
    assert!(folder_request("ok", None).validate().is_ok());
}

#[test]
fn folder_is_created_at_the_root_by_anyone() {
    let mut db = store();
    let made = create_folder(&mut db, &principal(ALICE), folder_request("plans", None), 300, NOW).unwrap();
    assert_eq!(made.id, 300);
    assert_eq!(made.name, "plans");
    assert_eq!(made.owner_id, ALICE);
    assert_eq!(made.parent_folder_id, None);
    assert!(made.is_folder);
    assert_eq!(made.file_path, "");
    assert_eq!(made.file_size, 0);
    assert_eq!(made.mime_type, "inode/directory");
    assert_eq!(made.version, 1);
    assert_eq!(made.status, "active");
    assert_eq!(made.tags, None);
    assert_eq!(made.metadata, None);
    assert_eq!(made.created_at, NOW);
    assert_eq!(made.updated_at, NOW);
    assert_eq!(made.deleted_at, None);
    assert_eq!(db.documents.len(), 4);
    assert_eq!(db.documents[3].id, 300);
    assert!(PermissionService::check_permission(&db, ALICE, 300, PermissionType::Admin, NOW));
}

#[test]
fn folder_in_a_folder_needs_write_on_the_parent() {
    let mut db = store();
    match create_folder(&mut db, &principal(ALICE), folder_request("plans", Some(FOLDER)), 300, NOW) {
        Err(AppError::Forbidden(m)) => assert_eq!(m, "No permission to create folder here"),
        other => panic!("unexpected: {:?}", other),
    }
    assert_eq!(db.documents.len(), 3);
    PermissionService::grant_permission(&mut db, FOLDER, ALICE, PermissionType::Write, OWNER, None, 1, NOW);
    let made = create_folder(&mut db, &principal(ALICE), folder_request("plans", Some(FOLDER)), 300, NOW).unwrap();
    assert_eq!(made.parent_folder_id, Some(FOLDER));
    assert_eq!(db.documents.len(), 4);
}

#[test]
fn folder_with_a_bad_name_is_refused_before_anything_else() {
    let mut db = store();
    match create_folder(&mut db, &broken_principal(), folder_request("", Some(FOLDER)), 300, NOW) {
        Err(AppError::ValidationError(_)) => {}
        other => panic!("unexpected: {:?}", other),
    }
    match create_folder(&mut db, &broken_principal(), folder_request("fine", None), 300, NOW) {
        Err(AppError::Unauthorized(m)) => assert_eq!(m, "Invalid token"),
        other => panic!("unexpected: {:?}", other),
    }
    assert_eq!(db.documents.len(), 3);
}

#[test]
fn upload_needs_a_file_with_a_name() {
    let db = store();
    let mut no_file = form(None);
    no_file.file_size = None;
    match check_upload(&db, &principal(ALICE), &no_file, NOW) {
        Err(AppError::BadRequest(m)) => assert_eq!(m, "No file provided"),
        other => panic!("unexpected: {:?}", other),
    }
    let mut no_name = form(None);
    no_name.file_name = None;
    match check_upload(&db, &principal(ALICE), &no_name, NOW) {
        Err(AppError::BadRequest(m)) => assert_eq!(m, "No filename provided"),
        other => panic!("unexpected: {:?}", other),
    }
    assert!(check_upload(&db, &principal(ALICE), &form(None), NOW).is_ok());
    match check_upload(&db, &principal(ALICE), &form(Some(FOLDER)), NOW) {
        Err(AppError::Forbidden(m)) => assert_eq!(m, "No permission to upload here"),
        other => panic!("unexpected: {:?}", other),
    }
    assert!(check_upload(&db, &principal(OWNER), &form(Some(FOLDER)), NOW).is_ok());
    assert!(matches!(
        check_upload(&db, &broken_principal(), &no_file, NOW),
        Err(AppError::Unauthorized(_))
    ));
}

#[test]
fn upload_records_the_file() {
    let mut db = store();
    let made = upload_document(&mut db, &principal(OWNER), form(Some(FOLDER)), "key/photo.png".to_string(), 300, NOW).unwrap();
    assert_eq!(made.id, 300);
    assert_eq!(made.name, "photo.png");
    assert_eq!(made.description.as_deref(), Some("a photo"));
    assert_eq!(made.file_path, "key/photo.png");
    assert_eq!(made.file_size, 1234);
    assert_eq!(made.mime_type, "image/png");
    assert_eq!(made.version, 1);
    assert_eq!(made.owner_id, OWNER);
    assert_eq!(made.parent_folder_id, Some(FOLDER));
    assert!(!made.is_folder);
    assert_eq!(made.tags, Some(vec![Some("x".to_string()), Some("y".to_string())]));
    assert_eq!(db.documents.len(), 4);
    assert_eq!(db.documents[3].file_path, "key/photo.png");
}

#[test]
fn upload_without_a_media_type_is_an_octet_stream() {
    let mut db = store();
    let mut f = form(None);
    f.content_type = None;
    f.tags = None;
    let made = upload_document(&mut db, &principal(ALICE), f, "k".to_string(), 300, NOW).unwrap();
    assert_eq!(made.mime_type, "application/octet-stream");
    assert_eq!(made.tags, None);
}

#[test]
fn refused_upload_leaves_the_store() {
    let mut db = store();
    assert!(matches!(
        upload_document(&mut db, &principal(ALICE), form(Some(FOLDER)), "k".to_string(), 300, NOW),
        Err(AppError::Forbidden(_))
    ));
    let mut no_file = form(None);
    no_file.file_size = None;
    assert!(matches!(
        upload_document(&mut db, &principal(OWNER), no_file, "k".to_string(), 300, NOW),
        Err(AppError::BadRequest(_))
    ));
    assert_eq!(db.documents.len(), 3);
}

#[test]
fn tags_are_read_from_a_comma_separated_field() {
    assert_eq!(parse_tags("a, b ,c"), vec!["a", "b", "c"]);
    assert_eq!(parse_tags(""), vec![""]);
    assert_eq!(parse_tags("one"), vec!["one"]);
    assert_eq!(parse_tags(" x ,, y,"), vec!["x", "", "y", ""]);
    assert_eq!(parse_tags("\tq r\n"), vec!["q r"]);
}

#[test]
fn target_folder_is_read_from_its_text() {
    assert_eq!(
        parse_parent_folder("a1a2a3a4-b1b2-c1c2-d1d2-d3d4d5d6d7d8"),
        Some(0xa1a2a3a4b1b2c1c2d1d2d3d4d5d6d7d8)
    );
    assert_eq!(parse_parent_folder("A1A2A3A4B1B2C1C2D1D2D3D4D5D6D7D8"), Some(0xa1a2a3a4b1b2c1c2d1d2d3d4d5d6d7d8));
    assert_eq!(parse_parent_folder("root"), None);
    assert_eq!(parse_parent_folder(""), None);
}

#[test]
fn reading_tells_absent_from_denied() {
    let mut db = store();
    let got = get_document(&db, &principal(OWNER), DOC, NOW).unwrap();
    assert_eq!(got.id, DOC);
    assert_eq!(got.description.as_deref(), Some("quarterly"));
    match get_document(&db, &principal(ALICE), DOC, NOW) {
        Err(e @ AppError::Forbidden(_)) => {
            assert_eq!(e.message(), "No permission to view this document");
            assert_eq!(e.status_code(), 403);
        }
        other => panic!("unexpected: {:?}", other),
    }
    match get_document(&db, &principal(ALICE), 999, NOW) {
        Err(e @ AppError::NotFound(_)) => {
            assert_eq!(e.message(), "Resource not found");
            assert_eq!(e.status_code(), 404);
        }
        other => panic!("unexpected: {:?}", other),
    }
    PermissionService::grant_permission(&mut db, DOC, ALICE, PermissionType::Write, OWNER, None, 1, NOW);
    assert!(matches!(get_document(&db, &principal(ALICE), DOC, NOW), Err(AppError::Forbidden(_))));
    PermissionService::grant_permission(&mut db, DOC, ALICE, PermissionType::Read, OWNER, None, 2, NOW);
    assert!(get_document(&db, &principal(ALICE), DOC, NOW).is_ok());
}

#[test]
fn update_changes_the_named_fields_only() {
    let mut db = store();
    let payload = UpdateDocumentRequest { name: Some("final.docx".to_string()), description: None, tags: None };
    let got = update_document(&mut db, &principal(OWNER), DOC, payload, NOW + 7).unwrap();
    assert_eq!(got.name, "final.docx");
    assert_eq!(got.description.as_deref(), Some("quarterly"));
    assert_eq!(got.tags, Some(vec![Some("a".to_string())]));
    assert_eq!(got.updated_at, NOW + 7);
    assert_eq!(got.created_at, NOW);
    assert_eq!(got.version, 1);
    assert_eq!(db.documents[0].name, "final.docx");
    assert_eq!(db.documents[1].name, "folder");

    let payload = UpdateDocumentRequest {
        name: None,
        description: Some("yearly".to_string()),
        tags: Some(vec!["b".to_string(), "c".to_string()]),
    };
    let got = update_document(&mut db, &principal(OWNER), DOC, payload, NOW + 8).unwrap();
    assert_eq!(got.name, "final.docx");
    assert_eq!(got.description.as_deref(), Some("yearly"));
    assert_eq!(got.tags, Some(vec![Some("b".to_string()), Some("c".to_string())]));
    assert_eq!(db.documents[0].updated_at, NOW + 8);
}

#[test]
fn update_is_refused_in_the_order_of_its_checks() {
    let mut db = store();
    let empty = || UpdateDocumentRequest { name: None, description: None, tags: None };
    let bad = || UpdateDocumentRequest { name: Some(String::new()), description: None, tags: None };
    let good = || UpdateDocumentRequest { name: Some("n".to_string()), description: None, tags: None };
    assert!(matches!(update_document(&mut db, &principal(ALICE), DOC, bad(), NOW), Err(AppError::ValidationError(_))));
    match update_document(&mut db, &principal(ALICE), DOC, empty(), NOW) {
        Err(AppError::Forbidden(m)) => assert_eq!(m, "No permission to update this document"),
        other => panic!("unexpected: {:?}", other),
    }
    match update_document(&mut db, &principal(OWNER), DOC, empty(), NOW) {
        Err(AppError::BadRequest(m)) => assert_eq!(m, "No fields to update"),
        other => panic!("unexpected: {:?}", other),
    }
    assert!(matches!(update_document(&mut db, &principal(OWNER), 999, good(), NOW), Err(AppError::Forbidden(_))));
    PermissionService::grant_permission(&mut db, 999, ALICE, PermissionType::Write, OWNER, None, 1, NOW);
    match update_document(&mut db, &principal(ALICE), 999, good(), NOW) {
        Err(AppError::NotFound(m)) => assert_eq!(m, "Resource not found"),
        other => panic!("unexpected: {:?}", other),
    }
    assert_eq!(db.documents[0].name, "report.docx");
    assert_eq!(db.documents[0].updated_at, NOW);
}

#[test]
fn delete_marks_the_document_and_names_the_cleanup() {
    let mut db = store();
    db.documents.push(file(400, OWNER, Some(FOLDER), NOW));
    let done = delete_document(&mut db, &principal(OWNER), DOC, NOW + 3).unwrap();
    assert_eq!(done.document_id, DOC);
    assert_eq!(done.blob.as_deref(), Some("blobs/100"));
    assert_eq!(db.documents.len(), 4);
    assert_eq!(db.documents[0].deleted_at, Some(NOW + 3));
    assert_eq!(db.find_document(DOC).unwrap().deleted_at, Some(NOW + 3));
    assert!(get_document(&db, &principal(OWNER), DOC, NOW + 4).is_ok());

    let done = delete_document(&mut db, &principal(OWNER), FOLDER, NOW + 5).unwrap();
    assert_eq!(done.document_id, FOLDER);
    assert_eq!(done.blob, None);
    assert_eq!(db.documents[1].deleted_at, Some(NOW + 5));
    assert_eq!(db.documents[3].deleted_at, None);
    assert_eq!(db.documents[3].parent_folder_id, Some(FOLDER));
}

#[test]
fn delete_needs_the_delete_level() {
    let mut db = store();
    PermissionService::grant_permission(&mut db, DOC, ALICE, PermissionType::Write, OWNER, None, 1, NOW);
    match delete_document(&mut db, &principal(ALICE), DOC, NOW) {
        Err(AppError::Forbidden(m)) => assert_eq!(m, "No permission to delete this document"),
        other => panic!("unexpected: {:?}", other),
    }
    assert_eq!(db.documents[0].deleted_at, None);
    assert!(matches!(delete_document(&mut db, &principal(ALICE), 999, NOW), Err(AppError::Forbidden(_))));
    PermissionService::grant_permission(&mut db, 999, ALICE, PermissionType::Delete, OWNER, None, 2, NOW);
    assert!(matches!(delete_document(&mut db, &principal(ALICE), 999, NOW), Err(AppError::NotFound(_))));
    PermissionService::grant_permission(&mut db, DOC, ALICE, PermissionType::Delete, OWNER, None, 3, NOW);
    assert!(delete_document(&mut db, &principal(ALICE), DOC, NOW).is_ok());
}

#[test]
fn download_hands_out_the_blob_of_a_file() {
    let db = store();
    assert_eq!(download_document(&db, &principal(OWNER), DOC, NOW).unwrap(), "blobs/100");
    match download_document(&db, &principal(OWNER), FOLDER, NOW) {
        Err(AppError::BadRequest(m)) => assert_eq!(m, "Cannot download a folder"),
        other => panic!("unexpected: {:?}", other),
    }
    match download_document(&db, &principal(ALICE), DOC, NOW) {
        Err(AppError::Forbidden(m)) => assert_eq!(m, "No permission to download this document"),
        other => panic!("unexpected: {:?}", other),
    }
    assert!(matches!(download_document(&db, &principal(ALICE), FOLDER, NOW), Err(AppError::Forbidden(_))));
    assert!(matches!(download_document(&db, &principal(OWNER), 999, NOW), Err(AppError::NotFound(_))));
}

#[test]
fn move_into_a_folder_without_write_is_denied_and_changes_nothing() {
    let mut db = store();
    let before = db.documents[0].parent_folder_id;
    let payload = MoveDocumentRequest { target_folder_id: Some(OTHER_FOLDER) };
    match move_document(&mut db, &principal(OWNER), DOC, payload, NOW) {
        Err(e @ AppError::Forbidden(_)) => {
            assert_eq!(e.message(), "No permission to move to target folder");
            assert_eq!(e.status_code(), 403);
        }
        other => panic!("unexpected: {:?}", other),
    }
    assert_eq!(db.documents[0].parent_folder_id, before);
    assert_eq!(db.find_document(DOC).unwrap().parent_folder_id, None);
    assert_eq!(db.documents[0].updated_at, NOW);
}

#[test]
fn move_needs_write_on_the_document_too() {
    let mut db = store();
    PermissionService::grant_permission(&mut db, DOC, ALICE, PermissionType::Read, OWNER, None, 1, NOW);
    let payload = MoveDocumentRequest { target_folder_id: Some(OTHER_FOLDER) };
    match move_document(&mut db, &principal(ALICE), DOC, payload, NOW) {
        Err(AppError::Forbidden(m)) => assert_eq!(m, "No permission to move this document"),
        other => panic!("unexpected: {:?}", other),
    }
    assert_eq!(db.documents[0].parent_folder_id, None);
    PermissionService::grant_permission(&mut db, DOC, ALICE, PermissionType::Write, OWNER, None, 2, NOW);
    let moved = move_document(&mut db, &principal(ALICE), DOC, payload, NOW).unwrap();
    assert_eq!(moved.parent_folder_id, Some(OTHER_FOLDER));
    assert_eq!(db.documents[0].parent_folder_id, Some(OTHER_FOLDER));
    assert_eq!(db.documents[0].name, "report.docx");
    assert_eq!(db.documents[1].parent_folder_id, None);
}

#[test]
fn move_to_the_root_needs_write_on_the_document_only() {
    let mut db = store();
    db.documents[0].parent_folder_id = Some(FOLDER);
    PermissionService::grant_permission(&mut db, DOC, ALICE, PermissionType::Write, OWNER, None, 1, NOW);
    let moved = move_document(&mut db, &principal(ALICE), DOC, MoveDocumentRequest { target_folder_id: None }, NOW).unwrap();
    assert_eq!(moved.parent_folder_id, None);
    assert!(matches!(
        move_document(&mut db, &principal(OWNER), 999, MoveDocumentRequest { target_folder_id: None }, NOW),
        Err(AppError::Forbidden(_))
    ));
}

#[test]
fn listing_shows_own_live_documents_of_the_folder_newest_first() {
    let mut db = Database::new();
    db.documents.push(file(1, OWNER, None, 50));
    db.documents.push(file(2, OWNER, None, 70));
    db.documents.push(file(3, ALICE, None, 90));
    db.documents.push(file(4, OWNER, Some(FOLDER), 80));
    db.documents.push(file(5, OWNER, None, 60));
    let mut gone = file(6, OWNER, None, 100);
    gone.deleted_at = Some(NOW);
    db.documents.push(gone);
    db.documents.push(file(7, OWNER, None, 70));
    db.documents.push(file(8, OWNER, None, 10));

    let all = ListDocumentsParams { limit: default_limit(), offset: 0, folder_id: None };
    let ids: Vec<u128> = list_documents(&db, &principal(OWNER), all).unwrap().iter().map(|d| d.id).collect();
    assert_eq!(ids, vec![2, 7, 5, 1, 8]);

    let in_folder = ListDocumentsParams { limit: 50, offset: 0, folder_id: Some(FOLDER) };
    let ids: Vec<u128> = list_documents(&db, &principal(OWNER), in_folder).unwrap().iter().map(|d| d.id).collect();
    assert_eq!(ids, vec![4]);

    let ids: Vec<u128> = list_documents(&db, &principal(ALICE), all).unwrap().iter().map(|d| d.id).collect();
    assert_eq!(ids, vec![3]);
    assert_eq!(db.documents.len(), 8);
}

#[test]
fn listing_is_cut_to_its_window() {
    let mut db = Database::new();
    for k in 0..6 {
        db.documents.push(file(k as u128, OWNER, None, 100 - k));
    }
    let page = |limit, offset| -> Vec<u128> {
        list_documents(&db, &principal(OWNER), ListDocumentsParams { limit, offset, folder_id: None })
            .unwrap()
            .iter()
            .map(|d| d.id)
            .collect()
    };
    assert_eq!(page(2, 0), vec![0, 1]);
    assert_eq!(page(2, 1), vec![1, 2]);
    assert_eq!(page(10, 4), vec![4, 5]);
    assert_eq!(page(0, 0), Vec::<u128>::new());
    assert_eq!(page(3, 6), Vec::<u128>::new());
    assert_eq!(page(3, 60), Vec::<u128>::new());
    assert_eq!(page(i64::MAX, i64::MAX), Vec::<u128>::new());
    assert_eq!(page(i64::MAX, 5), vec![5]);
    assert_eq!(default_limit(), 50);
}

#[test]
fn listing_with_a_negative_window_is_refused() {
    let db = store();
    match list_documents(&db, &principal(OWNER), ListDocumentsParams { limit: -1, offset: 0, folder_id: None }) {
        Err(AppError::DatabaseError(m)) => assert_eq!(m, "LIMIT must not be negative"),
        other => panic!("unexpected: {:?}", other),
    }
    match list_documents(&db, &principal(OWNER), ListDocumentsParams { limit: 1, offset: -1, folder_id: None }) {
        Err(AppError::DatabaseError(m)) => assert_eq!(m, "OFFSET must not be negative"),
        other => panic!("unexpected: {:?}", other),
    }
    assert!(matches!(
        list_documents(&db, &broken_principal(), ListDocumentsParams { limit: -1, offset: 0, folder_id: None }),
        Err(AppError::Unauthorized(_))
    ));
}
