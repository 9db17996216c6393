//! Creating, reading, changing, moving and deleting documents, each under
//! the resolver's decision.
//!
//! A handler first decides and only then touches the store: where it fails,
//! the store is as it was. What has to happen outside the store (the search
//! index, the blobs in object storage) is named in what the handler returns.

use vstd::prelude::*;
use vstd::string::StringExecFns;
use crate::db::{first_index, is_first_match, lemma_first_index, Database, DatabaseView};
use crate::error::{answers, AppError, AppErrorView};
use crate::middleware::auth::AuthUser;
use crate::models::document::{
    invalid_name, valid_name, CreateFolderRequest, CreateFolderRequestView, Document,
    DocumentView, MoveDocumentRequest, UpdateDocumentRequest, UpdateDocumentRequestView,
};
use crate::models::permission::PermissionType;
use crate::services::permission::PermissionService;
use crate::text::{split_at_commas, split_commas, trim, trimmed};
use crate::utils::ident::{parse_uuid, parsed_uuid};

verus! {

/// The window of a listing.
#[derive(Debug, Clone, Copy)]
pub struct PaginationParams {
    pub limit: i64,
    pub offset: i64,
}

/// The window and the folder of a listing of documents.
#[derive(Debug, Clone, Copy)]
pub struct ListDocumentsParams {
    pub limit: i64,
    pub offset: i64,
    /// The folder to list; `None` for the documents at the root.
    pub folder_id: Option<u128>,
}

/// The number of rows that a listing returns where the request names none.
pub fn default_limit() -> (limit: i64)
    ensures
        limit == 50,
{
    50
}

/// What an upload request carries beside the bytes of the file.
#[derive(Debug)]
pub struct UploadForm {
    /// The number of bytes of the file part; `None` where the request has no
    /// file part.
    pub file_size: Option<i64>,
    pub file_name: Option<String>,
    pub content_type: Option<String>,
    pub parent_folder_id: Option<u128>,
    pub description: Option<String>,
    pub tags: Option<Vec<String>>,
}

/// The mathematical value of an [`UploadForm`].
pub struct UploadFormView {
    pub file_size: Option<i64>,
    pub file_name: Option<Seq<char>>,
    pub content_type: Option<Seq<char>>,
    pub parent_folder_id: Option<u128>,
    pub description: Option<Seq<char>>,
    pub tags: Option<Seq<Seq<char>>>,
}

impl View for UploadForm {
    type V = UploadFormView;

    open spec fn view(&self) -> UploadFormView {
        UploadFormView {
            file_size: self.file_size,
            file_name: self.file_name.deep_view(),
            content_type: self.content_type.deep_view(),
            parent_folder_id: self.parent_folder_id,
            description: self.description.deep_view(),
            tags: self.tags.deep_view(),
        }
    }
}

/// What is left to do outside the store after a soft delete.
#[derive(Debug)]
pub struct DeletedDocument {
    /// The document to take out of the search index.
    pub document_id: u128,
    /// The blob to delete from object storage; `None` for a folder.
    pub blob: Option<String>,
}

/// The mathematical value of a [`DeletedDocument`].
pub struct DeletedDocumentView {
    pub document_id: u128,
    pub blob: Option<Seq<char>>,
}

impl View for DeletedDocument {
    type V = DeletedDocumentView;

    open spec fn view(&self) -> DeletedDocumentView {
        DeletedDocumentView { document_id: self.document_id, blob: self.blob.deep_view() }
    }
}

/// Each tag as a present element of a stored list of tags.
pub open spec fn stored_tags(tags: Seq<Seq<char>>) -> Seq<Option<Seq<char>>> {
    Seq::new(tags.len(), |i: int| Some(tags[i]))
}

/// The row of a new folder.
pub open spec fn folder_row(
    new_id: u128,
    owner_id: u128,
    payload: CreateFolderRequestView,
    now: i64,
) -> DocumentView {
    DocumentView {
        id: new_id,
        name: payload.name,
        description: payload.description,
        file_path: Seq::empty(),
        file_size: 0,
        mime_type: "inode/directory"@,
        version: 1,
        status: "active"@,
        owner_id,
        parent_folder_id: payload.parent_folder_id,
        is_folder: true,
        tags: None,
        metadata: None,
        created_at: now,
        updated_at: now,
        deleted_at: None,
    }
}

/// The row of an uploaded file whose blob lies under `file_path`.
pub open spec fn file_row(
    new_id: u128,
    owner_id: u128,
    form: UploadFormView,
    file_path: Seq<char>,
    now: i64,
) -> DocumentView {
    DocumentView {
        id: new_id,
        name: form.file_name->0,
        description: form.description,
        file_path,
        file_size: form.file_size->0,
        mime_type: match form.content_type {
            Some(t) => t,
            None => "application/octet-stream"@,
        },
        version: 1,
        status: "active"@,
        owner_id,
        parent_folder_id: form.parent_folder_id,
        is_folder: false,
        tags: match form.tags {
            Some(t) => Some(stored_tags(t)),
            None => None,
        },
        metadata: None,
        created_at: now,
        updated_at: now,
        deleted_at: None,
    }
}

/// A document with the changes of an update request applied at `now`.
pub open spec fn updated_row(d: DocumentView, payload: UpdateDocumentRequestView, now: i64) -> DocumentView {
    DocumentView {
        name: match payload.name {
            Some(n) => n,
            None => d.name,
        },
        description: match payload.description {
            Some(x) => Some(x),
            None => d.description,
        },
        tags: match payload.tags {
            Some(t) => Some(stored_tags(t)),
            None => d.tags,
        },
        updated_at: now,
        ..d
    }
}

impl DatabaseView {
    /// The store with one more document at the end of its table.
    pub open spec fn with_document(self, d: DocumentView) -> DatabaseView {
        DatabaseView { documents: self.documents.push(d), ..self }
    }

    /// The store with the first document that has the identifier replaced
    /// by `changed`.
    pub open spec fn with_document_changed(self, id: u128, changed: DocumentView) -> DatabaseView {
        DatabaseView {
            documents: self.documents.update(
                first_index(self.documents, |d: DocumentView| d.id == id),
                changed,
            ),
            ..self
        }
    }

    /// Whether the user may put something into the folder: always at the
    /// root, and with `Write` on the folder otherwise.
    pub open spec fn may_write_into(self, user_id: u128, folder: Option<u128>, now: i64) -> bool {
        match folder {
            Some(parent) => self.has_permission(user_id, parent, PermissionType::Write, now),
            None => true,
        }
    }

    /// What a request for a new folder comes to.
    pub open spec fn folder_creation(
        self,
        user_id: u128,
        payload: CreateFolderRequestView,
        new_id: u128,
        now: i64,
    ) -> Result<DocumentView, AppErrorView> {
        if !self.may_write_into(user_id, payload.parent_folder_id, now) {
            Err(AppErrorView::Forbidden("No permission to create folder here"@))
        } else {
            Ok(folder_row(new_id, user_id, payload, now))
        }
    }

    /// What the check of an upload comes to, before any byte is stored.
    pub open spec fn upload_check(self, user_id: u128, form: UploadFormView, now: i64) -> Result<
        (),
        AppErrorView,
    > {
        if form.file_size is None {
            Err(AppErrorView::BadRequest("No file provided"@))
        } else if form.file_name is None {
            Err(AppErrorView::BadRequest("No filename provided"@))
        } else if !self.may_write_into(user_id, form.parent_folder_id, now) {
            Err(AppErrorView::Forbidden("No permission to upload here"@))
        } else {
            Ok(())
        }
    }

    /// What a request to read a document comes to: `NotFound` where it is
    /// absent, `Forbidden` where it is present and the requester lacks
    /// `Read`.
    pub open spec fn document_read(self, user_id: u128, document_id: u128, now: i64) -> Result<
        DocumentView,
        AppErrorView,
    > {
        match self.find_document(document_id) {
            None => Err(AppErrorView::NotFound("Resource not found"@)),
            Some(d) => if !self.has_permission(user_id, document_id, PermissionType::Read, now) {
                Err(AppErrorView::Forbidden("No permission to view this document"@))
            } else {
                Ok(d)
            },
        }
    }

    /// What a request to change a document comes to.
    pub open spec fn document_update(
        self,
        user_id: u128,
        document_id: u128,
        payload: UpdateDocumentRequestView,
        now: i64,
    ) -> Result<DocumentView, AppErrorView> {
        if !self.has_permission(user_id, document_id, PermissionType::Write, now) {
            Err(AppErrorView::Forbidden("No permission to update this document"@))
        } else if payload.is_empty() {
            Err(AppErrorView::BadRequest("No fields to update"@))
        } else {
            match self.find_document(document_id) {
                None => Err(AppErrorView::NotFound("Resource not found"@)),
                Some(d) => Ok(updated_row(d, payload, now)),
            }
        }
    }

    /// What a request to delete a document comes to: the document with its
    /// delete marker set to `now`.
    pub open spec fn document_deletion(self, user_id: u128, document_id: u128, now: i64) -> Result<
        DocumentView,
        AppErrorView,
    > {
        if !self.has_permission(user_id, document_id, PermissionType::Delete, now) {
            Err(AppErrorView::Forbidden("No permission to delete this document"@))
        } else {
            match self.find_document(document_id) {
                None => Err(AppErrorView::NotFound("Resource not found"@)),
                Some(d) => Ok(DocumentView { deleted_at: Some(now), ..d }),
            }
        }
    }

    /// What a request to download a document comes to: the key of its blob.
    pub open spec fn download(self, user_id: u128, document_id: u128, now: i64) -> Result<
        Seq<char>,
        AppErrorView,
    > {
        match self.find_document(document_id) {
            None => Err(AppErrorView::NotFound("Resource not found"@)),
            Some(d) => if !self.has_permission(user_id, document_id, PermissionType::Read, now) {
                Err(AppErrorView::Forbidden("No permission to download this document"@))
            } else if d.is_folder {
                Err(AppErrorView::BadRequest("Cannot download a folder"@))
            } else {
                Ok(d.file_path)
            },
        }
    }

    /// What a request to move a document comes to. The requester needs
    /// `Write` on the document and, where the target is a folder, `Write`
    /// on that folder too.
    pub open spec fn move_request(
        self,
        user_id: u128,
        document_id: u128,
        target: Option<u128>,
        now: i64,
    ) -> Result<DocumentView, AppErrorView> {
        if !self.has_permission(user_id, document_id, PermissionType::Write, now) {
            Err(AppErrorView::Forbidden("No permission to move this document"@))
        } else if !self.may_write_into(user_id, target, now) {
            Err(AppErrorView::Forbidden("No permission to move to target folder"@))
        } else {
            match self.find_document(document_id) {
                None => Err(AppErrorView::NotFound("Resource not found"@)),
                Some(d) => Ok(DocumentView { parent_folder_id: target, ..d }),
            }
        }
    }

    /// The store after a request that, where it succeeds, replaces the
    /// document by what the request came to.
    pub open spec fn after_change(
        self,
        document_id: u128,
        outcome: Result<DocumentView, AppErrorView>,
    ) -> DatabaseView {
        match outcome {
            Ok(changed) => self.with_document_changed(document_id, changed),
            Err(_) => self,
        }
    }
}

/// The check before something is put into a folder: nothing is asked at
/// the root, and `Write` on the folder otherwise.
fn require_write_into(
    db: &Database,
    user_id: u128,
    folder: Option<u128>,
    now: i64,
    reason: &str,
) -> (r: Result<(), AppError>)
    ensures
        db@.may_write_into(user_id, folder, now) ==> r is Ok,
        !db@.may_write_into(user_id, folder, now) ==> r is Err && r->Err_0@
            == AppErrorView::Forbidden(reason@),
{
    match folder {
        Some(parent) => PermissionService::require(
            db,
            user_id,
            parent,
            PermissionType::Write,
            now,
            reason,
        ),
        None => Ok(()),
    }
}

/// Replaces the document at place `i` by `changed` and hands back a copy.
fn replace_document(db: &mut Database, i: usize, changed: Document) -> (copy: Document)
    requires
        i < old(db).documents.len(),
    ensures
        copy@ == changed@,
        final(db)@ == (DatabaseView {
            documents: old(db)@.documents.update(i as int, changed@),
            ..old(db)@
        }),
{
    let copy = changed.clone();
    db.documents.set(i, changed);
    assert(db@.documents =~= old(db)@.documents.update(i as int, copy@));
    copy
}

/// A list of tags as it is stored: each tag a present element.
fn store_tags(tags: Vec<String>) -> (stored: Vec<Option<String>>)
    ensures
        stored.deep_view() == stored_tags(tags.deep_view()),
{
    let mut stored: Vec<Option<String>> = Vec::new();
    let mut i: usize = 0;
    while i < tags.len()
        invariant
            i <= tags.len(),
            stored@.len() == i,
            forall|j: int| 0 <= j < i ==> stored@[j].deep_view() == Some(tags@[j]@),
        decreases tags.len() - i,
    {
        stored.push(Some(tags[i].clone()));
        i += 1;
    }
    assert(stored.deep_view() =~= stored_tags(tags.deep_view()));
    stored
}

/// The tags that the text of a form field names: the pieces between its
/// commas, each without the white space at its ends.
pub open spec fn tags_of(text: Seq<char>) -> Seq<Seq<char>> {
    split_at_commas(text).map_values(|piece: Seq<char>| trimmed(piece))
}

/// Reads the tags of an upload from the text of their form field.
pub fn parse_tags(text: &str) -> (tags: Vec<String>)
    ensures
        tags.deep_view() == tags_of(text@),
{
    let pieces = split_commas(text);
    let mut tags: Vec<String> = Vec::new();
    let mut i: usize = 0;
    while i < pieces.len()
        invariant
            i <= pieces.len(),
            tags@.len() == i,
            forall|j: int| 0 <= j < i ==> tags@[j]@ == trimmed(pieces@[j]@),
        decreases pieces.len() - i,
    {
        tags.push(trim(pieces[i].as_str()));
        i += 1;
    }
    assert(tags.deep_view() =~= tags_of(text@));
    tags
}

/// Reads the target folder of an upload from the text of its form field. A
/// text that is no identifier stands for the root.
pub fn parse_parent_folder(text: &str) -> (folder: Option<u128>)
    ensures
        folder == parsed_uuid(text@),
{
    parse_uuid(text)
}

/// Creates a folder owned by the requester, at the root or in a folder on
/// which the requester holds `Write`. The new folder is to be added to the
/// search index.
pub fn create_folder(
    db: &mut Database,
    auth_user: &AuthUser,
    payload: CreateFolderRequest,
    new_id: u128,
    now: i64,
) -> (r: Result<Document, AppError>)
    ensures
        ({
            let outcome = if !valid_name(payload@.name) {
                Err(invalid_name())
            } else {
                match parsed_uuid(auth_user@.claims.sub) {
                    None => Err(AppErrorView::Unauthorized("Invalid token"@)),
                    Some(user_id) => old(db)@.folder_creation(user_id, payload@, new_id, now),
                }
            };
            &&& answers(r, outcome)
            &&& final(db)@ == match outcome {
                Ok(d) => old(db)@.with_document(d),
                Err(_) => old(db)@,
            }
        }),
{
    match payload.validate() {
        Ok(_) => {},
        Err(e) => {
            return Err(e);
        },
    }
    let user_id = match auth_user.claims.user_id() {
        Ok(id) => id,
        Err(e) => {
            return Err(e);
        },
    };
    match require_write_into(db, user_id, payload.parent_folder_id, now, "No permission to create folder here") {
        Ok(_) => {},
        Err(e) => {
            return Err(e);
        },
    }
    let folder = Document {
        id: new_id,
        name: payload.name,
        description: payload.description,
        file_path: String::new(),
        file_size: 0,
        mime_type: String::from_str("inode/directory"),
        version: 1,
        status: String::from_str("active"),
        owner_id: user_id,
        parent_folder_id: payload.parent_folder_id,
        is_folder: true,
        tags: None,
        metadata: None,
        created_at: now,
        updated_at: now,
        deleted_at: None,
    };
    db.documents.push(folder.clone());
    assert(db@.documents =~= old(db)@.documents.push(folder@));
    Ok(folder)
}

/// Checks an upload before any byte is stored: the request must carry a
/// file with a name, and the requester must be allowed to write into the
/// target folder.
pub fn check_upload(db: &Database, auth_user: &AuthUser, form: &UploadForm, now: i64) -> (r: Result<
    (),
    AppError,
>)
    ensures
        match parsed_uuid(auth_user@.claims.sub) {
            None => answers(r, Err(AppErrorView::Unauthorized("Invalid token"@))),
            Some(user_id) => answers(r, db@.upload_check(user_id, form@, now)),
        },
{
    let user_id = match auth_user.claims.user_id() {
        Ok(id) => id,
        Err(e) => {
            return Err(e);
        },
    };
    if form.file_size.is_none() {
        return Err(AppError::BadRequest(String::from_str("No file provided")));
    }
    if form.file_name.is_none() {
        return Err(AppError::BadRequest(String::from_str("No filename provided")));
    }
    match require_write_into(db, user_id, form.parent_folder_id, now, "No permission to upload here") {
        Ok(_) => {},
        Err(e) => {
            return Err(e);
        },
    }
    Ok(())
}

/// Records an uploaded file whose bytes lie under `file_path` in object
/// storage. The checks of [`check_upload`] are made again on the store as
/// it is now. The new document is to be added to the search index.
pub fn upload_document(
    db: &mut Database,
    auth_user: &AuthUser,
    form: UploadForm,
    file_path: String,
    new_id: u128,
    now: i64,
) -> (r: Result<Document, AppError>)
    ensures
        ({
            let outcome = match parsed_uuid(auth_user@.claims.sub) {
                None => Err(AppErrorView::Unauthorized("Invalid token"@)),
                Some(user_id) => match old(db)@.upload_check(user_id, form@, now) {
                    Ok(_) => Ok(file_row(new_id, user_id, form@, file_path@, now)),
                    Err(e) => Err(e),
                },
            };
            &&& answers(r, outcome)
            &&& final(db)@ == match outcome {
                Ok(d) => old(db)@.with_document(d),
                Err(_) => old(db)@,
            }
        }),
{
    let user_id = match auth_user.claims.user_id() {
        Ok(id) => id,
        Err(e) => {
            return Err(e);
        },
    };
    let file_size = match form.file_size {
        Some(n) => n,
        None => {
            return Err(AppError::BadRequest(String::from_str("No file provided")));
        },
    };
    let file_name = match form.file_name {
        Some(n) => n,
        None => {
            return Err(AppError::BadRequest(String::from_str("No filename provided")));
        },
    };
    let content_type = match form.content_type {
        Some(t) => t,
        None => String::from_str("application/octet-stream"),
    };
    match require_write_into(db, user_id, form.parent_folder_id, now, "No permission to upload here") {
        Ok(_) => {},
        Err(e) => {
            return Err(e);
        },
    }
    let document = Document {
        id: new_id,
        name: file_name,
        description: form.description,
        file_path,
        file_size,
        mime_type: content_type,
        version: 1,
        status: String::from_str("active"),
        owner_id: user_id,
        parent_folder_id: form.parent_folder_id,
        is_folder: false,
        tags: match form.tags {
            Some(t) => Some(store_tags(t)),
            None => None,
        },
        metadata: None,
        created_at: now,
        updated_at: now,
        deleted_at: None,
    };
    db.documents.push(document.clone());
    assert(db@.documents =~= old(db)@.documents.push(document@));
    Ok(document)
}

/// Reads a document, for a requester who holds `Read` on it.
pub fn get_document(db: &Database, auth_user: &AuthUser, document_id: u128, now: i64) -> (r: Result<
    Document,
    AppError,
>)
    ensures
        match parsed_uuid(auth_user@.claims.sub) {
            None => answers(r, Err(AppErrorView::Unauthorized("Invalid token"@))),
            Some(user_id) => answers(r, db@.document_read(user_id, document_id, now)),
        },
{
    let user_id = match auth_user.claims.user_id() {
        Ok(id) => id,
        Err(e) => {
            return Err(e);
        },
    };
    let document = match db.find_document(document_id) {
        Some(d) => d,
        None => {
            return Err(AppError::NotFound(String::from_str("Resource not found")));
        },
    };
    match PermissionService::require(
        db,
        user_id,
        document_id,
        PermissionType::Read,
        now,
        "No permission to view this document",
    ) {
        Ok(_) => {},
        Err(e) => {
            return Err(e);
        },
    }
    Ok(document)
}

/// Changes the name, the description or the tags of a document, for a
/// requester who holds `Write` on it. The changed document is to be put
/// into the search index again.
pub fn update_document(
    db: &mut Database,
    auth_user: &AuthUser,
    document_id: u128,
    payload: UpdateDocumentRequest,
    now: i64,
) -> (r: Result<Document, AppError>)
    ensures
        ({
            let outcome = if !payload@.is_valid() {
                Err(invalid_name())
            } else {
                match parsed_uuid(auth_user@.claims.sub) {
                    None => Err(AppErrorView::Unauthorized("Invalid token"@)),
                    Some(user_id) => old(db)@.document_update(user_id, document_id, payload@, now),
                }
            };
            &&& answers(r, outcome)
            &&& final(db)@ == old(db)@.after_change(document_id, outcome)
        }),
{
    match payload.validate() {
        Ok(_) => {},
        Err(e) => {
            return Err(e);
        },
    }
    let user_id = match auth_user.claims.user_id() {
        Ok(id) => id,
        Err(e) => {
            return Err(e);
        },
    };
    match PermissionService::require(
        db,
        user_id,
        document_id,
        PermissionType::Write,
        now,
        "No permission to update this document",
    ) {
        Ok(_) => {},
        Err(e) => {
            return Err(e);
        },
    }
    if payload.name.is_none() && payload.description.is_none() && payload.tags.is_none() {
        return Err(AppError::BadRequest(String::from_str("No fields to update")));
    }
    let i = match db.document_index(document_id) {
        Some(i) => i,
        None => {
            return Err(AppError::NotFound(String::from_str("Resource not found")));
        },
    };
    proof {
        lemma_first_index(db@.documents, |d: DocumentView| d.id == document_id, i as int);
    }
    let mut changed = db.documents[i].clone();
    match payload.name {
        Some(n) => {
            changed.name = n;
        },
        None => {},
    }
    match payload.description {
        Some(x) => {
            changed.description = Some(x);
        },
        None => {},
    }
    match payload.tags {
        Some(t) => {
            changed.tags = Some(store_tags(t));
        },
        None => {},
    }
    changed.updated_at = now;
    Ok(replace_document(db, i, changed))
}

/// Deletes a document softly, for a requester who holds `Delete` on it: the
/// document gets its delete marker and stays in the store under its
/// identifier. The children of a deleted folder are left as they are. What
/// comes back names what is left to do: the document leaves the search
/// index, and the blob of a file leaves object storage.
pub fn delete_document(db: &mut Database, auth_user: &AuthUser, document_id: u128, now: i64) -> (r:
    Result<DeletedDocument, AppError>)
    ensures
        ({
            let outcome = match parsed_uuid(auth_user@.claims.sub) {
                None => Err(AppErrorView::Unauthorized("Invalid token"@)),
                Some(user_id) => old(db)@.document_deletion(user_id, document_id, now),
            };
            &&& match outcome {
                Ok(d) => r is Ok && r->Ok_0@ == (DeletedDocumentView {
                    document_id,
                    blob: if d.is_folder {
                        None
                    } else {
                        Some(d.file_path)
                    },
                }),
                Err(e) => r is Err && r->Err_0@ == e,
            }
            &&& final(db)@ == old(db)@.after_change(document_id, outcome)
        }),
{
    let user_id = match auth_user.claims.user_id() {
        Ok(id) => id,
        Err(e) => {
            return Err(e);
        },
    };
    match PermissionService::require(
        db,
        user_id,
        document_id,
        PermissionType::Delete,
        now,
        "No permission to delete this document",
    ) {
        Ok(_) => {},
        Err(e) => {
            return Err(e);
        },
    }
    let i = match db.document_index(document_id) {
        Some(i) => i,
        None => {
            return Err(AppError::NotFound(String::from_str("Resource not found")));
        },
    };
    proof {
        lemma_first_index(db@.documents, |d: DocumentView| d.id == document_id, i as int);
    }
    let mut changed = db.documents[i].clone();
    changed.deleted_at = Some(now);
    let deleted = replace_document(db, i, changed);
    let blob = if deleted.is_folder {
        None
    } else {
        Some(deleted.file_path)
    };
    Ok(DeletedDocument { document_id, blob })
}

/// Finds the blob to hand out for a download, for a requester who holds
/// `Read` on the document. A folder has no blob.
pub fn download_document(db: &Database, auth_user: &AuthUser, document_id: u128, now: i64) -> (r:
    Result<String, AppError>)
    ensures
        match parsed_uuid(auth_user@.claims.sub) {
            None => answers(r, Err(AppErrorView::Unauthorized("Invalid token"@))),
            Some(user_id) => answers(r, db@.download(user_id, document_id, now)),
        },
{
    let user_id = match auth_user.claims.user_id() {
        Ok(id) => id,
        Err(e) => {
            return Err(e);
        },
    };
    let document = match db.find_document(document_id) {
        Some(d) => d,
        None => {
            return Err(AppError::NotFound(String::from_str("Resource not found")));
        },
    };
    match PermissionService::require(
        db,
        user_id,
        document_id,
        PermissionType::Read,
        now,
        "No permission to download this document",
    ) {
        Ok(_) => {},
        Err(e) => {
            return Err(e);
        },
    }
    if document.is_folder {
        return Err(AppError::BadRequest(String::from_str("Cannot download a folder")));
    }
    Ok(document.file_path)
}

/// Moves a document into a folder, or to the root. The requester needs
/// `Write` on the document and on the target folder: two checks, and both
/// must pass.
pub fn move_document(
    db: &mut Database,
    auth_user: &AuthUser,
    document_id: u128,
    payload: MoveDocumentRequest,
    now: i64,
) -> (r: Result<Document, AppError>)
    ensures
        ({
            let outcome = match parsed_uuid(auth_user@.claims.sub) {
                None => Err(AppErrorView::Unauthorized("Invalid token"@)),
                Some(user_id) => old(db)@.move_request(
                    user_id,
                    document_id,
                    payload.target_folder_id,
                    now,
                ),
            };
            &&& answers(r, outcome)
            &&& final(db)@ == old(db)@.after_change(document_id, outcome)
        }),
{
    let user_id = match auth_user.claims.user_id() {
        Ok(id) => id,
        Err(e) => {
            return Err(e);
        },
    };
    match PermissionService::require(
        db,
        user_id,
        document_id,
        PermissionType::Write,
        now,
        "No permission to move this document",
    ) {
        Ok(_) => {},
        Err(e) => {
            return Err(e);
        },
    }
    match require_write_into(db, user_id, payload.target_folder_id, now, "No permission to move to target folder") {
        Ok(_) => {},
        Err(e) => {
            return Err(e);
        },
    }
    let i = match db.document_index(document_id) {
        Some(i) => i,
        None => {
            return Err(AppError::NotFound(String::from_str("Resource not found")));
        },
    };
    proof {
        lemma_first_index(db@.documents, |d: DocumentView| d.id == document_id, i as int);
    }
    let mut changed = db.documents[i].clone();
    changed.parent_folder_id = payload.target_folder_id;
    Ok(replace_document(db, i, changed))
}

/// A move into a folder on which the requester lacks `Write` is denied, and
/// the store is as it was: the document is found with the parent it had.
pub proof fn lemma_denied_move_changes_nothing(
    db: DatabaseView,
    user_id: u128,
    document_id: u128,
    target: u128,
    now: i64,
)
    requires
        !db.has_permission(user_id, target, PermissionType::Write, now),
    ensures
        db.move_request(user_id, document_id, Some(target), now) is Err,
        db.move_request(user_id, document_id, Some(target), now)->Err_0 is Forbidden,
        db.after_change(document_id, db.move_request(user_id, document_id, Some(target), now))
            == db,
        db.after_change(
            document_id,
            db.move_request(user_id, document_id, Some(target), now),
        ).find_document(document_id) == db.find_document(document_id),
{
}

/// A move that succeeds changes the parent of the moved document and
/// nothing else in the store.
pub proof fn lemma_move_changes_the_parent_only(
    db: DatabaseView,
    user_id: u128,
    document_id: u128,
    target: Option<u128>,
    now: i64,
)
    requires
        db.move_request(user_id, document_id, target, now) is Ok,
    ensures
        ({
            let after = db.after_change(
                document_id,
                db.move_request(user_id, document_id, target, now),
            );
            let d = db.find_document(document_id)->0;
            &&& db.find_document(document_id) is Some
            &&& after.find_document(document_id) == Some(
                DocumentView { parent_folder_id: target, ..d },
            )
            &&& after == DatabaseView { documents: after.documents, ..db }
        }),
{
    let wanted = |d: DocumentView| d.id == document_id;
    crate::db::lemma_has_first_match(db.documents, wanted);
    let i = first_index(db.documents, wanted);
    let after = db.after_change(document_id, db.move_request(user_id, document_id, target, now));
    assert(is_first_match(after.documents, wanted, i)) by {
        assert(wanted(after.documents[i]));
        assert forall|j: int| 0 <= j < i implies !wanted(#[trigger] after.documents[j]) by {
            assert(after.documents[j] == db.documents[j]);
        }
    }
    lemma_first_index(after.documents, wanted, i);
}

/// A list of documents that is ordered from the newest to the oldest, with
/// one more document put in: behind every document that is as new or newer,
/// before every older one.
pub open spec fn put_by_age(ordered: Seq<DocumentView>, d: DocumentView) -> Seq<DocumentView>
    decreases ordered.len(),
{
    if ordered.len() == 0 {
        seq![d]
    } else if ordered.last().created_at >= d.created_at {
        ordered.push(d)
    } else {
        put_by_age(ordered.drop_last(), d).push(ordered.last())
    }
}

/// The documents of a list from the newest to the oldest; documents of the
/// same time keep the order they had.
pub open spec fn newest_first(rows: Seq<DocumentView>) -> Seq<DocumentView>
    decreases rows.len(),
{
    if rows.len() == 0 {
        Seq::empty()
    } else {
        put_by_age(newest_first(rows.drop_last()), rows.last())
    }
}

/// A list of documents runs from the newest to the oldest.
pub open spec fn runs_newest_first(rows: Seq<DocumentView>) -> bool {
    forall|i: int, j: int| 0 <= i <= j < rows.len() ==> rows[i].created_at >= rows[j].created_at
}

/// The document belongs into the listing of a user's folder: the user owns
/// it, it is not deleted, and it lies in the folder.
pub open spec fn is_listed(d: DocumentView, user_id: u128, folder_id: Option<u128>) -> bool {
    d.owner_id == user_id && d.deleted_at is None && d.parent_folder_id == folder_id
}

/// The rows of a list from place `offset` on, at most `limit` of them.
pub open spec fn window<T>(rows: Seq<T>, offset: int, limit: int) -> Seq<T> {
    let start = if offset < rows.len() {
        offset
    } else {
        rows.len() as int
    };
    let end = if start + limit < rows.len() {
        start + limit
    } else {
        rows.len() as int
    };
    rows.subrange(start, end)
}

impl DatabaseView {
    /// What a request for a listing comes to: the documents of the folder
    /// that the user owns and that are not deleted, from the newest to the
    /// oldest, cut to the window. A window with a negative bound is refused
    /// by the store.
    pub open spec fn listing(self, user_id: u128, params: ListDocumentsParams) -> Result<
        Seq<DocumentView>,
        AppErrorView,
    > {
        if params.limit < 0 {
            Err(AppErrorView::DatabaseError("LIMIT must not be negative"@))
        } else if params.offset < 0 {
            Err(AppErrorView::DatabaseError("OFFSET must not be negative"@))
        } else {
            Ok(
                window(
                    newest_first(
                        self.documents.filter(
                            |d: DocumentView| is_listed(d, user_id, params.folder_id),
                        ),
                    ),
                    params.offset as int,
                    params.limit as int,
                ),
            )
        }
    }
}

/// Putting a document into an ordered list is an insertion at the place
/// behind which only older documents lie.
proof fn lemma_put_is_insert(ordered: Seq<DocumentView>, d: DocumentView, pos: int)
    requires
        0 <= pos <= ordered.len(),
        forall|j: int| pos <= j < ordered.len() ==> ordered[j].created_at < d.created_at,
        pos > 0 ==> ordered[pos - 1].created_at >= d.created_at,
    ensures
        put_by_age(ordered, d) == ordered.insert(pos, d),
    decreases ordered.len(),
{
    if ordered.len() == 0 {
        assert(seq![d] =~= ordered.insert(pos, d));
    } else if pos == ordered.len() {
        assert(ordered.push(d) =~= ordered.insert(pos, d));
    } else {
        lemma_put_is_insert(ordered.drop_last(), d, pos);
        assert(ordered.drop_last().insert(pos, d).push(ordered.last()) =~= ordered.insert(pos, d));
    }
}

/// Putting a document into a list adds that document and nothing else, and
/// a list that ran from the newest to the oldest still does.
pub proof fn lemma_put_keeps_order(ordered: Seq<DocumentView>, d: DocumentView)
    requires
        runs_newest_first(ordered),
    ensures
        runs_newest_first(put_by_age(ordered, d)),
        put_by_age(ordered, d).to_multiset() == ordered.to_multiset().insert(d),
        put_by_age(ordered, d).len() == ordered.len() + 1,
    decreases ordered.len(),
{
    broadcast use vstd::seq_lib::group_to_multiset_ensures;

    if ordered.len() == 0 {
        assert(seq![d] =~= Seq::<DocumentView>::empty().push(d));
        assert(ordered =~= Seq::empty());
    } else if ordered.last().created_at >= d.created_at {
    } else {
        let front = ordered.drop_last();
        assert(runs_newest_first(front));
        lemma_put_keeps_order(front, d);
        let put = put_by_age(front, d);
        assert(ordered =~= front.push(ordered.last()));
        assert(put.to_multiset().insert(ordered.last()) =~= ordered.to_multiset().insert(d));
        assert forall|i: int, j: int| 0 <= i <= j < put.push(ordered.last()).len() implies put.push(
            ordered.last(),
        )[i].created_at >= put.push(ordered.last())[j].created_at by {
            if j == put.len() && i < put.len() {
                assert(put.to_multiset().count(put[i]) > 0);
                if put[i] != d {
                    assert(front.to_multiset().count(put[i]) > 0);
                    assert(front.contains(put[i]));
                    let k = choose|k: int| 0 <= k < front.len() && front[k] == put[i];
                    assert(ordered[k].created_at >= ordered[ordered.len() - 1].created_at);
                }
            }
        }
    }
}

/// The ordered form of a list runs from the newest to the oldest and holds
/// exactly the documents of the list, each as often as the list does.
pub proof fn lemma_newest_first_is_ordered(rows: Seq<DocumentView>)
    ensures
        runs_newest_first(newest_first(rows)),
        newest_first(rows).to_multiset() == rows.to_multiset(),
        newest_first(rows).len() == rows.len(),
    decreases rows.len(),
{
    broadcast use vstd::seq_lib::group_to_multiset_ensures;

    if rows.len() == 0 {
        assert(rows =~= Seq::empty());
    } else {
        lemma_newest_first_is_ordered(rows.drop_last());
        lemma_put_keeps_order(newest_first(rows.drop_last()), rows.last());
        assert(rows =~= rows.drop_last().push(rows.last()));
    }
}

/// Puts a document into a list that runs from the newest to the oldest.
fn put_document(ordered: &mut Vec<Document>, d: Document)
    ensures
        final(ordered).deep_view() == put_by_age(old(ordered).deep_view(), d@),
{
    let mut pos: usize = ordered.len();
    while pos > 0 && ordered[pos - 1].created_at < d.created_at
        invariant
            pos <= ordered.len(),
            *ordered == *old(ordered),
            forall|j: int| pos <= j < ordered.len() ==> ordered@[j].created_at < d.created_at,
        decreases pos,
    {
        pos -= 1;
    }
    proof {
        lemma_put_is_insert(ordered.deep_view(), d@, pos as int);
    }
    let ghost before = ordered.deep_view();
    ordered.insert(pos, d);
    assert(ordered.deep_view() =~= before.insert(pos as int, d@));
}

/// Lists the documents of a folder, or of the root, that the requester owns
/// and that are not deleted, from the newest to the oldest.
pub fn list_documents(db: &Database, auth_user: &AuthUser, params: ListDocumentsParams) -> (r:
    Result<Vec<Document>, AppError>)
    ensures
        match parsed_uuid(auth_user@.claims.sub) {
            None => r is Err && r->Err_0@ == AppErrorView::Unauthorized("Invalid token"@),
            Some(user_id) => match db@.listing(user_id, params) {
                Ok(rows) => r is Ok && r->Ok_0.deep_view() == rows,
                Err(e) => r is Err && r->Err_0@ == e,
            },
        },
{
    let user_id = match auth_user.claims.user_id() {
        Ok(id) => id,
        Err(e) => {
            return Err(e);
        },
    };
    if params.limit < 0 {
        return Err(AppError::DatabaseError(String::from_str("LIMIT must not be negative")));
    }
    if params.offset < 0 {
        return Err(AppError::DatabaseError(String::from_str("OFFSET must not be negative")));
    }
    let ghost rows = db@.documents;
    let ghost wanted = |d: DocumentView| is_listed(d, user_id, params.folder_id);
    let mut ordered: Vec<Document> = Vec::new();
    let mut i: usize = 0;
    assert(rows.take(0) =~= Seq::empty());
    assert(rows.take(0).filter(wanted) =~= Seq::empty()) by {
        reveal(Seq::filter);
    }
    assert(ordered.deep_view() =~= Seq::empty());
    while i < db.documents.len()
        invariant
            i <= db.documents.len(),
            rows == db@.documents,
            wanted == (|d: DocumentView| is_listed(d, user_id, params.folder_id)),
            ordered.deep_view() == newest_first(rows.take(i as int).filter(wanted)),
        decreases db.documents.len() - i,
    {
        let d = &db.documents[i];
        proof {
            rows.lemma_take_succ_push(i as int);
            rows.take(i as int).lemma_filter_push(rows[i as int], wanted);
        }
        let in_folder = match (d.parent_folder_id, params.folder_id) {
            (Some(a), Some(b)) => a == b,
            (None, None) => true,
            _ => false,
        };
        if d.owner_id == user_id && d.deleted_at.is_none() && in_folder {
            proof {
                let listed = rows.take(i as int).filter(wanted);
                assert(listed.push(rows[i as int]).drop_last() =~= listed);
            }
            put_document(&mut ordered, d.clone());
        }
        i += 1;
    }
    assert(rows.take(rows.len() as int) =~= rows);
    let ghost all = ordered.deep_view();
    let len = ordered.len();
    let start: usize = if params.offset as u64 >= len as u64 {
        len
    } else {
        params.offset as usize
    };
    let room: usize = len - start;
    let end: usize = if params.limit as u64 >= room as u64 {
        len
    } else {
        start + params.limit as usize
    };
    let mut page: Vec<Document> = Vec::new();
    let mut k: usize = start;
    assert(page.deep_view() =~= all.subrange(start as int, start as int));
    while k < end
        invariant
            start <= k <= end <= ordered.len(),
            all == ordered.deep_view(),
            page.deep_view() == all.subrange(start as int, k as int),
        decreases end - k,
    {
        let ghost before = page.deep_view();
        page.push(ordered[k].clone());
        assert(page.deep_view() =~= before.push(all[k as int]));
        assert(before.push(all[k as int]) =~= all.subrange(start as int, k + 1));
        k += 1;
    }
    Ok(page)
}

} // verus!
