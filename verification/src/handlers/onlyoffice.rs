//! Opening a document in the editor, and taking back what the editor saved.
//!
//! A save is accepted in two steps. The editor's report is read against the
//! store without changing it. Once the new bytes lie in object storage, the
//! save is recorded: the document's version goes up by one, one record is
//! appended to its history, and the document points at the new blob. Only
//! then is the blob it pointed at before handed out for deletion.

use vstd::prelude::*;
use vstd::string::StringExecFns;
use crate::config::OnlyOfficeConfig;
use crate::db::{first_index, is_first_match, lemma_first_index, Database, DatabaseView};
use crate::error::{answers, AppError, AppErrorView};
use crate::middleware::auth::AuthUser;
use crate::models::document::{Document, DocumentVersion, DocumentVersionView, DocumentView};
use crate::models::permission::PermissionType;
use crate::services::onlyoffice::{
    callback_answer, document_type_of, editor_response, file_type_of, CallbackResponse,
    CallbackResponseView, OnlyOfficeCallbackData, OnlyOfficeCallbackDataView,
    OnlyOfficeDocumentConfig, OnlyOfficeDocumentConfigView, OnlyOfficeEditorConfig,
    OnlyOfficeEditorConfigView, OnlyOfficeService,
};
use crate::services::permission::PermissionService;
use crate::text::{ascii_lowercase, is_ascii_text, lowercase_of};
use crate::utils::ident::parsed_uuid;

verus! {

/// What a requester may do with a document in the editor.
#[derive(Debug)]
pub struct EditorAccess {
    pub document: Document,
    /// Whether the requester holds `Write` beside `Read`.
    pub can_edit: bool,
}

/// The mathematical value of an [`EditorAccess`].
pub struct EditorAccessView {
    pub document: DocumentView,
    pub can_edit: bool,
}

impl View for EditorAccess {
    type V = EditorAccessView;

    open spec fn view(&self) -> EditorAccessView {
        EditorAccessView {
            document: self.document@,
            can_edit: self.can_edit,
        }
    }
}

impl DeepView for EditorAccess {
    type V = EditorAccessView;

    open spec fn deep_view(&self) -> EditorAccessView {
        self@
    }
}

impl Clone for EditorAccess {
    fn clone(&self) -> (r: Self)
        ensures
            r@ == self@,
    {
        EditorAccess {
            document: self.document.clone(),
            can_edit: self.can_edit,
        }
    }
}

/// The configuration that is handed to the editor and signed for it.
#[derive(Debug)]
pub struct FullEditorConfig {
    pub document: OnlyOfficeDocumentConfig,
    pub document_type: String,
    pub editor_config: OnlyOfficeEditorConfig,
}

/// The mathematical value of a [`FullEditorConfig`].
pub struct FullEditorConfigView {
    pub document: OnlyOfficeDocumentConfigView,
    pub document_type: Seq<char>,
    pub editor_config: OnlyOfficeEditorConfigView,
}

impl View for FullEditorConfig {
    type V = FullEditorConfigView;

    open spec fn view(&self) -> FullEditorConfigView {
        FullEditorConfigView {
            document: self.document@,
            document_type: self.document_type.deep_view(),
            editor_config: self.editor_config@,
        }
    }
}

impl DeepView for FullEditorConfig {
    type V = FullEditorConfigView;

    open spec fn deep_view(&self) -> FullEditorConfigView {
        self@
    }
}

impl Clone for FullEditorConfig {
    fn clone(&self) -> (r: Self)
        ensures
            r@ == self@,
    {
        FullEditorConfig {
            document: self.document.clone(),
            document_type: self.document_type.clone(),
            editor_config: self.editor_config.clone(),
        }
    }
}

/// What an accepted save has recorded, and what is left to clean up.
#[derive(Debug)]
pub struct SavedVersion {
    /// The record that was appended to the history.
    pub version: DocumentVersion,
    /// The blob that the document pointed at before; it may be deleted now.
    pub previous_file_path: String,
}

/// The mathematical value of a [`SavedVersion`].
pub struct SavedVersionView {
    pub version: DocumentVersionView,
    pub previous_file_path: Seq<char>,
}

impl View for SavedVersion {
    type V = SavedVersionView;

    open spec fn view(&self) -> SavedVersionView {
        SavedVersionView {
            version: self.version@,
            previous_file_path: self.previous_file_path.deep_view(),
        }
    }
}

impl DeepView for SavedVersion {
    type V = SavedVersionView;

    open spec fn deep_view(&self) -> SavedVersionView {
        self@
    }
}

impl Clone for SavedVersion {
    fn clone(&self) -> (r: Self)
        ensures
            r@ == self@,
    {
        SavedVersion {
            version: self.version.clone(),
            previous_file_path: self.previous_file_path.clone(),
        }
    }
}
/// A character that ends a component of a path on some platform: a slash,
/// a backslash, or the colon after a drive letter.
pub open spec fn is_path_separator(c: char) -> bool {
    c == '/' || c == '\\' || c == ':'
}

/// A name without any character that ends a component of a path: on every
/// platform it is one component.
pub open spec fn is_plain_name(name: Seq<char>) -> bool {
    forall|i: int| 0 <= i < name.len() ==> !is_path_separator(#[trigger] name[i])
}

/// The place of the last dot of a name, or -1 where it has none.
pub open spec fn last_dot(name: Seq<char>) -> int
    decreases name.len(),
{
    if name.len() == 0 {
        -1
    } else if name.last() == '.' {
        name.len() - 1
    } else {
        last_dot(name.drop_last())
    }
}

/// The extension of a plain name: what follows its last dot. A name
/// without a dot has none, nor has one whose only dot is its first
/// character, nor has the name `..`.
pub open spec fn extension_of(name: Seq<char>) -> Option<Seq<char>> {
    let dot = last_dot(name);
    if dot <= 0 || name == seq!['.', '.'] {
        None
    } else {
        Some(name.subrange(dot + 1, name.len() as int))
    }
}

/// `Path::extension` on a document's name: what follows the last dot of its
/// final component. Where a component ends depends on the platform, so the
/// result is stated for plain names only, which are one component on every
/// platform.
#[verifier::external_body]
fn path_extension(name: &str) -> (extension: Option<String>)
    ensures
        is_plain_name(name@) ==> extension.deep_view() == extension_of(name@),
{
    match std::path::Path::new(name).extension() {
        Some(e) => match e.to_str() {
            Some(s) => Some(s.to_string()),
            None => None,
        },
        None => None,
    }
}

/// The extension that stands for a name: its own, or `docx` where it has
/// none.
pub open spec fn extension_or_default(extension: Option<Seq<char>>) -> Seq<char> {
    match extension {
        Some(e) => e,
        None => seq!['d', 'o', 'c', 'x'],
    }
}

/// The configuration of an editor session on the document of `access`,
/// whose name has the given extension in lower case.
pub open spec fn editor_config_for(
    access: EditorAccessView,
    lower: Seq<char>,
    file_url: Seq<char>,
    user_id: u128,
    user_name: Seq<char>,
    app_url: Seq<char>,
) -> FullEditorConfigView {
    let response = editor_response(
        access.document.id,
        access.document.name,
        file_type_of(lower),
        file_url,
        user_id,
        user_name,
        access.can_edit,
        app_url,
    );
    FullEditorConfigView {
        document: response.document,
        document_type: document_type_of(lower),
        editor_config: response.editor_config,
    }
}

/// The configuration of an editor session on the document of `access`,
/// whose name has the given extension. A name without an extension is
/// taken as a `docx`.
pub open spec fn full_editor_config(
    access: EditorAccessView,
    extension: Option<Seq<char>>,
    file_url: Seq<char>,
    user_id: u128,
    user_name: Seq<char>,
    app_url: Seq<char>,
) -> FullEditorConfigView {
    editor_config_for(
        access,
        lowercase_of(extension_or_default(extension)),
        file_url,
        user_id,
        user_name,
        app_url,
    )
}

/// The record that an accepted save appends to the history of `d`.
pub open spec fn saved_record(
    d: DocumentView,
    file_path: Seq<char>,
    file_size: i64,
    new_version_id: u128,
    now: i64,
) -> DocumentVersionView {
    DocumentVersionView {
        id: new_version_id,
        document_id: d.id,
        version: (d.version + 1) as i32,
        file_path,
        file_size,
        comment: Some("Updated via OnlyOffice"@),
        created_by: d.owner_id,
        created_at: now,
    }
}

/// The document `d` after an accepted save.
pub open spec fn saved_document(d: DocumentView, file_path: Seq<char>, file_size: i64, now: i64) -> DocumentView {
    DocumentView { file_path, file_size, version: (d.version + 1) as i32, updated_at: now, ..d }
}

impl DatabaseView {
    /// What a request to open a document in the editor comes to. A folder
    /// cannot be opened; the requester needs `Read`, and `Write` turns the
    /// session into one that may edit.
    pub open spec fn editor_access(self, user_id: u128, document_id: u128, now: i64) -> Result<
        EditorAccessView,
        AppErrorView,
    > {
        match self.find_document(document_id) {
            None => Err(AppErrorView::NotFound("Resource not found"@)),
            Some(d) => if d.is_folder {
                Err(AppErrorView::BadRequest("Cannot edit a folder"@))
            } else if !self.has_permission(user_id, document_id, PermissionType::Read, now) {
                Err(AppErrorView::Forbidden("No permission to view this document"@))
            } else {
                Ok(
                    EditorAccessView {
                        document: d,
                        can_edit: self.has_permission(
                            user_id,
                            document_id,
                            PermissionType::Write,
                            now,
                        ),
                    },
                )
            },
        }
    }

    /// The answer to a report of the editor about a document.
    pub open spec fn callback_outcome(self, document_id: u128, data: OnlyOfficeCallbackDataView) -> Result<
        CallbackResponseView,
        AppErrorView,
    > {
        match self.find_document(document_id) {
            None => Err(AppErrorView::NotFound("Document not found"@)),
            Some(_) => callback_answer(data),
        }
    }

    /// What the recording of a save comes to: the record for the history
    /// and the blob that the document pointed at before.
    pub open spec fn editor_save(
        self,
        document_id: u128,
        file_path: Seq<char>,
        file_size: i64,
        new_version_id: u128,
        now: i64,
    ) -> Result<SavedVersionView, AppErrorView> {
        match self.find_document(document_id) {
            None => Err(AppErrorView::NotFound("Document not found"@)),
            Some(d) => if d.version == i32::MAX {
                Err(AppErrorView::DatabaseError("integer out of range"@))
            } else {
                Ok(
                    SavedVersionView {
                        version: saved_record(d, file_path, file_size, new_version_id, now),
                        previous_file_path: d.file_path,
                    },
                )
            },
        }
    }

    /// The store after the recording of a save: where it succeeded, the
    /// history has the new record at its end and the document is the saved
    /// one; where it failed, nothing has changed.
    pub open spec fn after_editor_save(
        self,
        document_id: u128,
        file_path: Seq<char>,
        file_size: i64,
        new_version_id: u128,
        now: i64,
    ) -> DatabaseView {
        match self.editor_save(document_id, file_path, file_size, new_version_id, now) {
            Ok(saved) => DatabaseView {
                documents: self.documents.update(
                    first_index(self.documents, |d: DocumentView| d.id == document_id),
                    saved_document(self.find_document(document_id)->0, file_path, file_size, now),
                ),
                document_versions: self.document_versions.push(saved.version),
                ..self
            },
            Err(_) => self,
        }
    }
}

/// Decides whether the requester may open the document in the editor, and
/// whether the session may edit.
pub fn get_editor_access(db: &Database, auth_user: &AuthUser, document_id: u128, now: i64) -> (r:
    Result<EditorAccess, AppError>)
    ensures
        match parsed_uuid(auth_user@.claims.sub) {
            None => answers(r, Err(AppErrorView::Unauthorized("Invalid token"@))),
            Some(user_id) => answers(r, db@.editor_access(user_id, document_id, now)),
        },
{
    let user_id = match auth_user.claims.user_id() {
        Ok(id) => id,
        Err(e) => {
            return Err(e);
        },
    };
    let document = match db.find_document(document_id) {
        Some(d) => d,
        None => {
            return Err(AppError::NotFound(String::from_str("Resource not found")));
        },
    };
    if document.is_folder {
        return Err(AppError::BadRequest(String::from_str("Cannot edit a folder")));
    }
    match PermissionService::require(
        db,
        user_id,
        document_id,
        PermissionType::Read,
        now,
        "No permission to view this document",
    ) {
        Ok(_) => {},
        Err(e) => {
            return Err(e);
        },
    }
    let can_edit = PermissionService::check_permission(
        db,
        user_id,
        document_id,
        PermissionType::Write,
        now,
    );
    Ok(EditorAccess { document, can_edit })
}

/// Builds the configuration of an editor session from what was decided and
/// from the extension of the document's name. The extension is read
/// whatever the case of its letters.
pub fn build_editor_config(
    service: &OnlyOfficeService,
    access: &EditorAccess,
    extension: Option<&str>,
    file_url: &str,
    user_id: u128,
    user_name: &str,
    app_url: &str,
) -> (config: FullEditorConfig)
    ensures
        config@ == full_editor_config(
            access@,
            extension.deep_view(),
            file_url@,
            user_id,
            user_name@,
            app_url@,
        ),
        is_ascii_text(extension_or_default(extension.deep_view())) ==> config@
            == editor_config_for(
            access@,
            ascii_lowercase(extension_or_default(extension.deep_view())),
            file_url@,
            user_id,
            user_name@,
            app_url@,
        ),
{
    proof {
        reveal_strlit("docx");
    }
    assert("docx"@ =~= seq!['d', 'o', 'c', 'x']);
    let file_extension = match extension {
        Some(e) => e,
        None => "docx",
    };
    let file_type = OnlyOfficeService::get_file_type_from_extension(file_extension);
    let document_type = OnlyOfficeService::get_document_type_from_extension(file_extension);
    let response = service.editor_config(
        access.document.id,
        access.document.name.as_str(),
        file_type,
        file_url,
        user_id,
        user_name,
        access.can_edit,
        app_url,
    );
    FullEditorConfig {
        document: response.document,
        document_type: String::from_str(document_type),
        editor_config: response.editor_config,
    }
}

/// What [`get_editor_config`] answers with, given the access that was
/// decided. For a plain name the configuration follows the extension of
/// the name; for a name that holds a path separator it follows what the
/// platform takes as the extension of its last component.
pub open spec fn configured_as(
    config: FullEditorConfigView,
    access: EditorAccessView,
    file_url: Seq<char>,
    user_id: u128,
    user_name: Seq<char>,
    app_url: Seq<char>,
) -> bool {
    let name = access.document.name;
    if is_plain_name(name) {
        &&& config == full_editor_config(
            access,
            extension_of(name),
            file_url,
            user_id,
            user_name,
            app_url,
        )
        &&& is_ascii_text(extension_or_default(extension_of(name))) ==> config
            == editor_config_for(
            access,
            ascii_lowercase(extension_or_default(extension_of(name))),
            file_url,
            user_id,
            user_name,
            app_url,
        )
    } else {
        exists|extension: Option<Seq<char>>|
            config == #[trigger] full_editor_config(
                access,
                extension,
                file_url,
                user_id,
                user_name,
                app_url,
            )
    }
}

/// The configuration of an editor session on a document, for a requester
/// who holds `Read` on it. `file_url` is where the editor fetches the
/// document from. The kind of editor follows the extension of the
/// document's name.
pub fn get_editor_config(
    db: &Database,
    auth_user: &AuthUser,
    document_id: u128,
    file_url: &str,
    onlyoffice: &OnlyOfficeConfig,
    app_url: &str,
    now: i64,
) -> (r: Result<FullEditorConfig, AppError>)
    ensures
        match parsed_uuid(auth_user@.claims.sub) {
            None => answers(r, Err(AppErrorView::Unauthorized("Invalid token"@))),
            Some(user_id) => match db@.editor_access(user_id, document_id, now) {
                Err(e) => answers(r, Err(e)),
                Ok(access) => r is Ok && configured_as(
                    r->Ok_0@,
                    access,
                    file_url@,
                    user_id,
                    auth_user@.claims.username,
                    app_url@,
                ),
            },
        },
{
    let access = match get_editor_access(db, auth_user, document_id, now) {
        Ok(a) => a,
        Err(e) => {
            return Err(e);
        },
    };
    let user_id = match auth_user.claims.user_id() {
        Ok(id) => id,
        Err(e) => {
            return Err(e);
        },
    };
    let extension = path_extension(access.document.name.as_str());
    let service = OnlyOfficeService::new(onlyoffice);
    let config = match &extension {
        Some(e) => build_editor_config(
            &service,
            &access,
            Some(e.as_str()),
            file_url,
            user_id,
            auth_user.claims.username.as_str(),
            app_url,
        ),
        None => build_editor_config(
            &service,
            &access,
            None,
            file_url,
            user_id,
            auth_user.claims.username.as_str(),
            app_url,
        ),
    };
    proof {
        let witness = extension.deep_view();
        assert(config@ == full_editor_config(
            access@,
            witness,
            file_url@,
            user_id,
            auth_user@.claims.username,
            app_url@,
        ));
    }
    Ok(config)
}

/// Reads a report of the editor about a document and answers it. The store
/// is not changed: where the answer names a version to fetch, the save is
/// recorded by [`accept_editor_save`] once the bytes are stored.
pub fn onlyoffice_callback(
    db: &Database,
    document_id: u128,
    callback_data: OnlyOfficeCallbackData,
    onlyoffice: &OnlyOfficeConfig,
) -> (r: Result<CallbackResponse, AppError>)
    ensures
        answers(r, db@.callback_outcome(document_id, callback_data@)),
{
    match db.document_index(document_id) {
        Some(i) => {
            proof {
                lemma_first_index(db@.documents, |d: DocumentView| d.id == document_id, i as int);
            }
        },
        None => {
            return Err(AppError::NotFound(String::from_str("Document not found")));
        },
    }
    let service = OnlyOfficeService::new(onlyoffice);
    service.handle_callback(callback_data)
}

/// Records a save of the editor whose bytes lie under `new_file_path`: the
/// version of the document goes up by exactly one, exactly one record is
/// appended to the history, and the document points at the new blob. The
/// blob it pointed at before comes back for deletion.
pub fn accept_editor_save(
    db: &mut Database,
    document_id: u128,
    new_file_path: String,
    file_size: i64,
    new_version_id: u128,
    now: i64,
) -> (r: Result<SavedVersion, AppError>)
    ensures
        answers(r, old(db)@.editor_save(document_id, new_file_path@, file_size, new_version_id, now)),
        final(db)@ == old(db)@.after_editor_save(
            document_id,
            new_file_path@,
            file_size,
            new_version_id,
            now,
        ),
{
    let i = match db.document_index(document_id) {
        Some(i) => i,
        None => {
            return Err(AppError::NotFound(String::from_str("Document not found")));
        },
    };
    proof {
        lemma_first_index(db@.documents, |d: DocumentView| d.id == document_id, i as int);
    }
    let document = db.documents[i].clone();
    if document.version == i32::MAX {
        return Err(AppError::DatabaseError(String::from_str("integer out of range")));
    }
    let record = DocumentVersion {
        id: new_version_id,
        document_id: document.id,
        version: document.version + 1,
        file_path: new_file_path.clone(),
        file_size,
        comment: Some(String::from_str("Updated via OnlyOffice")),
        created_by: document.owner_id,
        created_at: now,
    };
    db.document_versions.push(record.clone());
    let mut saved = document.clone();
    saved.file_path = new_file_path;
    saved.file_size = file_size;
    saved.version = document.version + 1;
    saved.updated_at = now;
    let ghost saved_view = saved@;
    db.documents.set(i, saved);
    assert(db@.document_versions =~= old(db)@.document_versions.push(record@));
    assert(db@.documents =~= old(db)@.documents.update(i as int, saved_view));
    Ok(SavedVersion { version: record, previous_file_path: document.file_path })
}

/// An accepted save raises the version of the document by exactly one and
/// appends exactly one record to the history, which carries the new
/// version; every earlier record stays where it was. The document is found
/// under its identifier as before and points at the new blob, and the blob
/// that is handed out for deletion is the one it pointed at before.
pub proof fn lemma_save_adds_one_version(
    db: DatabaseView,
    document_id: u128,
    file_path: Seq<char>,
    file_size: i64,
    new_version_id: u128,
    now: i64,
)
    requires
        db.editor_save(document_id, file_path, file_size, new_version_id, now) is Ok,
    ensures
        ({
            let saved = db.editor_save(document_id, file_path, file_size, new_version_id, now)->Ok_0;
            let after = db.after_editor_save(document_id, file_path, file_size, new_version_id, now);
            let d = db.find_document(document_id)->0;
            &&& db.find_document(document_id) is Some
            &&& after.find_document(document_id) == Some(
                saved_document(d, file_path, file_size, now),
            )
            &&& after.find_document(document_id)->0.version == d.version + 1
            &&& after.find_document(document_id)->0.file_path == file_path
            &&& saved.version.version == d.version + 1
            &&& saved.previous_file_path == d.file_path
            &&& after.document_versions.len() == db.document_versions.len() + 1
            &&& after.document_versions.last() == saved.version
            &&& forall|k: int|
                0 <= k < db.document_versions.len() ==> after.document_versions[k]
                    == db.document_versions[k]
        }),
{
    let wanted = |d: DocumentView| d.id == document_id;
    crate::db::lemma_has_first_match(db.documents, wanted);
    let i = first_index(db.documents, wanted);
    let after = db.after_editor_save(document_id, file_path, file_size, new_version_id, now);
    assert(is_first_match(after.documents, wanted, i)) by {
        assert(wanted(after.documents[i]));
        assert forall|j: int| 0 <= j < i implies !wanted(#[trigger] after.documents[j]) by {
            assert(after.documents[j] == db.documents[j]);
        }
    }
    lemma_first_index(after.documents, wanted, i);
}

/// A report of the editor alone moves nothing: until the save is recorded
/// the document points at the blob it had. A save that is not recorded
/// leaves the store as it was.
pub proof fn lemma_refused_save_changes_nothing(
    db: DatabaseView,
    document_id: u128,
    file_path: Seq<char>,
    file_size: i64,
    new_version_id: u128,
    now: i64,
)
    requires
        db.editor_save(document_id, file_path, file_size, new_version_id, now) is Err,
    ensures
        db.after_editor_save(document_id, file_path, file_size, new_version_id, now) == db,
{
}

} // verus!
