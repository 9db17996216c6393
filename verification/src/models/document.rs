//! Documents, folders and their version history.

use vstd::prelude::*;
use vstd::string::{StrSliceExecFns, StringExecFns};
use crate::error::{AppError, AppErrorView};
use crate::text::{clone_opt_text, clone_opt_texts, clone_texts};

verus! {

/// A file or a folder of the document tree.
#[derive(Debug)]
pub struct Document {
    pub id: u128,
    pub name: String,
    pub description: Option<String>,
    /// The key of the document's blob in object storage; empty for a folder.
    pub file_path: String,
    pub file_size: i64,
    pub mime_type: String,
    /// The number of the current version, starting at 1.
    pub version: i32,
    pub status: String,
    /// The principal that holds every level on the document.
    pub owner_id: u128,
    pub parent_folder_id: Option<u128>,
    pub is_folder: bool,
    pub tags: Option<Vec<Option<String>>>,
    /// Free-form metadata, as JSON text.
    pub metadata: Option<String>,
    pub created_at: i64,
    pub updated_at: i64,
    /// The time of the soft delete, if the document was deleted.
    pub deleted_at: Option<i64>,
}

/// The mathematical value of a [`Document`].
pub struct DocumentView {
    pub id: u128,
    pub name: Seq<char>,
    pub description: Option<Seq<char>>,
    pub file_path: Seq<char>,
    pub file_size: i64,
    pub mime_type: Seq<char>,
    pub version: i32,
    pub status: Seq<char>,
    pub owner_id: u128,
    pub parent_folder_id: Option<u128>,
    pub is_folder: bool,
    pub tags: Option<Seq<Option<Seq<char>>>>,
    pub metadata: Option<Seq<char>>,
    pub created_at: i64,
    pub updated_at: i64,
    pub deleted_at: Option<i64>,
}

impl View for Document {
    type V = DocumentView;

    open spec fn view(&self) -> DocumentView {
        DocumentView {
            id: self.id,
            name: self.name.deep_view(),
            description: self.description.deep_view(),
            file_path: self.file_path.deep_view(),
            file_size: self.file_size,
            mime_type: self.mime_type.deep_view(),
            version: self.version,
            status: self.status.deep_view(),
            owner_id: self.owner_id,
            parent_folder_id: self.parent_folder_id,
            is_folder: self.is_folder,
            tags: self.tags.deep_view(),
            metadata: self.metadata.deep_view(),
            created_at: self.created_at,
            updated_at: self.updated_at,
            deleted_at: self.deleted_at,
        }
    }
}

impl DeepView for Document {
    type V = DocumentView;

    open spec fn deep_view(&self) -> DocumentView {
        self@
    }
}

impl Clone for Document {
    fn clone(&self) -> (r: Self)
        ensures
            r@ == self@,
    {
        Document {
            id: self.id,
            name: self.name.clone(),
            description: clone_opt_text(&self.description),
            file_path: self.file_path.clone(),
            file_size: self.file_size,
            mime_type: self.mime_type.clone(),
            version: self.version,
            status: self.status.clone(),
            owner_id: self.owner_id,
            parent_folder_id: self.parent_folder_id,
            is_folder: self.is_folder,
            tags: match &self.tags {
                Some(v) => Some(clone_opt_texts(v)),
                None => None,
            },
            metadata: clone_opt_text(&self.metadata),
            created_at: self.created_at,
            updated_at: self.updated_at,
            deleted_at: self.deleted_at,
        }
    }
}

/// A document before the store has given it an identifier, a version, a status and its times.
#[derive(Debug)]
pub struct NewDocument {
    pub name: String,
    pub description: Option<String>,
    pub file_path: String,
    pub file_size: i64,
    pub mime_type: String,
    pub owner_id: u128,
    pub parent_folder_id: Option<u128>,
    pub is_folder: bool,
    pub tags: Option<Vec<Option<String>>>,
    pub metadata: Option<String>,
}

/// The mathematical value of a [`NewDocument`].
pub struct NewDocumentView {
    pub name: Seq<char>,
    pub description: Option<Seq<char>>,
    pub file_path: Seq<char>,
    pub file_size: i64,
    pub mime_type: Seq<char>,
    pub owner_id: u128,
    pub parent_folder_id: Option<u128>,
    pub is_folder: bool,
    pub tags: Option<Seq<Option<Seq<char>>>>,
    pub metadata: Option<Seq<char>>,
}

impl View for NewDocument {
    type V = NewDocumentView;

    open spec fn view(&self) -> NewDocumentView {
        NewDocumentView {
            name: self.name.deep_view(),
            description: self.description.deep_view(),
            file_path: self.file_path.deep_view(),
            file_size: self.file_size,
            mime_type: self.mime_type.deep_view(),
            owner_id: self.owner_id,
            parent_folder_id: self.parent_folder_id,
            is_folder: self.is_folder,
            tags: self.tags.deep_view(),
            metadata: self.metadata.deep_view(),
        }
    }
}

impl DeepView for NewDocument {
    type V = NewDocumentView;

    open spec fn deep_view(&self) -> NewDocumentView {
        self@
    }
}

impl Clone for NewDocument {
    fn clone(&self) -> (r: Self)
        ensures
            r@ == self@,
    {
        NewDocument {
            name: self.name.clone(),
            description: clone_opt_text(&self.description),
            file_path: self.file_path.clone(),
            file_size: self.file_size,
            mime_type: self.mime_type.clone(),
            owner_id: self.owner_id,
            parent_folder_id: self.parent_folder_id,
            is_folder: self.is_folder,
            tags: match &self.tags {
                Some(v) => Some(clone_opt_texts(v)),
                None => None,
            },
            metadata: clone_opt_text(&self.metadata),
        }
    }
}

/// The body of a request for a new document.
#[derive(Debug)]
pub struct CreateDocumentRequest {
    pub name: String,
    pub description: Option<String>,
    pub parent_folder_id: Option<u128>,
    pub tags: Option<Vec<String>>,
}

/// The mathematical value of a [`CreateDocumentRequest`].
pub struct CreateDocumentRequestView {
    pub name: Seq<char>,
    pub description: Option<Seq<char>>,
    pub parent_folder_id: Option<u128>,
    pub tags: Option<Seq<Seq<char>>>,
}

impl View for CreateDocumentRequest {
    type V = CreateDocumentRequestView;

    open spec fn view(&self) -> CreateDocumentRequestView {
        CreateDocumentRequestView {
            name: self.name.deep_view(),
            description: self.description.deep_view(),
            parent_folder_id: self.parent_folder_id,
            tags: self.tags.deep_view(),
        }
    }
}

impl DeepView for CreateDocumentRequest {
    type V = CreateDocumentRequestView;

    open spec fn deep_view(&self) -> CreateDocumentRequestView {
        self@
    }
}

impl Clone for CreateDocumentRequest {
    fn clone(&self) -> (r: Self)
        ensures
            r@ == self@,
    {
        CreateDocumentRequest {
            name: self.name.clone(),
            description: clone_opt_text(&self.description),
            parent_folder_id: self.parent_folder_id,
            tags: match &self.tags {
                Some(v) => Some(clone_texts(v)),
                None => None,
            },
        }
    }
}

/// The body of a request that changes a document's name, description or tags.
#[derive(Debug)]
pub struct UpdateDocumentRequest {
    pub name: Option<String>,
    pub description: Option<String>,
    pub tags: Option<Vec<String>>,
}

/// The mathematical value of an [`UpdateDocumentRequest`].
pub struct UpdateDocumentRequestView {
    pub name: Option<Seq<char>>,
    pub description: Option<Seq<char>>,
    pub tags: Option<Seq<Seq<char>>>,
}

impl View for UpdateDocumentRequest {
    type V = UpdateDocumentRequestView;

    open spec fn view(&self) -> UpdateDocumentRequestView {
        UpdateDocumentRequestView {
            name: self.name.deep_view(),
            description: self.description.deep_view(),
            tags: self.tags.deep_view(),
        }
    }
}

impl DeepView for UpdateDocumentRequest {
    type V = UpdateDocumentRequestView;

    open spec fn deep_view(&self) -> UpdateDocumentRequestView {
        self@
    }
}

impl Clone for UpdateDocumentRequest {
    fn clone(&self) -> (r: Self)
        ensures
            r@ == self@,
    {
        UpdateDocumentRequest {
            name: clone_opt_text(&self.name),
            description: clone_opt_text(&self.description),
            tags: match &self.tags {
                Some(v) => Some(clone_texts(v)),
                None => None,
            },
        }
    }
}

/// The body of a request for a new folder.
#[derive(Debug)]
pub struct CreateFolderRequest {
    pub name: String,
    pub description: Option<String>,
    pub parent_folder_id: Option<u128>,
}

/// The mathematical value of a [`CreateFolderRequest`].
pub struct CreateFolderRequestView {
    pub name: Seq<char>,
    pub description: Option<Seq<char>>,
    pub parent_folder_id: Option<u128>,
}

impl View for CreateFolderRequest {
    type V = CreateFolderRequestView;

    open spec fn view(&self) -> CreateFolderRequestView {
        CreateFolderRequestView {
            name: self.name.deep_view(),
            description: self.description.deep_view(),
            parent_folder_id: self.parent_folder_id,
        }
    }
}

impl DeepView for CreateFolderRequest {
    type V = CreateFolderRequestView;

    open spec fn deep_view(&self) -> CreateFolderRequestView {
        self@
    }
}

impl Clone for CreateFolderRequest {
    fn clone(&self) -> (r: Self)
        ensures
            r@ == self@,
    {
        CreateFolderRequest {
            name: self.name.clone(),
            description: clone_opt_text(&self.description),
            parent_folder_id: self.parent_folder_id,
        }
    }
}

/// One entry of a document's version history.
#[derive(Debug)]
pub struct DocumentVersion {
    pub id: u128,
    pub document_id: u128,
    pub version: i32,
    pub file_path: String,
    pub file_size: i64,
    pub comment: Option<String>,
    pub created_by: u128,
    pub created_at: i64,
}

/// The mathematical value of a [`DocumentVersion`].
pub struct DocumentVersionView {
    pub id: u128,
    pub document_id: u128,
    pub version: i32,
    pub file_path: Seq<char>,
    pub file_size: i64,
    pub comment: Option<Seq<char>>,
    pub created_by: u128,
    pub created_at: i64,
}

impl View for DocumentVersion {
    type V = DocumentVersionView;

    open spec fn view(&self) -> DocumentVersionView {
        DocumentVersionView {
            id: self.id,
            document_id: self.document_id,
            version: self.version,
            file_path: self.file_path.deep_view(),
            file_size: self.file_size,
            comment: self.comment.deep_view(),
            created_by: self.created_by,
            created_at: self.created_at,
        }
    }
}

impl DeepView for DocumentVersion {
    type V = DocumentVersionView;

    open spec fn deep_view(&self) -> DocumentVersionView {
        self@
    }
}

impl Clone for DocumentVersion {
    fn clone(&self) -> (r: Self)
        ensures
            r@ == self@,
    {
        DocumentVersion {
            id: self.id,
            document_id: self.document_id,
            version: self.version,
            file_path: self.file_path.clone(),
            file_size: self.file_size,
            comment: clone_opt_text(&self.comment),
            created_by: self.created_by,
            created_at: self.created_at,
        }
    }
}

/// A version record before the store has given it an identifier and a time.
#[derive(Debug)]
pub struct NewDocumentVersion {
    pub document_id: u128,
    pub version: i32,
    pub file_path: String,
    pub file_size: i64,
    pub comment: Option<String>,
    pub created_by: u128,
}

/// The mathematical value of a [`NewDocumentVersion`].
pub struct NewDocumentVersionView {
    pub document_id: u128,
    pub version: i32,
    pub file_path: Seq<char>,
    pub file_size: i64,
    pub comment: Option<Seq<char>>,
    pub created_by: u128,
}

impl View for NewDocumentVersion {
    type V = NewDocumentVersionView;

    open spec fn view(&self) -> NewDocumentVersionView {
        NewDocumentVersionView {
            document_id: self.document_id,
            version: self.version,
            file_path: self.file_path.deep_view(),
            file_size: self.file_size,
            comment: self.comment.deep_view(),
            created_by: self.created_by,
        }
    }
}

impl DeepView for NewDocumentVersion {
    type V = NewDocumentVersionView;

    open spec fn deep_view(&self) -> NewDocumentVersionView {
        self@
    }
}

impl Clone for NewDocumentVersion {
    fn clone(&self) -> (r: Self)
        ensures
            r@ == self@,
    {
        NewDocumentVersion {
            document_id: self.document_id,
            version: self.version,
            file_path: self.file_path.clone(),
            file_size: self.file_size,
            comment: clone_opt_text(&self.comment),
            created_by: self.created_by,
        }
    }
}

/// A name of a document or folder may have 1 to 255 characters.
pub open spec fn valid_name(name: Seq<char>) -> bool {
    1 <= name.len() <= 255
}

/// The error that answers a name of the wrong length.
pub open spec fn invalid_name() -> AppErrorView {
    AppErrorView::ValidationError("name: length must be between 1 and 255 characters"@)
}

/// Whether a name has 1 to 255 characters.
pub fn name_is_valid(name: &str) -> (ok: bool)
    ensures
        ok == valid_name(name@),
{
    let n = name.unicode_len();
    1 <= n && n <= 255
}

fn name_error() -> (e: AppError)
    ensures
        e@ == invalid_name(),
{
    AppError::ValidationError(
        String::from_str("name: length must be between 1 and 255 characters"),
    )
}

impl CreateDocumentRequest {
    /// Holds the body to its rule: the name has 1 to 255 characters.
    pub fn validate(&self) -> (r: Result<(), AppError>)
        ensures
            valid_name(self@.name) ==> r is Ok,
            !valid_name(self@.name) ==> r is Err && r->Err_0@ == invalid_name(),
    {
        if name_is_valid(self.name.as_str()) {
            Ok(())
        } else {
            Err(name_error())
        }
    }
}

impl CreateFolderRequest {
    /// Holds the body to its rule: the name has 1 to 255 characters.
    pub fn validate(&self) -> (r: Result<(), AppError>)
        ensures
            valid_name(self@.name) ==> r is Ok,
            !valid_name(self@.name) ==> r is Err && r->Err_0@ == invalid_name(),
    {
        if name_is_valid(self.name.as_str()) {
            Ok(())
        } else {
            Err(name_error())
        }
    }
}

impl UpdateDocumentRequestView {
    /// The body keeps its rule: a new name, if there is one, has 1 to 255
    /// characters.
    pub open spec fn is_valid(self) -> bool {
        self.name matches Some(n) ==> valid_name(n)
    }

    /// The body changes nothing.
    pub open spec fn is_empty(self) -> bool {
        self.name is None && self.description is None && self.tags is None
    }
}

impl UpdateDocumentRequest {
    /// Holds the body to its rule: a new name, if there is one, has 1 to 255
    /// characters.
    pub fn validate(&self) -> (r: Result<(), AppError>)
        ensures
            self@.is_valid() ==> r is Ok,
            !self@.is_valid() ==> r is Err && r->Err_0@ == invalid_name(),
    {
        match &self.name {
            Some(n) => if name_is_valid(n.as_str()) {
                Ok(())
            } else {
                Err(name_error())
            },
            None => Ok(()),
        }
    }
}

/// A hit of a search, as it is shown to clients.
#[derive(Debug)]
pub struct DocumentSearchResult {
    pub id: u128,
    pub name: String,
    pub description: Option<String>,
    pub mime_type: String,
    pub owner_id: u128,
    pub is_folder: bool,
    pub tags: Option<Vec<String>>,
    pub created_at: i64,
    pub updated_at: i64,
}

/// The conditions of a search.
#[derive(Debug)]
pub struct SearchFilters {
    pub mime_type: Option<String>,
    pub owner_id: Option<u128>,
    pub tags: Option<Vec<String>>,
    pub is_folder: Option<bool>,
}

/// The body of a search request.
#[derive(Debug)]
pub struct SearchQuery {
    pub query: String,
    pub limit: Option<usize>,
    pub offset: Option<usize>,
    pub filters: Option<SearchFilters>,
}

/// The body of a request that moves a document into a folder, or to the root
/// where `target_folder_id` is `None`.
#[derive(Debug, Clone, Copy)]
pub struct MoveDocumentRequest {
    pub target_folder_id: Option<u128>,
}

} // verus!
