//! The integration with the document editor: the configuration of an editor
//! session and the reports that the editor sends back.

use vstd::prelude::*;
use vstd::string::StringExecFns;
use crate::config::{OnlyOfficeConfig, OnlyOfficeConfigView};
use crate::error::{answers, AppError, AppErrorView};
use crate::text::{
    ascii_lowercase, clone_opt_text, clone_texts, is_ascii_text, lowercase_of, str_eq,
    to_lowercase,
};
use crate::utils::ident::{format_uuid, uuid_text};

verus! {

/// What the holder of an editor session may do with the document.
#[derive(Debug, Clone, Copy, PartialEq, Eq, Structural)]
pub struct OnlyOfficePermissions {
    pub download: bool,
    pub edit: bool,
    pub print: bool,
    pub review: bool,
    pub comment: bool,
}

/// The document part of an editor configuration.
#[derive(Debug)]
pub struct OnlyOfficeDocumentConfig {
    pub file_type: String,
    /// The key under which the editor knows the document: its identifier in hyphenated form.
    pub key: String,
    pub title: String,
    /// Where the editor fetches the document from.
    pub url: String,
    pub permissions: OnlyOfficePermissions,
}

/// The mathematical value of an [`OnlyOfficeDocumentConfig`].
pub struct OnlyOfficeDocumentConfigView {
    pub file_type: Seq<char>,
    pub key: Seq<char>,
    pub title: Seq<char>,
    pub url: Seq<char>,
    pub permissions: OnlyOfficePermissions,
}

impl View for OnlyOfficeDocumentConfig {
    type V = OnlyOfficeDocumentConfigView;

    open spec fn view(&self) -> OnlyOfficeDocumentConfigView {
        OnlyOfficeDocumentConfigView {
            file_type: self.file_type.deep_view(),
            key: self.key.deep_view(),
            title: self.title.deep_view(),
            url: self.url.deep_view(),
            permissions: self.permissions,
        }
    }
}

impl DeepView for OnlyOfficeDocumentConfig {
    type V = OnlyOfficeDocumentConfigView;

    open spec fn deep_view(&self) -> OnlyOfficeDocumentConfigView {
        self@
    }
}

impl Clone for OnlyOfficeDocumentConfig {
    fn clone(&self) -> (r: Self)
        ensures
            r@ == self@,
    {
        OnlyOfficeDocumentConfig {
            file_type: self.file_type.clone(),
            key: self.key.clone(),
            title: self.title.clone(),
            url: self.url.clone(),
            permissions: self.permissions,
        }
    }
}

/// The user of an editor session.
#[derive(Debug)]
pub struct OnlyOfficeUser {
    pub id: String,
    pub name: String,
}

/// The mathematical value of an [`OnlyOfficeUser`].
pub struct OnlyOfficeUserView {
    pub id: Seq<char>,
    pub name: Seq<char>,
}

impl View for OnlyOfficeUser {
    type V = OnlyOfficeUserView;

    open spec fn view(&self) -> OnlyOfficeUserView {
        OnlyOfficeUserView {
            id: self.id.deep_view(),
            name: self.name.deep_view(),
        }
    }
}

impl DeepView for OnlyOfficeUser {
    type V = OnlyOfficeUserView;

    open spec fn deep_view(&self) -> OnlyOfficeUserView {
        self@
    }
}

impl Clone for OnlyOfficeUser {
    fn clone(&self) -> (r: Self)
        ensures
            r@ == self@,
    {
        OnlyOfficeUser {
            id: self.id.clone(),
            name: self.name.clone(),
        }
    }
}

/// The editor part of an editor configuration.
#[derive(Debug)]
pub struct OnlyOfficeEditorConfig {
    /// Where the editor reports the state of the session.
    pub callback_url: String,
    /// `edit` or `view`.
    pub mode: String,
    pub user: OnlyOfficeUser,
}

/// The mathematical value of an [`OnlyOfficeEditorConfig`].
pub struct OnlyOfficeEditorConfigView {
    pub callback_url: Seq<char>,
    pub mode: Seq<char>,
    pub user: OnlyOfficeUserView,
}

impl View for OnlyOfficeEditorConfig {
    type V = OnlyOfficeEditorConfigView;

    open spec fn view(&self) -> OnlyOfficeEditorConfigView {
        OnlyOfficeEditorConfigView {
            callback_url: self.callback_url.deep_view(),
            mode: self.mode.deep_view(),
            user: self.user@,
        }
    }
}

impl DeepView for OnlyOfficeEditorConfig {
    type V = OnlyOfficeEditorConfigView;

    open spec fn deep_view(&self) -> OnlyOfficeEditorConfigView {
        self@
    }
}

impl Clone for OnlyOfficeEditorConfig {
    fn clone(&self) -> (r: Self)
        ensures
            r@ == self@,
    {
        OnlyOfficeEditorConfig {
            callback_url: self.callback_url.clone(),
            mode: self.mode.clone(),
            user: self.user.clone(),
        }
    }
}

/// An editor configuration.
#[derive(Debug)]
pub struct OnlyOfficeEditorResponse {
    pub document: OnlyOfficeDocumentConfig,
    pub editor_config: OnlyOfficeEditorConfig,
}

/// The mathematical value of an [`OnlyOfficeEditorResponse`].
pub struct OnlyOfficeEditorResponseView {
    pub document: OnlyOfficeDocumentConfigView,
    pub editor_config: OnlyOfficeEditorConfigView,
}

impl View for OnlyOfficeEditorResponse {
    type V = OnlyOfficeEditorResponseView;

    open spec fn view(&self) -> OnlyOfficeEditorResponseView {
        OnlyOfficeEditorResponseView {
            document: self.document@,
            editor_config: self.editor_config@,
        }
    }
}

impl DeepView for OnlyOfficeEditorResponse {
    type V = OnlyOfficeEditorResponseView;

    open spec fn deep_view(&self) -> OnlyOfficeEditorResponseView {
        self@
    }
}

impl Clone for OnlyOfficeEditorResponse {
    fn clone(&self) -> (r: Self)
        ensures
            r@ == self@,
    {
        OnlyOfficeEditorResponse {
            document: self.document.clone(),
            editor_config: self.editor_config.clone(),
        }
    }
}

/// What the editor reports about a session.
#[derive(Debug)]
pub struct OnlyOfficeCallbackData {
    pub key: String,
    /// The state of the session; 2 and 6 say that a new version is ready to be saved.
    pub status: i32,
    /// Where the new version can be fetched.
    pub url: Option<String>,
    pub users: Option<Vec<String>>,
}

/// The mathematical value of an [`OnlyOfficeCallbackData`].
pub struct OnlyOfficeCallbackDataView {
    pub key: Seq<char>,
    pub status: i32,
    pub url: Option<Seq<char>>,
    pub users: Option<Seq<Seq<char>>>,
}

impl View for OnlyOfficeCallbackData {
    type V = OnlyOfficeCallbackDataView;

    open spec fn view(&self) -> OnlyOfficeCallbackDataView {
        OnlyOfficeCallbackDataView {
            key: self.key.deep_view(),
            status: self.status,
            url: self.url.deep_view(),
            users: self.users.deep_view(),
        }
    }
}

impl DeepView for OnlyOfficeCallbackData {
    type V = OnlyOfficeCallbackDataView;

    open spec fn deep_view(&self) -> OnlyOfficeCallbackDataView {
        self@
    }
}

impl Clone for OnlyOfficeCallbackData {
    fn clone(&self) -> (r: Self)
        ensures
            r@ == self@,
    {
        OnlyOfficeCallbackData {
            key: self.key.clone(),
            status: self.status,
            url: clone_opt_text(&self.url),
            users: match &self.users {
                Some(v) => Some(clone_texts(v)),
                None => None,
            },
        }
    }
}

/// The answer to a report of the editor.
#[derive(Debug)]
pub struct CallbackResponse {
    pub error: i32,
    pub message: String,
    /// Where to fetch the version that is to be saved, if one is.
    pub download_url: Option<String>,
}

/// The mathematical value of a [`CallbackResponse`].
pub struct CallbackResponseView {
    pub error: i32,
    pub message: Seq<char>,
    pub download_url: Option<Seq<char>>,
}

impl View for CallbackResponse {
    type V = CallbackResponseView;

    open spec fn view(&self) -> CallbackResponseView {
        CallbackResponseView {
            error: self.error,
            message: self.message.deep_view(),
            download_url: self.download_url.deep_view(),
        }
    }
}

impl DeepView for CallbackResponse {
    type V = CallbackResponseView;

    open spec fn deep_view(&self) -> CallbackResponseView {
        self@
    }
}

impl Clone for CallbackResponse {
    fn clone(&self) -> (r: Self)
        ensures
            r@ == self@,
    {
        CallbackResponse {
            error: self.error,
            message: self.message.clone(),
            download_url: clone_opt_text(&self.download_url),
        }
    }
}
/// Builds editor configurations and reads the editor's reports.
pub struct OnlyOfficeService {
    config: OnlyOfficeConfig,
}

/// The file type that the editor is told for an extension in lower case. An
/// extension that is not known is taken as `docx`.
pub open spec fn file_type_of(extension: Seq<char>) -> Seq<char> {
    if extension == "docx"@ || extension == "doc"@ {
        "docx"@
    } else if extension == "xlsx"@ || extension == "xls"@ {
        "xlsx"@
    } else if extension == "pptx"@ || extension == "ppt"@ {
        "pptx"@
    } else if extension == "txt"@ {
        "txt"@
    } else if extension == "pdf"@ {
        "pdf"@
    } else {
        "docx"@
    }
}

/// The kind of editor that opens an extension in lower case: `cell` for
/// spreadsheets, `slide` for presentations, `word` for everything else.
pub open spec fn document_type_of(extension: Seq<char>) -> Seq<char> {
    if extension == "xlsx"@ || extension == "xls"@ {
        "cell"@
    } else if extension == "pptx"@ || extension == "ppt"@ {
        "slide"@
    } else {
        "word"@
    }
}

/// Whether the editor can change files of a media type.
pub open spec fn editable(mime_type: Seq<char>) -> bool {
    ||| mime_type == "application/vnd.openxmlformats-officedocument.wordprocessingml.document"@
    ||| mime_type == "application/vnd.openxmlformats-officedocument.spreadsheetml.sheet"@
    ||| mime_type == "application/vnd.openxmlformats-officedocument.presentationml.presentation"@
    ||| mime_type == "text/plain"@
}

/// What a holder of an editor session may do: download and print always,
/// and edit, review and comment where the session may edit.
pub open spec fn session_permissions(can_edit: bool) -> OnlyOfficePermissions {
    OnlyOfficePermissions {
        download: true,
        edit: can_edit,
        print: true,
        review: can_edit,
        comment: can_edit,
    }
}

/// The configuration of an editor session.
pub open spec fn editor_response(
    document_id: u128,
    document_name: Seq<char>,
    file_type: Seq<char>,
    file_url: Seq<char>,
    user_id: u128,
    user_name: Seq<char>,
    can_edit: bool,
    app_url: Seq<char>,
) -> OnlyOfficeEditorResponseView {
    OnlyOfficeEditorResponseView {
        document: OnlyOfficeDocumentConfigView {
            file_type,
            key: uuid_text(document_id),
            title: document_name,
            url: file_url,
            permissions: session_permissions(can_edit),
        },
        editor_config: OnlyOfficeEditorConfigView {
            callback_url: app_url + "/api/onlyoffice/callback/"@ + uuid_text(document_id),
            mode: if can_edit {
                "edit"@
            } else {
                "view"@
            },
            user: OnlyOfficeUserView { id: uuid_text(user_id), name: user_name },
        },
    }
}

/// The answer to a report of the editor. A report of state 2 or 6 says that
/// a new version is ready and must say where to fetch it.
pub open spec fn callback_answer(data: OnlyOfficeCallbackDataView) -> Result<
    CallbackResponseView,
    AppErrorView,
> {
    if data.status == 2 || data.status == 6 {
        match data.url {
            Some(url) => Ok(
                CallbackResponseView {
                    error: 0,
                    message: "Document saved"@,
                    download_url: Some(url),
                },
            ),
            None => Err(AppErrorView::BadRequest("Missing document URL in callback"@)),
        }
    } else if data.status == 1 || data.status == 4 {
        Ok(CallbackResponseView { error: 0, message: "Document closed"@, download_url: None })
    } else {
        Ok(CallbackResponseView { error: 0, message: "Status received"@, download_url: None })
    }
}

impl OnlyOfficeService {
    /// The configuration that the service was made with.
    pub closed spec fn config(&self) -> OnlyOfficeConfigView {
        self.config@
    }

    /// A service for the editor that the configuration names.
    pub fn new(config: &OnlyOfficeConfig) -> (service: Self)
        ensures
            service.config() == config@,
    {
        Self { config: config.clone() }
    }

    /// The address of the editor's server.
    pub fn server(&self) -> (server: &str)
        ensures
            server@ == self.config().server,
    {
        self.config.server.as_str()
    }

    /// The secret with which editor configurations are signed.
    pub fn jwt_secret(&self) -> (secret: &str)
        ensures
            secret@ == self.config().jwt_secret,
    {
        self.config.jwt_secret.as_str()
    }

    /// The configuration of an editor session on a document for a user. The
    /// session may edit, review and comment only where `can_edit` holds.
    pub fn editor_config(
        &self,
        document_id: u128,
        document_name: &str,
        file_type: &str,
        file_url: &str,
        user_id: u128,
        user_name: &str,
        can_edit: bool,
        app_url: &str,
    ) -> (response: OnlyOfficeEditorResponse)
        ensures
            response@ == editor_response(
                document_id,
                document_name@,
                file_type@,
                file_url@,
                user_id,
                user_name@,
                can_edit,
                app_url@,
            ),
    {
        let permissions = OnlyOfficePermissions {
            download: true,
            edit: can_edit,
            print: true,
            review: can_edit,
            comment: can_edit,
        };
        let document = OnlyOfficeDocumentConfig {
            file_type: String::from_str(file_type),
            key: format_uuid(document_id),
            title: String::from_str(document_name),
            url: String::from_str(file_url),
            permissions,
        };
        let key = format_uuid(document_id);
        let editor_config = OnlyOfficeEditorConfig {
            callback_url: String::from_str(app_url).concat("/api/onlyoffice/callback/").concat(
                key.as_str(),
            ),
            mode: if can_edit {
                String::from_str("edit")
            } else {
                String::from_str("view")
            },
            user: OnlyOfficeUser { id: format_uuid(user_id), name: String::from_str(user_name) },
        };
        OnlyOfficeEditorResponse { document, editor_config }
    }

    /// The configuration of an editor session, as the result of a request:
    /// it never fails.
    pub fn generate_editor_config(
        &self,
        document_id: u128,
        document_name: &str,
        file_type: &str,
        file_url: &str,
        user_id: u128,
        user_name: &str,
        can_edit: bool,
        app_url: &str,
    ) -> (r: Result<OnlyOfficeEditorResponse, AppError>)
        ensures
            answers(
                r,
                Ok(
                    editor_response(
                        document_id,
                        document_name@,
                        file_type@,
                        file_url@,
                        user_id,
                        user_name@,
                        can_edit,
                        app_url@,
                    ),
                ),
            ),
    {
        Ok(
            self.editor_config(
                document_id,
                document_name,
                file_type,
                file_url,
                user_id,
                user_name,
                can_edit,
                app_url,
            ),
        )
    }

    /// The file type that the editor is told for an extension in lower case.
    pub fn file_type_for(extension: &str) -> (file_type: &'static str)
        ensures
            file_type@ == file_type_of(extension@),
    {
        if str_eq(extension, "docx") || str_eq(extension, "doc") {
            "docx"
        } else if str_eq(extension, "xlsx") || str_eq(extension, "xls") {
            "xlsx"
        } else if str_eq(extension, "pptx") || str_eq(extension, "ppt") {
            "pptx"
        } else if str_eq(extension, "txt") {
            "txt"
        } else if str_eq(extension, "pdf") {
            "pdf"
        } else {
            "docx"
        }
    }

    /// The file type that the editor is told for an extension, whatever the
    /// case of its letters.
    pub fn get_file_type_from_extension(extension: &str) -> (file_type: &'static str)
        ensures
            file_type@ == file_type_of(lowercase_of(extension@)),
            is_ascii_text(extension@) ==> file_type@ == file_type_of(ascii_lowercase(extension@)),
    {
        let lower = to_lowercase(extension);
        OnlyOfficeService::file_type_for(lower.as_str())
    }

    /// The kind of editor that opens an extension in lower case.
    pub fn document_type_for(extension: &str) -> (document_type: &'static str)
        ensures
            document_type@ == document_type_of(extension@),
    {
        if str_eq(extension, "xlsx") || str_eq(extension, "xls") {
            "cell"
        } else if str_eq(extension, "pptx") || str_eq(extension, "ppt") {
            "slide"
        } else {
            "word"
        }
    }

    /// The kind of editor that opens an extension, whatever the case of its
    /// letters.
    pub fn get_document_type_from_extension(extension: &str) -> (document_type: &'static str)
        ensures
            document_type@ == document_type_of(lowercase_of(extension@)),
            is_ascii_text(extension@) ==> document_type@ == document_type_of(
                ascii_lowercase(extension@),
            ),
    {
        let lower = to_lowercase(extension);
        OnlyOfficeService::document_type_for(lower.as_str())
    }

    /// Whether the editor can change files of the media type.
    pub fn can_edit_file(mime_type: &str) -> (can: bool)
        ensures
            can == editable(mime_type@),
    {
        str_eq(
            mime_type,
            "application/vnd.openxmlformats-officedocument.wordprocessingml.document",
        ) || str_eq(
            mime_type,
            "application/vnd.openxmlformats-officedocument.spreadsheetml.sheet",
        ) || str_eq(
            mime_type,
            "application/vnd.openxmlformats-officedocument.presentationml.presentation",
        ) || str_eq(mime_type, "text/plain")
    }

    /// Reads a report of the editor and answers it.
    pub fn handle_callback(&self, callback_data: OnlyOfficeCallbackData) -> (r: Result<
        CallbackResponse,
        AppError,
    >)
        ensures
            answers(r, callback_answer(callback_data@)),
    {
        if callback_data.status == 2 || callback_data.status == 6 {
            match callback_data.url {
                Some(url) => Ok(
                    CallbackResponse {
                        error: 0,
                        message: String::from_str("Document saved"),
                        download_url: Some(url),
                    },
                ),
                None => Err(
                    AppError::BadRequest(String::from_str("Missing document URL in callback")),
                ),
            }
        } else if callback_data.status == 1 || callback_data.status == 4 {
            Ok(
                CallbackResponse {
                    error: 0,
                    message: String::from_str("Document closed"),
                    download_url: None,
                },
            )
        } else {
            Ok(
                CallbackResponse {
                    error: 0,
                    message: String::from_str("Status received"),
                    download_url: None,
                },
            )
        }
    }
}

} // verus!
