//! Permission levels, grants and share links.

use vstd::prelude::*;
use crate::text::{ascii_lowercase, clone_opt_text, is_ascii_text, lowercase_of, str_eq, to_lowercase};

verus! {

/// A capability on one document. No level implies another: each is granted
/// and checked by itself.
#[derive(Debug, Clone, Copy, PartialEq, Eq, Structural)]
pub enum PermissionType {
    Read,
    Write,
    Delete,
    Share,
    Admin,
}

impl PermissionType {
    /// The text under which the level is stored.
    pub open spec fn name(self) -> Seq<char> {
        match self {
            PermissionType::Read => seq!['r', 'e', 'a', 'd'],
            PermissionType::Write => seq!['w', 'r', 'i', 't', 'e'],
            PermissionType::Delete => seq!['d', 'e', 'l', 'e', 't', 'e'],
            PermissionType::Share => seq!['s', 'h', 'a', 'r', 'e'],
            PermissionType::Admin => seq!['a', 'd', 'm', 'i', 'n'],
        }
    }

    /// The level that a stored text names, if it names one.
    pub open spec fn parse(s: Seq<char>) -> Option<PermissionType> {
        if s == PermissionType::Read.name() {
            Some(PermissionType::Read)
        } else if s == PermissionType::Write.name() {
            Some(PermissionType::Write)
        } else if s == PermissionType::Delete.name() {
            Some(PermissionType::Delete)
        } else if s == PermissionType::Share.name() {
            Some(PermissionType::Share)
        } else if s == PermissionType::Admin.name() {
            Some(PermissionType::Admin)
        } else {
            None
        }
    }

    /// The level that a text names once its letters are brought to lower case.
    pub open spec fn named_by(s: Seq<char>) -> Option<PermissionType> {
        PermissionType::parse(lowercase_of(s))
    }

    /// The text under which the level is stored.
    pub fn as_str(&self) -> (s: &'static str)
        ensures
            s@ == self.name(),
    {
        proof {
            reveal_strlit("read");
            reveal_strlit("write");
            reveal_strlit("delete");
            reveal_strlit("share");
            reveal_strlit("admin");
        }
        match self {
            PermissionType::Read => {
                assert("read"@ =~= PermissionType::Read.name());
                "read"
            },
            PermissionType::Write => {
                assert("write"@ =~= PermissionType::Write.name());
                "write"
            },
            PermissionType::Delete => {
                assert("delete"@ =~= PermissionType::Delete.name());
                "delete"
            },
            PermissionType::Share => {
                assert("share"@ =~= PermissionType::Share.name());
                "share"
            },
            PermissionType::Admin => {
                assert("admin"@ =~= PermissionType::Admin.name());
                "admin"
            },
        }
    }

    /// The level named by a text that is already in lower case.
    pub fn from_lowercase(s: &str) -> (r: Option<PermissionType>)
        ensures
            r == PermissionType::parse(s@),
    {
        if str_eq(s, PermissionType::Read.as_str()) {
            Some(PermissionType::Read)
        } else if str_eq(s, PermissionType::Write.as_str()) {
            Some(PermissionType::Write)
        } else if str_eq(s, PermissionType::Delete.as_str()) {
            Some(PermissionType::Delete)
        } else if str_eq(s, PermissionType::Share.as_str()) {
            Some(PermissionType::Share)
        } else if str_eq(s, PermissionType::Admin.as_str()) {
            Some(PermissionType::Admin)
        } else {
            None
        }
    }

    /// The level named by a text, whatever the case of its letters.
    pub fn from_str(s: &str) -> (r: Option<PermissionType>)
        ensures
            r == PermissionType::named_by(s@),
            is_ascii_text(s@) ==> r == PermissionType::parse(ascii_lowercase(s@)),
    {
        let lower = to_lowercase(s);
        PermissionType::from_lowercase(lower.as_str())
    }
}

/// A direct grant: one level on one document for one user.
///
/// Several rows may hold the same document, user and level. A row whose
/// `expires_at` has passed stays in the table and is ignored when read.
#[derive(Debug)]
pub struct DocumentPermission {
    pub id: u128,
    pub document_id: u128,
    pub user_id: u128,
    /// The name of the level, as [`PermissionType::as_str`] writes it.
    pub permission: String,
    pub granted_by: u128,
    pub granted_at: i64,
    /// `None` for a grant that does not expire.
    pub expires_at: Option<i64>,
}

/// The mathematical value of a [`DocumentPermission`].
pub struct DocumentPermissionView {
    pub id: u128,
    pub document_id: u128,
    pub user_id: u128,
    pub permission: Seq<char>,
    pub granted_by: u128,
    pub granted_at: i64,
    pub expires_at: Option<i64>,
}

impl View for DocumentPermission {
    type V = DocumentPermissionView;

    open spec fn view(&self) -> DocumentPermissionView {
        DocumentPermissionView {
            id: self.id,
            document_id: self.document_id,
            user_id: self.user_id,
            permission: self.permission.deep_view(),
            granted_by: self.granted_by,
            granted_at: self.granted_at,
            expires_at: self.expires_at,
        }
    }
}

impl DeepView for DocumentPermission {
    type V = DocumentPermissionView;

    open spec fn deep_view(&self) -> DocumentPermissionView {
        self@
    }
}

impl Clone for DocumentPermission {
    fn clone(&self) -> (r: Self)
        ensures
            r@ == self@,
    {
        DocumentPermission {
            id: self.id,
            document_id: self.document_id,
            user_id: self.user_id,
            permission: self.permission.clone(),
            granted_by: self.granted_by,
            granted_at: self.granted_at,
            expires_at: self.expires_at,
        }
    }
}

/// A direct grant before the store has given it an identifier and a time.
#[derive(Debug)]
pub struct NewDocumentPermission {
    pub document_id: u128,
    pub user_id: u128,
    pub permission: String,
    pub granted_by: u128,
    pub expires_at: Option<i64>,
}

/// The mathematical value of a [`NewDocumentPermission`].
pub struct NewDocumentPermissionView {
    pub document_id: u128,
    pub user_id: u128,
    pub permission: Seq<char>,
    pub granted_by: u128,
    pub expires_at: Option<i64>,
}

impl View for NewDocumentPermission {
    type V = NewDocumentPermissionView;

    open spec fn view(&self) -> NewDocumentPermissionView {
        NewDocumentPermissionView {
            document_id: self.document_id,
            user_id: self.user_id,
            permission: self.permission.deep_view(),
            granted_by: self.granted_by,
            expires_at: self.expires_at,
        }
    }
}

impl DeepView for NewDocumentPermission {
    type V = NewDocumentPermissionView;

    open spec fn deep_view(&self) -> NewDocumentPermissionView {
        self@
    }
}

impl Clone for NewDocumentPermission {
    fn clone(&self) -> (r: Self)
        ensures
            r@ == self@,
    {
        NewDocumentPermission {
            document_id: self.document_id,
            user_id: self.user_id,
            permission: self.permission.clone(),
            granted_by: self.granted_by,
            expires_at: self.expires_at,
        }
    }
}

/// A grant to a group: every member of the group holds the level on the document.
#[derive(Debug)]
pub struct GroupPermission {
    pub id: u128,
    pub document_id: u128,
    pub group_id: u128,
    pub permission: String,
    pub granted_by: u128,
    pub granted_at: i64,
    pub expires_at: Option<i64>,
}

/// The mathematical value of a [`GroupPermission`].
pub struct GroupPermissionView {
    pub id: u128,
    pub document_id: u128,
    pub group_id: u128,
    pub permission: Seq<char>,
    pub granted_by: u128,
    pub granted_at: i64,
    pub expires_at: Option<i64>,
}

impl View for GroupPermission {
    type V = GroupPermissionView;

    open spec fn view(&self) -> GroupPermissionView {
        GroupPermissionView {
            id: self.id,
            document_id: self.document_id,
            group_id: self.group_id,
            permission: self.permission.deep_view(),
            granted_by: self.granted_by,
            granted_at: self.granted_at,
            expires_at: self.expires_at,
        }
    }
}

impl DeepView for GroupPermission {
    type V = GroupPermissionView;

    open spec fn deep_view(&self) -> GroupPermissionView {
        self@
    }
}

impl Clone for GroupPermission {
    fn clone(&self) -> (r: Self)
        ensures
            r@ == self@,
    {
        GroupPermission {
            id: self.id,
            document_id: self.document_id,
            group_id: self.group_id,
            permission: self.permission.clone(),
            granted_by: self.granted_by,
            granted_at: self.granted_at,
            expires_at: self.expires_at,
        }
    }
}

/// The membership of one user in one group.
#[derive(Debug)]
pub struct GroupMember {
    pub id: u128,
    pub group_id: u128,
    pub user_id: u128,
    pub role: String,
    pub joined_at: i64,
}

/// The mathematical value of a [`GroupMember`].
pub struct GroupMemberView {
    pub id: u128,
    pub group_id: u128,
    pub user_id: u128,
    pub role: Seq<char>,
    pub joined_at: i64,
}

impl View for GroupMember {
    type V = GroupMemberView;

    open spec fn view(&self) -> GroupMemberView {
        GroupMemberView {
            id: self.id,
            group_id: self.group_id,
            user_id: self.user_id,
            role: self.role.deep_view(),
            joined_at: self.joined_at,
        }
    }
}

impl DeepView for GroupMember {
    type V = GroupMemberView;

    open spec fn deep_view(&self) -> GroupMemberView {
        self@
    }
}

impl Clone for GroupMember {
    fn clone(&self) -> (r: Self)
        ensures
            r@ == self@,
    {
        GroupMember {
            id: self.id,
            group_id: self.group_id,
            user_id: self.user_id,
            role: self.role.clone(),
            joined_at: self.joined_at,
        }
    }
}

/// A bearer-token link that gives one level on one document to whoever presents the token.
#[derive(Debug)]
pub struct ShareLink {
    pub id: u128,
    pub document_id: u128,
    /// The secret that redeems the link.
    pub token: String,
    pub created_by: u128,
    /// The name of the level that a redeemer receives.
    pub permission: String,
    /// The one-way hash of the link's password, if it has one.
    pub password_hash: Option<String>,
    /// The number of redemptions after which the link is used up, if capped.
    pub max_access_count: Option<i32>,
    /// The number of redemptions so far.
    pub access_count: i32,
    pub expires_at: Option<i64>,
    pub created_at: i64,
}

/// The mathematical value of a [`ShareLink`].
pub struct ShareLinkView {
    pub id: u128,
    pub document_id: u128,
    pub token: Seq<char>,
    pub created_by: u128,
    pub permission: Seq<char>,
    pub password_hash: Option<Seq<char>>,
    pub max_access_count: Option<i32>,
    pub access_count: i32,
    pub expires_at: Option<i64>,
    pub created_at: i64,
}

impl View for ShareLink {
    type V = ShareLinkView;

    open spec fn view(&self) -> ShareLinkView {
        ShareLinkView {
            id: self.id,
            document_id: self.document_id,
            token: self.token.deep_view(),
            created_by: self.created_by,
            permission: self.permission.deep_view(),
            password_hash: self.password_hash.deep_view(),
            max_access_count: self.max_access_count,
            access_count: self.access_count,
            expires_at: self.expires_at,
            created_at: self.created_at,
        }
    }
}

impl DeepView for ShareLink {
    type V = ShareLinkView;

    open spec fn deep_view(&self) -> ShareLinkView {
        self@
    }
}

impl Clone for ShareLink {
    fn clone(&self) -> (r: Self)
        ensures
            r@ == self@,
    {
        ShareLink {
            id: self.id,
            document_id: self.document_id,
            token: self.token.clone(),
            created_by: self.created_by,
            permission: self.permission.clone(),
            password_hash: clone_opt_text(&self.password_hash),
            max_access_count: self.max_access_count,
            access_count: self.access_count,
            expires_at: self.expires_at,
            created_at: self.created_at,
        }
    }
}

/// A share link before the store has given it an identifier, a counter and a time.
#[derive(Debug)]
pub struct NewShareLink {
    pub document_id: u128,
    pub token: String,
    pub created_by: u128,
    pub permission: String,
    pub password_hash: Option<String>,
    pub max_access_count: Option<i32>,
    pub expires_at: Option<i64>,
}

/// The mathematical value of a [`NewShareLink`].
pub struct NewShareLinkView {
    pub document_id: u128,
    pub token: Seq<char>,
    pub created_by: u128,
    pub permission: Seq<char>,
    pub password_hash: Option<Seq<char>>,
    pub max_access_count: Option<i32>,
    pub expires_at: Option<i64>,
}

impl View for NewShareLink {
    type V = NewShareLinkView;

    open spec fn view(&self) -> NewShareLinkView {
        NewShareLinkView {
            document_id: self.document_id,
            token: self.token.deep_view(),
            created_by: self.created_by,
            permission: self.permission.deep_view(),
            password_hash: self.password_hash.deep_view(),
            max_access_count: self.max_access_count,
            expires_at: self.expires_at,
        }
    }
}

impl DeepView for NewShareLink {
    type V = NewShareLinkView;

    open spec fn deep_view(&self) -> NewShareLinkView {
        self@
    }
}

impl Clone for NewShareLink {
    fn clone(&self) -> (r: Self)
        ensures
            r@ == self@,
    {
        NewShareLink {
            document_id: self.document_id,
            token: self.token.clone(),
            created_by: self.created_by,
            permission: self.permission.clone(),
            password_hash: clone_opt_text(&self.password_hash),
            max_access_count: self.max_access_count,
            expires_at: self.expires_at,
        }
    }
}

/// The body of a request for a new share link.
#[derive(Debug)]
pub struct CreateShareLinkRequest {
    pub permission: PermissionType,
    pub password: Option<String>,
    pub max_access_count: Option<i32>,
    pub expires_at: Option<i64>,
}

/// The mathematical value of a [`CreateShareLinkRequest`].
pub struct CreateShareLinkRequestView {
    pub permission: PermissionType,
    pub password: Option<Seq<char>>,
    pub max_access_count: Option<i32>,
    pub expires_at: Option<i64>,
}

impl View for CreateShareLinkRequest {
    type V = CreateShareLinkRequestView;

    open spec fn view(&self) -> CreateShareLinkRequestView {
        CreateShareLinkRequestView {
            permission: self.permission,
            password: self.password.deep_view(),
            max_access_count: self.max_access_count,
            expires_at: self.expires_at,
        }
    }
}

impl DeepView for CreateShareLinkRequest {
    type V = CreateShareLinkRequestView;

    open spec fn deep_view(&self) -> CreateShareLinkRequestView {
        self@
    }
}

impl Clone for CreateShareLinkRequest {
    fn clone(&self) -> (r: Self)
        ensures
            r@ == self@,
    {
        CreateShareLinkRequest {
            permission: self.permission,
            password: clone_opt_text(&self.password),
            max_access_count: self.max_access_count,
            expires_at: self.expires_at,
        }
    }
}

impl DocumentPermission {
    /// The level that the row grants, if its text names one.
    pub fn permission_type(&self) -> (r: Option<PermissionType>)
        ensures
            r == PermissionType::named_by(self@.permission),
            is_ascii_text(self@.permission) ==> r == PermissionType::parse(
                ascii_lowercase(self@.permission),
            ),
    {
        PermissionType::from_str(self.permission.as_str())
    }
}

impl ShareLink {
    /// The level that the link gives, if its text names one.
    pub fn permission_type(&self) -> (r: Option<PermissionType>)
        ensures
            r == PermissionType::named_by(self@.permission),
            is_ascii_text(self@.permission) ==> r == PermissionType::parse(
                ascii_lowercase(self@.permission),
            ),
    {
        PermissionType::from_str(self.permission.as_str())
    }
}

/// The body of a request that grants a level to a user.
#[derive(Debug, Clone, Copy)]
pub struct GrantPermissionRequest {
    pub user_id: u128,
    pub permission: PermissionType,
    /// `None` for a grant that does not expire.
    pub expires_at: Option<i64>,
}

/// A level's name names that level and no other.
pub proof fn lemma_name_parses(level: PermissionType)
    ensures
        PermissionType::parse(level.name()) == Some(level),
{
    let r = PermissionType::Read.name();
    let w = PermissionType::Write.name();
    let d = PermissionType::Delete.name();
    let s = PermissionType::Share.name();
    let a = PermissionType::Admin.name();
    assert(r.len() == 4 && w.len() == 5 && d.len() == 6 && s.len() == 5 && a.len() == 5);
    assert(w[0] == 'w' && s[0] == 's' && a[0] == 'a');
}

/// The name under which a level is stored is a text of lower-case ASCII
/// letters: brought to lower case it is itself, and it reads back as its
/// level.
pub proof fn lemma_name_reads_back(level: PermissionType)
    ensures
        is_ascii_text(level.name()),
        ascii_lowercase(level.name()) == level.name(),
        PermissionType::parse(ascii_lowercase(level.name())) == Some(level),
{
    lemma_name_parses(level);
    assert(ascii_lowercase(level.name()) =~= level.name());
}

/// Two levels with the same name are the same level.
pub proof fn lemma_name_injective(a: PermissionType, b: PermissionType)
    requires
        a.name() == b.name(),
    ensures
        a == b,
{
    lemma_name_parses(a);
    lemma_name_parses(b);
}

} // verus!
