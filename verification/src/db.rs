//! The store: the persistent relations of the backend, held as tables of rows.
//!
//! A table keeps its rows in the order in which they were inserted. No
//! operation of this crate keeps a copy of a row between two calls: every
//! decision reads the store it is handed.

use vstd::prelude::*;
use crate::models::document::{Document, DocumentVersion, DocumentVersionView, DocumentView};
use crate::models::permission::{
    DocumentPermission, DocumentPermissionView, GroupMember, GroupMemberView, GroupPermission,
    GroupPermissionView, ShareLink, ShareLinkView,
};
use crate::models::user::{User, UserView};
use crate::text::str_eq;

verus! {

/// The tables of the store.
pub struct Database {
    pub users: Vec<User>,
    pub documents: Vec<Document>,
    pub document_versions: Vec<DocumentVersion>,
    pub document_permissions: Vec<DocumentPermission>,
    pub group_permissions: Vec<GroupPermission>,
    pub group_members: Vec<GroupMember>,
    pub share_links: Vec<ShareLink>,
}

/// The mathematical value of a [`Database`]: each table as a sequence of row
/// values.
pub struct DatabaseView {
    pub users: Seq<UserView>,
    pub documents: Seq<DocumentView>,
    pub document_versions: Seq<DocumentVersionView>,
    pub document_permissions: Seq<DocumentPermissionView>,
    pub group_permissions: Seq<GroupPermissionView>,
    pub group_members: Seq<GroupMemberView>,
    pub share_links: Seq<ShareLinkView>,
}

impl View for Database {
    type V = DatabaseView;

    open spec fn view(&self) -> DatabaseView {
        DatabaseView {
            users: self.users.deep_view(),
            documents: self.documents.deep_view(),
            document_versions: self.document_versions.deep_view(),
            document_permissions: self.document_permissions.deep_view(),
            group_permissions: self.group_permissions.deep_view(),
            group_members: self.group_members.deep_view(),
            share_links: self.share_links.deep_view(),
        }
    }
}

/// `i` is the place of the first row of `rows` that satisfies `wanted`.
pub open spec fn is_first_match<T>(rows: Seq<T>, wanted: spec_fn(T) -> bool, i: int) -> bool {
    &&& 0 <= i < rows.len()
    &&& wanted(rows[i])
    &&& forall|j: int| 0 <= j < i ==> !wanted(#[trigger] rows[j])
}

/// Some row of `rows` satisfies `wanted`.
pub open spec fn has_match<T>(rows: Seq<T>, wanted: spec_fn(T) -> bool) -> bool {
    exists|i: int| 0 <= i < rows.len() && wanted(#[trigger] rows[i])
}

/// The place of the first row of `rows` that satisfies `wanted`, where there
/// is one.
pub open spec fn first_index<T>(rows: Seq<T>, wanted: spec_fn(T) -> bool) -> int {
    choose|i: int| is_first_match(rows, wanted, i)
}

/// The first row of `rows` that satisfies `wanted`, if there is one.
pub open spec fn first_row<T>(rows: Seq<T>, wanted: spec_fn(T) -> bool) -> Option<T> {
    if has_match(rows, wanted) {
        Some(rows[first_index(rows, wanted)])
    } else {
        None
    }
}

/// A table has at most one first match: a place that is one is the place
/// that [`first_index`] names, and the table has a match.
pub proof fn lemma_first_index<T>(rows: Seq<T>, wanted: spec_fn(T) -> bool, i: int)
    requires
        is_first_match(rows, wanted, i),
    ensures
        has_match(rows, wanted),
        first_index(rows, wanted) == i,
        first_row(rows, wanted) == Some(rows[i]),
{
    let k = first_index(rows, wanted);
    assert(is_first_match(rows, wanted, k));
    if k < i {
        assert(!wanted(rows[k]));
    }
    if i < k {
        assert(!wanted(rows[i]));
    }
}

/// A table with a match has a first match.
pub proof fn lemma_has_first_match<T>(rows: Seq<T>, wanted: spec_fn(T) -> bool)
    requires
        has_match(rows, wanted),
    ensures
        is_first_match(rows, wanted, first_index(rows, wanted)),
    decreases rows.len(),
{
    let w = choose|i: int| 0 <= i < rows.len() && wanted(#[trigger] rows[i]);
    lemma_first_match_below(rows, wanted, w);
}

/// Below any match lies a first match.
proof fn lemma_first_match_below<T>(rows: Seq<T>, wanted: spec_fn(T) -> bool, w: int)
    requires
        0 <= w < rows.len(),
        wanted(rows[w]),
    ensures
        exists|i: int| is_first_match(rows, wanted, i),
    decreases w,
{
    if exists|j: int| 0 <= j < w && wanted(#[trigger] rows[j]) {
        let j = choose|j: int| 0 <= j < w && wanted(#[trigger] rows[j]);
        lemma_first_match_below(rows, wanted, j);
    } else {
        assert(is_first_match(rows, wanted, w));
    }
}

impl DatabaseView {
    /// The store without any row.
    pub open spec fn empty() -> DatabaseView {
        DatabaseView {
            users: Seq::empty(),
            documents: Seq::empty(),
            document_versions: Seq::empty(),
            document_permissions: Seq::empty(),
            group_permissions: Seq::empty(),
            group_members: Seq::empty(),
            share_links: Seq::empty(),
        }
    }

    /// The first document with the identifier, if the store holds one.
    pub open spec fn find_document(self, id: u128) -> Option<DocumentView> {
        first_row(self.documents, |d: DocumentView| d.id == id)
    }

    /// The first share link with the token, if the store holds one.
    pub open spec fn find_share_link_by_token(self, token: Seq<char>) -> Option<ShareLinkView> {
        first_row(self.share_links, |l: ShareLinkView| l.token == token)
    }

    /// The first share link with the identifier, if the store holds one.
    pub open spec fn find_share_link(self, id: u128) -> Option<ShareLinkView> {
        first_row(self.share_links, |l: ShareLinkView| l.id == id)
    }

    /// The first account with the name, if the store holds one.
    pub open spec fn find_user_by_username(self, username: Seq<char>) -> Option<UserView> {
        first_row(self.users, |u: UserView| u.username == username)
    }

    /// The first account with the identifier, if the store holds one.
    pub open spec fn find_user(self, id: u128) -> Option<UserView> {
        first_row(self.users, |u: UserView| u.id == id)
    }
}

impl Database {
    /// A store without any row.
    pub fn new() -> (db: Database)
        ensures
            db@ == DatabaseView::empty(),
    {
        let db = Database {
            users: Vec::new(),
            documents: Vec::new(),
            document_versions: Vec::new(),
            document_permissions: Vec::new(),
            group_permissions: Vec::new(),
            group_members: Vec::new(),
            share_links: Vec::new(),
        };
        assert(db@.users =~= Seq::empty());
        assert(db@.documents =~= Seq::empty());
        assert(db@.document_versions =~= Seq::empty());
        assert(db@.document_permissions =~= Seq::empty());
        assert(db@.group_permissions =~= Seq::empty());
        assert(db@.group_members =~= Seq::empty());
        assert(db@.share_links =~= Seq::empty());
        db
    }

    /// The place of the first document with the identifier.
    pub fn document_index(&self, id: u128) -> (r: Option<usize>)
        ensures
            match r {
                Some(i) => is_first_match(self@.documents, |d: DocumentView| d.id == id, i as int),
                None => !has_match(self@.documents, |d: DocumentView| d.id == id),
            },
    {
        let ghost wanted = |d: DocumentView| d.id == id;
        let mut i: usize = 0;
        while i < self.documents.len()
            invariant
                i <= self.documents.len(),
                wanted == (|d: DocumentView| d.id == id),
                forall|j: int| 0 <= j < i ==> !wanted(#[trigger] self@.documents[j]),
            decreases self.documents.len() - i,
        {
            if self.documents[i].id == id {
                assert(wanted(self@.documents[i as int]));
                return Some(i);
            }
            assert(!wanted(self@.documents[i as int]));
            i += 1;
        }
        None
    }

    /// The place of the first share link with the token.
    pub fn share_link_index_by_token(&self, token: &str) -> (r: Option<usize>)
        ensures
            match r {
                Some(i) => is_first_match(
                    self@.share_links,
                    |l: ShareLinkView| l.token == token@,
                    i as int,
                ),
                None => !has_match(self@.share_links, |l: ShareLinkView| l.token == token@),
            },
    {
        let ghost wanted = |l: ShareLinkView| l.token == token@;
        let mut i: usize = 0;
        while i < self.share_links.len()
            invariant
                i <= self.share_links.len(),
                wanted == (|l: ShareLinkView| l.token == token@),
                forall|j: int| 0 <= j < i ==> !wanted(#[trigger] self@.share_links[j]),
            decreases self.share_links.len() - i,
        {
            if str_eq(self.share_links[i].token.as_str(), token) {
                assert(wanted(self@.share_links[i as int]));
                return Some(i);
            }
            assert(!wanted(self@.share_links[i as int]));
            i += 1;
        }
        None
    }

    /// The place of the first share link with the identifier.
    pub fn share_link_index(&self, id: u128) -> (r: Option<usize>)
        ensures
            match r {
                Some(i) => is_first_match(self@.share_links, |l: ShareLinkView| l.id == id, i as int),
                None => !has_match(self@.share_links, |l: ShareLinkView| l.id == id),
            },
    {
        let ghost wanted = |l: ShareLinkView| l.id == id;
        let mut i: usize = 0;
        while i < self.share_links.len()
            invariant
                i <= self.share_links.len(),
                wanted == (|l: ShareLinkView| l.id == id),
                forall|j: int| 0 <= j < i ==> !wanted(#[trigger] self@.share_links[j]),
            decreases self.share_links.len() - i,
        {
            if self.share_links[i].id == id {
                assert(wanted(self@.share_links[i as int]));
                return Some(i);
            }
            assert(!wanted(self@.share_links[i as int]));
            i += 1;
        }
        None
    }

    /// The place of the first account with the name.
    pub fn user_index_by_username(&self, username: &str) -> (r: Option<usize>)
        ensures
            match r {
                Some(i) => is_first_match(
                    self@.users,
                    |u: UserView| u.username == username@,
                    i as int,
                ),
                None => !has_match(self@.users, |u: UserView| u.username == username@),
            },
    {
        let ghost wanted = |u: UserView| u.username == username@;
        let mut i: usize = 0;
        while i < self.users.len()
            invariant
                i <= self.users.len(),
                wanted == (|u: UserView| u.username == username@),
                forall|j: int| 0 <= j < i ==> !wanted(#[trigger] self@.users[j]),
            decreases self.users.len() - i,
        {
            if str_eq(self.users[i].username.as_str(), username) {
                assert(wanted(self@.users[i as int]));
                return Some(i);
            }
            assert(!wanted(self@.users[i as int]));
            i += 1;
        }
        None
    }

    /// The place of the first account with the identifier.
    pub fn user_index(&self, id: u128) -> (r: Option<usize>)
        ensures
            match r {
                Some(i) => is_first_match(self@.users, |u: UserView| u.id == id, i as int),
                None => !has_match(self@.users, |u: UserView| u.id == id),
            },
    {
        let ghost wanted = |u: UserView| u.id == id;
        let mut i: usize = 0;
        while i < self.users.len()
            invariant
                i <= self.users.len(),
                wanted == (|u: UserView| u.id == id),
                forall|j: int| 0 <= j < i ==> !wanted(#[trigger] self@.users[j]),
            decreases self.users.len() - i,
        {
            if self.users[i].id == id {
                assert(wanted(self@.users[i as int]));
                return Some(i);
            }
            assert(!wanted(self@.users[i as int]));
            i += 1;
        }
        None
    }

    /// A copy of the first document with the identifier.
    pub fn find_document(&self, id: u128) -> (r: Option<Document>)
        ensures
            r.deep_view() == self@.find_document(id),
    {
        match self.document_index(id) {
            Some(i) => {
                proof {
                    lemma_first_index(self@.documents, |d: DocumentView| d.id == id, i as int);
                }
                Some(self.documents[i].clone())
            },
            None => None,
        }
    }
}

} // verus!
