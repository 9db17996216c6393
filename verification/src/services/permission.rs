//! The permission resolver, the grant table and the authorization gateway.
//!
//! A check succeeds on exactly three grounds, tried in this order: the
//! principal owns the document; a live direct grant of the very level asked
//! for exists; a live grant of that level exists for a group the principal
//! belongs to. No level implies another.

use vstd::prelude::*;
use vstd::string::StringExecFns;
use crate::db::{has_match, Database, DatabaseView};
use crate::error::{AppError, AppErrorView};
use crate::models::document::DocumentView;
use crate::models::permission::{
    lemma_name_injective, DocumentPermission, DocumentPermissionView, GroupMemberView,
    GroupPermissionView, PermissionType,
};
use crate::text::{ascii_lowercase, is_ascii_text, str_eq};

verus! {

/// An expiry that lies after `now`, or no expiry at all. A grant that
/// expires at `now` itself is no longer live.
pub open spec fn is_live(expires_at: Option<i64>, now: i64) -> bool {
    match expires_at {
        Some(t) => t > now,
        None => true,
    }
}

/// The document row makes `user_id` the owner of `document_id`.
pub open spec fn owns(d: DocumentView, user_id: u128, document_id: u128) -> bool {
    d.id == document_id && d.owner_id == user_id
}

/// The row is a direct grant of exactly `level` on `document_id` to
/// `user_id`, whatever its expiry.
pub open spec fn grants_level(
    g: DocumentPermissionView,
    user_id: u128,
    document_id: u128,
    level: PermissionType,
) -> bool {
    g.document_id == document_id && g.user_id == user_id && g.permission == level.name()
}

/// The row is a direct grant of exactly `level` on `document_id` to
/// `user_id` that is live at `now`.
pub open spec fn confers(
    g: DocumentPermissionView,
    user_id: u128,
    document_id: u128,
    level: PermissionType,
    now: i64,
) -> bool {
    grants_level(g, user_id, document_id, level) && is_live(g.expires_at, now)
}

/// The row is a direct grant on `document_id` to `user_id`, of whatever
/// level, that is live at `now`.
pub open spec fn is_listed_grant(
    g: DocumentPermissionView,
    user_id: u128,
    document_id: u128,
    now: i64,
) -> bool {
    g.document_id == document_id && g.user_id == user_id && is_live(g.expires_at, now)
}

/// The row is a grant of exactly `level` on `document_id` to some group,
/// live at `now`.
pub open spec fn group_confers(
    g: GroupPermissionView,
    document_id: u128,
    level: PermissionType,
    now: i64,
) -> bool {
    g.document_id == document_id && g.permission == level.name() && is_live(g.expires_at, now)
}

/// The row makes `user_id` a member of `group_id`.
pub open spec fn joins(m: GroupMemberView, user_id: u128, group_id: u128) -> bool {
    m.group_id == group_id && m.user_id == user_id
}

/// The level that an action keyword asks for, if the keyword is known.
pub open spec fn required_level(action: Seq<char>) -> Option<PermissionType> {
    if action == "read"@ || action == "view"@ || action == "download"@ {
        Some(PermissionType::Read)
    } else if action == "edit"@ || action == "update"@ || action == "upload"@ {
        Some(PermissionType::Write)
    } else if action == "delete"@ {
        Some(PermissionType::Delete)
    } else if action == "share"@ {
        Some(PermissionType::Share)
    } else if action == "admin"@ || action == "permissions"@ {
        Some(PermissionType::Admin)
    } else {
        None
    }
}

/// The row that a grant adds to the table.
pub open spec fn granted_row(
    new_id: u128,
    document_id: u128,
    user_id: u128,
    level: PermissionType,
    granted_by: u128,
    expires_at: Option<i64>,
    now: i64,
) -> DocumentPermissionView {
    DocumentPermissionView {
        id: new_id,
        document_id,
        user_id,
        permission: level.name(),
        granted_by,
        granted_at: now,
        expires_at,
    }
}

/// Some row of the table of documents makes `user_id` the owner of
/// `document_id`.
pub open spec fn owner_in(documents: Seq<DocumentView>, user_id: u128, document_id: u128) -> bool {
    exists|i: int| 0 <= i < documents.len() && owns(#[trigger] documents[i], user_id, document_id)
}

/// Some row of the table of direct grants confers `level` on `document_id`
/// to `user_id` at `now`.
pub open spec fn direct_grant_in(
    grants: Seq<DocumentPermissionView>,
    user_id: u128,
    document_id: u128,
    level: PermissionType,
    now: i64,
) -> bool {
    exists|i: int|
        0 <= i < grants.len() && confers(#[trigger] grants[i], user_id, document_id, level, now)
}

/// Some row of the table of memberships makes `user_id` a member of
/// `group_id`.
pub open spec fn member_in(members: Seq<GroupMemberView>, user_id: u128, group_id: u128) -> bool {
    exists|j: int| 0 <= j < members.len() && joins(#[trigger] members[j], user_id, group_id)
}

/// Some row of the table of group grants confers `level` on `document_id`
/// at `now` to a group that `user_id` is a member of.
pub open spec fn group_grant_in(
    grants: Seq<GroupPermissionView>,
    members: Seq<GroupMemberView>,
    user_id: u128,
    document_id: u128,
    level: PermissionType,
    now: i64,
) -> bool {
    exists|i: int|
        0 <= i < grants.len() && group_confers(#[trigger] grants[i], document_id, level, now)
            && member_in(members, user_id, grants[i].group_id)
}

impl DatabaseView {
    /// Some document row with the identifier has `user_id` as its owner.
    pub open spec fn is_owner(self, user_id: u128, document_id: u128) -> bool {
        owner_in(self.documents, user_id, document_id)
    }

    /// A direct grant of exactly `level`, live at `now`, exists for the user
    /// on the document.
    pub open spec fn has_direct_grant(
        self,
        user_id: u128,
        document_id: u128,
        level: PermissionType,
        now: i64,
    ) -> bool {
        direct_grant_in(self.document_permissions, user_id, document_id, level, now)
    }

    /// The user belongs to the group.
    pub open spec fn is_member(self, user_id: u128, group_id: u128) -> bool {
        member_in(self.group_members, user_id, group_id)
    }

    /// A grant of exactly `level` on the document, live at `now`, exists for
    /// a group that the user belongs to.
    pub open spec fn has_group_grant(
        self,
        user_id: u128,
        document_id: u128,
        level: PermissionType,
        now: i64,
    ) -> bool {
        group_grant_in(
            self.group_permissions,
            self.group_members,
            user_id,
            document_id,
            level,
            now,
        )
    }

    /// The decision of the resolver: the user owns the document, or holds a
    /// live direct grant of the level, or a live group grant of it.
    pub open spec fn has_permission(
        self,
        user_id: u128,
        document_id: u128,
        level: PermissionType,
        now: i64,
    ) -> bool {
        ||| self.is_owner(user_id, document_id)
        ||| self.has_direct_grant(user_id, document_id, level, now)
        ||| self.has_group_grant(user_id, document_id, level, now)
    }

    /// The levels of the user's live direct grants on the document, in the
    /// order of the table, one entry for each row whose text names a level.
    /// Ownership and group grants add nothing here.
    pub open spec fn listed_permissions(
        self,
        user_id: u128,
        document_id: u128,
        now: i64,
    ) -> Seq<PermissionType> {
        self.document_permissions.filter_map(
            |g: DocumentPermissionView|
                if g.document_id == document_id && g.user_id == user_id && is_live(
                    g.expires_at,
                    now,
                ) {
                    PermissionType::named_by(g.permission)
                } else {
                    None
                },
        )
    }

    /// The live direct grants of the user on the document all carry a text of
    /// ASCII characters.
    pub open spec fn grants_are_ascii(self, user_id: u128, document_id: u128, now: i64) -> bool {
        forall|i: int|
            0 <= i < self.document_permissions.len() && is_listed_grant(
                #[trigger] self.document_permissions[i],
                user_id,
                document_id,
                now,
            ) ==> is_ascii_text(self.document_permissions[i].permission)
    }

    /// The levels of the user's live direct grants on the document, each
    /// read from its text with the ASCII letters brought to lower case.
    pub open spec fn listed_ascii_permissions(
        self,
        user_id: u128,
        document_id: u128,
        now: i64,
    ) -> Seq<PermissionType> {
        self.document_permissions.filter_map(
            |g: DocumentPermissionView|
                if g.document_id == document_id && g.user_id == user_id && is_live(
                    g.expires_at,
                    now,
                ) {
                    PermissionType::parse(ascii_lowercase(g.permission))
                } else {
                    None
                },
        )
    }

    /// The store with one more direct grant at the end of its table.
    pub open spec fn with_grant(self, row: DocumentPermissionView) -> DatabaseView {
        DatabaseView { document_permissions: self.document_permissions.push(row), ..self }
    }

    /// The store without the direct grants of exactly `level` to the user on
    /// the document; every other row stays, in its order.
    pub open spec fn without_grants(
        self,
        document_id: u128,
        user_id: u128,
        level: PermissionType,
    ) -> DatabaseView {
        DatabaseView {
            document_permissions: self.document_permissions.filter(
                |g: DocumentPermissionView| !grants_level(g, user_id, document_id, level),
            ),
            ..self
        }
    }

    /// Whether the user may perform the action: `BadRequest` for an unknown
    /// action, `NotFound` where no document has the identifier, and the
    /// resolver's answer for the level of the action otherwise.
    pub open spec fn action_decision(
        self,
        user_id: u128,
        document_id: u128,
        action: Seq<char>,
        now: i64,
    ) -> Result<bool, AppErrorView> {
        match required_level(action) {
            None => Err(AppErrorView::BadRequest("Unknown action: "@ + action)),
            Some(level) => if !has_match(self.documents, |d: DocumentView| d.id == document_id) {
                Err(AppErrorView::NotFound("Resource not found"@))
            } else {
                Ok(self.has_permission(user_id, document_id, level, now))
            },
        }
    }

    /// What the gateway answers: `BadRequest` for an unknown action,
    /// `NotFound` for an absent document, `Forbidden` where the resolver
    /// denies, and success otherwise.
    pub open spec fn authorization(
        self,
        user_id: u128,
        document_id: u128,
        action: Seq<char>,
        now: i64,
    ) -> Result<(), AppErrorView> {
        match required_level(action) {
            None => Err(AppErrorView::BadRequest("Unknown action: "@ + action)),
            Some(level) => if !has_match(self.documents, |d: DocumentView| d.id == document_id) {
                Err(AppErrorView::NotFound("Resource not found"@))
            } else if !self.has_permission(user_id, document_id, level, now) {
                Err(AppErrorView::Forbidden("Permission denied"@))
            } else {
                Ok(())
            },
        }
    }
}

/// The resolver and the operations on the grant table.
pub struct PermissionService;

impl PermissionService {
    /// Whether the user owns the document.
    pub fn is_owner(conn: &Database, user_id: u128, document_id: u128) -> (r: bool)
        ensures
            r == conn@.is_owner(user_id, document_id),
    {
        let mut i: usize = 0;
        while i < conn.documents.len()
            invariant
                i <= conn.documents.len(),
                forall|j: int| 0 <= j < i ==> !owns(#[trigger] conn@.documents[j], user_id, document_id),
            decreases conn.documents.len() - i,
        {
            let d = &conn.documents[i];
            if d.id == document_id && d.owner_id == user_id {
                assert(owns(conn@.documents[i as int], user_id, document_id));
                return true;
            }
            i += 1;
        }
        false
    }

    /// Whether a live direct grant of exactly the level exists.
    pub fn has_direct_grant(
        conn: &Database,
        user_id: u128,
        document_id: u128,
        level: PermissionType,
        now: i64,
    ) -> (r: bool)
        ensures
            r == conn@.has_direct_grant(user_id, document_id, level, now),
    {
        let name = level.as_str();
        let mut i: usize = 0;
        while i < conn.document_permissions.len()
            invariant
                i <= conn.document_permissions.len(),
                name@ == level.name(),
                forall|j: int|
                    0 <= j < i ==> !confers(
                        #[trigger] conn@.document_permissions[j],
                        user_id,
                        document_id,
                        level,
                        now,
                    ),
            decreases conn.document_permissions.len() - i,
        {
            let g = &conn.document_permissions[i];
            if g.document_id == document_id && g.user_id == user_id && str_eq(
                g.permission.as_str(),
                name,
            ) && live(g.expires_at, now) {
                assert(confers(conn@.document_permissions[i as int], user_id, document_id, level, now));
                return true;
            }
            i += 1;
        }
        false
    }

    /// Whether the user belongs to the group.
    pub fn is_member(conn: &Database, user_id: u128, group_id: u128) -> (r: bool)
        ensures
            r == conn@.is_member(user_id, group_id),
    {
        let mut j: usize = 0;
        while j < conn.group_members.len()
            invariant
                j <= conn.group_members.len(),
                forall|k: int| 0 <= k < j ==> !joins(#[trigger] conn@.group_members[k], user_id, group_id),
            decreases conn.group_members.len() - j,
        {
            let m = &conn.group_members[j];
            if m.group_id == group_id && m.user_id == user_id {
                assert(joins(conn@.group_members[j as int], user_id, group_id));
                return true;
            }
            j += 1;
        }
        false
    }

    /// Whether a live grant of exactly the level exists for one of the
    /// user's groups.
    pub fn has_group_grant(
        conn: &Database,
        user_id: u128,
        document_id: u128,
        level: PermissionType,
        now: i64,
    ) -> (r: bool)
        ensures
            r == conn@.has_group_grant(user_id, document_id, level, now),
    {
        let name = level.as_str();
        let mut i: usize = 0;
        while i < conn.group_permissions.len()
            invariant
                i <= conn.group_permissions.len(),
                name@ == level.name(),
                forall|j: int|
                    0 <= j < i ==> !(group_confers(
                        #[trigger] conn@.group_permissions[j],
                        document_id,
                        level,
                        now,
                    ) && member_in(conn@.group_members, user_id, conn@.group_permissions[j].group_id)),
            decreases conn.group_permissions.len() - i,
        {
            let g = &conn.group_permissions[i];
            if g.document_id == document_id && str_eq(g.permission.as_str(), name) && live(
                g.expires_at,
                now,
            ) && PermissionService::is_member(conn, user_id, g.group_id) {
                assert(group_confers(conn@.group_permissions[i as int], document_id, level, now));
                return true;
            }
            i += 1;
        }
        false
    }

    /// Decides whether the user holds the level on the document at `now`.
    /// The store is not changed.
    pub fn check_permission(
        conn: &Database,
        user_id: u128,
        document_id: u128,
        required_permission: PermissionType,
        now: i64,
    ) -> (allowed: bool)
        ensures
            allowed == conn@.has_permission(user_id, document_id, required_permission, now),
    {
        if PermissionService::is_owner(conn, user_id, document_id) {
            return true;
        }
        if PermissionService::has_direct_grant(conn, user_id, document_id, required_permission, now) {
            return true;
        }
        PermissionService::has_group_grant(conn, user_id, document_id, required_permission, now)
    }

    /// Decides whether the user holds `Admin` on the document at `now`.
    pub fn check_admin_permission(conn: &Database, user_id: u128, document_id: u128, now: i64) -> (allowed:
        bool)
        ensures
            allowed == conn@.has_permission(user_id, document_id, PermissionType::Admin, now),
    {
        PermissionService::check_permission(conn, user_id, document_id, PermissionType::Admin, now)
    }

    /// The levels of the user's live direct grants on the document, one for
    /// each row whose text names a level, in the order of the table. Where
    /// the texts are ASCII, as all that this crate writes are, each is read
    /// with its letters brought to lower case.
    pub fn get_user_permissions(conn: &Database, usr_id: u128, doc_id: u128, now: i64) -> (perms: Vec<
        PermissionType,
    >)
        ensures
            perms@ == conn@.listed_permissions(usr_id, doc_id, now),
            conn@.grants_are_ascii(usr_id, doc_id, now) ==> perms@
                == conn@.listed_ascii_permissions(usr_id, doc_id, now),
    {
        let ghost rows = conn@.document_permissions;
        let ghost pick = |g: DocumentPermissionView|
            if g.document_id == doc_id && g.user_id == usr_id && is_live(g.expires_at, now) {
                PermissionType::named_by(g.permission)
            } else {
                None
            };
        let ghost plain = |g: DocumentPermissionView|
            if g.document_id == doc_id && g.user_id == usr_id && is_live(g.expires_at, now) {
                PermissionType::parse(ascii_lowercase(g.permission))
            } else {
                None
            };
        let mut perms: Vec<PermissionType> = Vec::new();
        let mut i: usize = 0;
        assert(rows.take(0).filter_map(pick) =~= Seq::empty());
        assert(rows.take(0).filter_map(plain) =~= Seq::empty());
        while i < conn.document_permissions.len()
            invariant
                i <= conn.document_permissions.len(),
                rows == conn@.document_permissions,
                pick == (|g: DocumentPermissionView|
                    if g.document_id == doc_id && g.user_id == usr_id && is_live(g.expires_at, now) {
                        PermissionType::named_by(g.permission)
                    } else {
                        None
                    }),
                plain == (|g: DocumentPermissionView|
                    if g.document_id == doc_id && g.user_id == usr_id && is_live(g.expires_at, now) {
                        PermissionType::parse(ascii_lowercase(g.permission))
                    } else {
                        None
                    }),
                perms@ == rows.take(i as int).filter_map(pick),
                (forall|j: int|
                    0 <= j < i && is_listed_grant(#[trigger] rows[j], usr_id, doc_id, now)
                        ==> is_ascii_text(rows[j].permission)) ==> perms@ == rows.take(
                    i as int,
                ).filter_map(plain),
            decreases conn.document_permissions.len() - i,
        {
            let g = &conn.document_permissions[i];
            proof {
                rows.lemma_filter_map_take_succ(pick, i as int);
                rows.lemma_filter_map_take_succ(plain, i as int);
            }
            if g.document_id == doc_id && g.user_id == usr_id && live(g.expires_at, now) {
                assert(is_listed_grant(rows[i as int], usr_id, doc_id, now));
                match g.permission_type() {
                    Some(p) => {
                        perms.push(p);
                    },
                    None => {},
                }
            }
            i += 1;
        }
        assert(rows.take(rows.len() as int) =~= rows);
        perms
    }

    /// Adds a direct grant of `perm` on `doc_id` to `usr_id`. The store
    /// gives the row the identifier `new_id` and the time `now`. An earlier
    /// grant of the same level is kept beside the new one.
    pub fn grant_permission(
        conn: &mut Database,
        doc_id: u128,
        usr_id: u128,
        perm: PermissionType,
        granter_id: u128,
        exp_at: Option<i64>,
        new_id: u128,
        now: i64,
    ) -> (row: DocumentPermission)
        ensures
            row@ == granted_row(new_id, doc_id, usr_id, perm, granter_id, exp_at, now),
            final(conn)@ == old(conn)@.with_grant(row@),
    {
        let row = DocumentPermission {
            id: new_id,
            document_id: doc_id,
            user_id: usr_id,
            permission: String::from_str(perm.as_str()),
            granted_by: granter_id,
            granted_at: now,
            expires_at: exp_at,
        };
        conn.document_permissions.push(row.clone());
        assert(conn@.document_permissions =~= old(conn)@.document_permissions.push(row@));
        row
    }

    /// Removes every direct grant of exactly `perm` on `doc_id` to `usr_id`,
    /// expired or not. No other row is touched.
    pub fn revoke_permission(conn: &mut Database, doc_id: u128, usr_id: u128, perm: PermissionType)
        ensures
            final(conn)@ == old(conn)@.without_grants(doc_id, usr_id, perm),
    {
        let ghost rows = conn@.document_permissions;
        let ghost keep = |g: DocumentPermissionView| !grants_level(g, usr_id, doc_id, perm);
        let name = perm.as_str();
        let mut kept: Vec<DocumentPermission> = Vec::new();
        let mut i: usize = 0;
        assert(rows.take(0) =~= Seq::empty());
        assert(rows.take(0).filter(keep) =~= Seq::empty()) by {
            reveal(Seq::filter);
        }
        while i < conn.document_permissions.len()
            invariant
                i <= conn.document_permissions.len(),
                name@ == perm.name(),
                *conn == *old(conn),
                rows == conn@.document_permissions,
                keep == (|g: DocumentPermissionView| !grants_level(g, usr_id, doc_id, perm)),
                kept.deep_view() == rows.take(i as int).filter(keep),
            decreases conn.document_permissions.len() - i,
        {
            let g = &conn.document_permissions[i];
            proof {
                rows.lemma_take_succ_push(i as int);
                rows.take(i as int).lemma_filter_push(rows[i as int], keep);
            }
            if !(g.document_id == doc_id && g.user_id == usr_id && str_eq(g.permission.as_str(), name)) {
                let ghost before = kept.deep_view();
                kept.push(g.clone());
                assert(kept.deep_view() =~= before.push(rows[i as int]));
            }
            i += 1;
        }
        assert(rows.take(rows.len() as int) =~= rows);
        conn.document_permissions = kept;
    }

    /// The level that an action keyword asks for.
    pub fn required_permission(action: &str) -> (level: Option<PermissionType>)
        ensures
            level == required_level(action@),
    {
        if str_eq(action, "read") || str_eq(action, "view") || str_eq(action, "download") {
            Some(PermissionType::Read)
        } else if str_eq(action, "edit") || str_eq(action, "update") || str_eq(action, "upload") {
            Some(PermissionType::Write)
        } else if str_eq(action, "delete") {
            Some(PermissionType::Delete)
        } else if str_eq(action, "share") {
            Some(PermissionType::Share)
        } else if str_eq(action, "admin") || str_eq(action, "permissions") {
            Some(PermissionType::Admin)
        } else {
            None
        }
    }

    /// Decides whether the user may perform the action on the document: the
    /// resolver's answer for the level that the action asks for. An unknown
    /// action is the caller's mistake and fails with `BadRequest`; a document
    /// that the store does not hold is `NotFound`, which is no denial.
    pub fn can_perform_action(
        conn: &Database,
        user_id: u128,
        document_id: u128,
        action: &str,
        now: i64,
    ) -> (r: Result<bool, AppError>)
        ensures
            match conn@.action_decision(user_id, document_id, action@, now) {
                Ok(allowed) => r == Ok::<bool, AppError>(allowed),
                Err(e) => r is Err && r->Err_0@ == e,
            },
    {
        match PermissionService::required_permission(action) {
            None => Err(AppError::BadRequest(String::from_str("Unknown action: ").concat(action))),
            Some(level) => {
                if conn.document_index(document_id).is_none() {
                    Err(AppError::NotFound(String::from_str("Resource not found")))
                } else {
                    Ok(PermissionService::check_permission(conn, user_id, document_id, level, now))
                }
            },
        }
    }

    /// The check that every operation on a document passes before it touches
    /// the store: succeeds where the user holds the level on the document,
    /// and fails with `Forbidden` and the given reason where not.
    pub fn require(
        conn: &Database,
        user_id: u128,
        document_id: u128,
        level: PermissionType,
        now: i64,
        reason: &str,
    ) -> (r: Result<(), AppError>)
        ensures
            conn@.has_permission(user_id, document_id, level, now) ==> r is Ok,
            !conn@.has_permission(user_id, document_id, level, now) ==> r is Err && r->Err_0@
                == AppErrorView::Forbidden(reason@),
    {
        if PermissionService::check_permission(conn, user_id, document_id, level, now) {
            Ok(())
        } else {
            Err(AppError::Forbidden(String::from_str(reason)))
        }
    }

    /// The gateway in front of every operation on a document: succeeds where
    /// the user may perform the action, and says why where not.
    pub fn authorize(
        conn: &Database,
        user_id: u128,
        document_id: u128,
        action: &str,
        now: i64,
    ) -> (r: Result<(), AppError>)
        ensures
            match conn@.authorization(user_id, document_id, action@, now) {
                Ok(_) => r is Ok,
                Err(e) => r is Err && r->Err_0@ == e,
            },
    {
        match PermissionService::can_perform_action(conn, user_id, document_id, action, now) {
            Ok(true) => Ok(()),
            Ok(false) => Err(AppError::Forbidden(String::from_str("Permission denied"))),
            Err(e) => Err(e),
        }
    }
}

/// The owner of a document holds every level on it, whatever the grant
/// tables say and whatever the time.
pub proof fn lemma_owner_holds_every_level(
    db: DatabaseView,
    user_id: u128,
    document_id: u128,
    level: PermissionType,
    now: i64,
)
    requires
        db.is_owner(user_id, document_id),
    ensures
        db.has_permission(user_id, document_id, level, now),
{
}

/// A principal who does not own the document, for whom the table of direct
/// grants holds no row on it, and none of whose groups has a row on it, is
/// denied every level at every time.
pub proof fn lemma_stranger_is_denied(
    db: DatabaseView,
    user_id: u128,
    document_id: u128,
    level: PermissionType,
    now: i64,
)
    requires
        !db.is_owner(user_id, document_id),
        forall|i: int|
            0 <= i < db.document_permissions.len() ==> !(
            #[trigger] db.document_permissions[i].document_id == document_id
                && db.document_permissions[i].user_id == user_id),
        forall|i: int|
            0 <= i < db.group_permissions.len() && (
            #[trigger] db.group_permissions[i]).document_id == document_id ==> !db.is_member(
                user_id,
                db.group_permissions[i].group_id,
            ),
    ensures
        !db.has_permission(user_id, document_id, level, now),
{
    if db.has_direct_grant(user_id, document_id, level, now) {
        let i = choose|i: int|
            0 <= i < db.document_permissions.len() && confers(
                #[trigger] db.document_permissions[i],
                user_id,
                document_id,
                level,
                now,
            );
        assert(db.document_permissions[i].document_id == document_id);
    }
}

/// A direct grant confers its level from the moment it is inserted, as long
/// as it is live: the grantee passes the check of that level.
pub proof fn lemma_grant_then_check(
    db: DatabaseView,
    row: DocumentPermissionView,
    level: PermissionType,
    now: i64,
)
    requires
        row.permission == level.name(),
        is_live(row.expires_at, now),
    ensures
        db.with_grant(row).has_permission(row.user_id, row.document_id, level, now),
{
    let after = db.with_grant(row);
    let last = after.document_permissions.len() - 1;
    assert(confers(after.document_permissions[last], row.user_id, row.document_id, level, now));
}

/// A direct grant confers nothing but its own level, to its own user, on its
/// own document, while it is live: every other check is decided as before
/// the insertion. A grant inserted with an expiry that has passed changes no
/// decision at all.
pub proof fn lemma_grant_changes_nothing_else(
    db: DatabaseView,
    row: DocumentPermissionView,
    user_id: u128,
    document_id: u128,
    level: PermissionType,
    now: i64,
)
    requires
        !confers(row, user_id, document_id, level, now),
    ensures
        db.with_grant(row).has_permission(user_id, document_id, level, now) == db.has_permission(
            user_id,
            document_id,
            level,
            now,
        ),
{
    let after = db.with_grant(row);
    if db.has_direct_grant(user_id, document_id, level, now) {
        let i = choose|i: int|
            0 <= i < db.document_permissions.len() && confers(
                #[trigger] db.document_permissions[i],
                user_id,
                document_id,
                level,
                now,
            );
        assert(confers(after.document_permissions[i], user_id, document_id, level, now));
    }
    if after.has_direct_grant(user_id, document_id, level, now) {
        let i = choose|i: int|
            0 <= i < after.document_permissions.len() && confers(
                #[trigger] after.document_permissions[i],
                user_id,
                document_id,
                level,
                now,
            );
        assert(i < db.document_permissions.len());
        assert(confers(db.document_permissions[i], user_id, document_id, level, now));
    }
}

/// A direct grant whose expiry is not after `now` satisfies no check at
/// `now`, not even right after its insertion.
pub proof fn lemma_expired_grant_is_ignored(
    db: DatabaseView,
    row: DocumentPermissionView,
    user_id: u128,
    document_id: u128,
    level: PermissionType,
    now: i64,
)
    requires
        row.expires_at matches Some(t) && t <= now,
    ensures
        db.with_grant(row).has_permission(user_id, document_id, level, now) == db.has_permission(
            user_id,
            document_id,
            level,
            now,
        ),
{
    lemma_grant_changes_nothing_else(db, row, user_id, document_id, level, now);
}

/// A grant of one level does not satisfy the check of another: after the
/// insertion of a grant of `granted`, the check of a different level
/// `asked` is decided as before it.
pub proof fn lemma_no_level_implies_another(
    db: DatabaseView,
    row: DocumentPermissionView,
    granted: PermissionType,
    asked: PermissionType,
    user_id: u128,
    document_id: u128,
    now: i64,
)
    requires
        row.permission == granted.name(),
        asked != granted,
    ensures
        db.with_grant(row).has_permission(user_id, document_id, asked, now) == db.has_permission(
            user_id,
            document_id,
            asked,
            now,
        ),
{
    if asked.name() == granted.name() {
        lemma_name_injective(asked, granted);
    }
    lemma_grant_changes_nothing_else(db, row, user_id, document_id, asked, now);
}

/// A live grant that was written under the name of its level is listed
/// for its user on its document, behind what was listed before.
pub proof fn lemma_granted_level_is_listed(
    db: DatabaseView,
    row: DocumentPermissionView,
    level: PermissionType,
    now: i64,
)
    requires
        row.permission == level.name(),
        is_live(row.expires_at, now),
    ensures
        db.with_grant(row).listed_ascii_permissions(row.user_id, row.document_id, now)
            == db.listed_ascii_permissions(row.user_id, row.document_id, now).push(level),
        db.grants_are_ascii(row.user_id, row.document_id, now) ==> db.with_grant(
            row,
        ).grants_are_ascii(row.user_id, row.document_id, now),
{
    let read = |g: DocumentPermissionView|
        if g.document_id == row.document_id && g.user_id == row.user_id && is_live(
            g.expires_at,
            now,
        ) {
            PermissionType::parse(ascii_lowercase(g.permission))
        } else {
            None
        };
    let before = db.document_permissions;
    let after = before.push(row);
    crate::models::permission::lemma_name_reads_back(level);
    after.lemma_filter_map_take_succ(read, before.len() as int);
    assert(after.take(before.len() as int + 1) =~= after);
    assert(after.take(before.len() as int) =~= before);
    assert(before.filter_map(read) + seq![level] =~= before.filter_map(read).push(level));
}

/// After a revocation no direct grant of the revoked level is left for the
/// user on the document, live or not.
pub proof fn lemma_revoked_grant_is_gone(
    db: DatabaseView,
    document_id: u128,
    user_id: u128,
    level: PermissionType,
    now: i64,
)
    ensures
        !db.without_grants(document_id, user_id, level).has_direct_grant(
            user_id,
            document_id,
            level,
            now,
        ),
{
    let keep = |g: DocumentPermissionView| !grants_level(g, user_id, document_id, level);
    let after = db.without_grants(document_id, user_id, level);
    if after.has_direct_grant(user_id, document_id, level, now) {
        let i = choose|i: int|
            0 <= i < after.document_permissions.len() && confers(
                #[trigger] after.document_permissions[i],
                user_id,
                document_id,
                level,
                now,
            );
        db.document_permissions.lemma_filter_pred(keep, i);
    }
}

/// A revocation removes the rows of one document, one user and one level and
/// no others: the check of any other triple is decided as before it.
pub proof fn lemma_revoke_keeps_other_grants(
    db: DatabaseView,
    document_id: u128,
    user_id: u128,
    level: PermissionType,
    other_user: u128,
    other_document: u128,
    other_level: PermissionType,
    now: i64,
)
    requires
        other_user != user_id || other_document != document_id || other_level != level,
    ensures
        db.without_grants(document_id, user_id, level).has_direct_grant(
            other_user,
            other_document,
            other_level,
            now,
        ) == db.has_direct_grant(other_user, other_document, other_level, now),
        db.without_grants(document_id, user_id, level).has_permission(
            other_user,
            other_document,
            other_level,
            now,
        ) == db.has_permission(other_user, other_document, other_level, now),
{
    let keep = |g: DocumentPermissionView| !grants_level(g, user_id, document_id, level);
    let after = db.without_grants(document_id, user_id, level);
    let rows = db.document_permissions;
    if other_level.name() == level.name() {
        lemma_name_injective(other_level, level);
    }
    if db.has_direct_grant(other_user, other_document, other_level, now) {
        let i = choose|i: int|
            0 <= i < rows.len() && confers(
                #[trigger] rows[i],
                other_user,
                other_document,
                other_level,
                now,
            );
        assert(keep(rows[i]));
        rows.lemma_filter_contains(keep, i);
        let j = choose|j: int|
            0 <= j < after.document_permissions.len() && after.document_permissions[j] == rows[i];
        assert(confers(
            after.document_permissions[j],
            other_user,
            other_document,
            other_level,
            now,
        ));
    }
    if after.has_direct_grant(other_user, other_document, other_level, now) {
        let j = choose|j: int|
            0 <= j < after.document_permissions.len() && confers(
                #[trigger] after.document_permissions[j],
                other_user,
                other_document,
                other_level,
                now,
            );
        assert(rows.filter(keep).contains(after.document_permissions[j]));
        rows.lemma_filter_contains_rev(keep, after.document_permissions[j]);
        let i = choose|i: int| 0 <= i < rows.len() && rows[i] == after.document_permissions[j];
        assert(confers(rows[i], other_user, other_document, other_level, now));
    }
}

/// Whether an expiry lies after `now`.
pub fn live(expires_at: Option<i64>, now: i64) -> (r: bool)
    ensures
        r == is_live(expires_at, now),
{
    match expires_at {
        Some(t) => t > now,
        None => true,
    }
}

} // verus!
