//! Granting and revoking levels, and the life cycle of share links.
//!
//! A share link is created by a principal who holds `Share` on the document.
//! Whoever presents its token redeems it: the link must not be expired, not
//! used up, and its password, if it has one, must match. Each redemption
//! that succeeds adds one to the link's counter in the same step that
//! checked it; one that fails leaves the store as it was.

use vstd::prelude::*;
use vstd::string::StringExecFns;
use crate::db::{first_index, is_first_match, lemma_first_index, Database, DatabaseView};
use crate::error::{answers, AppError, AppErrorView};
use crate::middleware::auth::AuthUser;
use crate::models::permission::{
    CreateShareLinkRequest, DocumentPermission, DocumentPermissionView, GrantPermissionRequest,
    PermissionType, ShareLink, ShareLinkView,
};
use crate::services::permission::{granted_row, PermissionService};
use crate::text::{ascii_lowercase, is_ascii_text};
use crate::utils::ident::{format_uuid, is_random_uuid, parsed_uuid, random_uuid, uuid_text};
use crate::utils::password::{bcrypt_verdict, hash_password, verify_password};

verus! {

/// The link's expiry lies before `now`. A link that expires at `now` itself
/// can still be redeemed.
pub open spec fn link_expired(l: ShareLinkView, now: i64) -> bool {
    l.expires_at matches Some(t) && t < now
}

/// The link has a cap and its counter has reached it.
pub open spec fn link_used_up(l: ShareLinkView) -> bool {
    l.max_access_count matches Some(m) && l.access_count >= m
}

/// The link after one more redemption.
pub open spec fn consumed(l: ShareLinkView) -> ShareLinkView {
    ShareLinkView { access_count: (l.access_count + 1) as i32, ..l }
}

/// The link that the store holds after a creation.
pub open spec fn issued_link(
    new_id: u128,
    document_id: u128,
    created_by: u128,
    level: PermissionType,
    token: Seq<char>,
    password_hash: Option<Seq<char>>,
    max_access_count: Option<i32>,
    expires_at: Option<i64>,
    now: i64,
) -> ShareLinkView {
    ShareLinkView {
        id: new_id,
        document_id,
        token,
        created_by,
        permission: level.name(),
        password_hash,
        max_access_count,
        access_count: 0,
        expires_at,
        created_at: now,
    }
}

/// What the check of a presented password comes to: `Some(true)` where the
/// link has no password or the presented one matches its hash, `Some(false)`
/// where none is presented or it does not match, `None` where the stored
/// hash cannot be checked.
pub open spec fn offered_verdict(
    password_hash: Option<Seq<char>>,
    password: Option<Seq<char>>,
) -> Option<bool> {
    match password_hash {
        None => Some(true),
        Some(h) => match password {
            None => Some(false),
            Some(p) => bcrypt_verdict(p, h),
        },
    }
}

impl DatabaseView {
    /// The store with one more share link at the end of its table.
    pub open spec fn with_share_link(self, link: ShareLinkView) -> DatabaseView {
        DatabaseView { share_links: self.share_links.push(link), ..self }
    }

    /// What a request to grant a level comes to: the new row where the
    /// requester holds `Admin` on the document, `Forbidden` where not.
    pub open spec fn grant_request(
        self,
        user_id: u128,
        document_id: u128,
        payload: GrantPermissionRequest,
        new_id: u128,
        now: i64,
    ) -> Result<DocumentPermissionView, AppErrorView> {
        if !self.has_permission(user_id, document_id, PermissionType::Admin, now) {
            Err(AppErrorView::Forbidden("No permission to grant permissions"@))
        } else {
            Ok(
                granted_row(
                    new_id,
                    document_id,
                    payload.user_id,
                    payload.permission,
                    user_id,
                    payload.expires_at,
                    now,
                ),
            )
        }
    }

    /// What a request to revoke a level comes to, given the level that its
    /// text names, if it names one: the level to remove where the requester
    /// holds `Admin` and a level is named.
    pub open spec fn revoke_decision(
        self,
        user_id: u128,
        document_id: u128,
        named: Option<PermissionType>,
        now: i64,
    ) -> Result<PermissionType, AppErrorView> {
        if !self.has_permission(user_id, document_id, PermissionType::Admin, now) {
            Err(AppErrorView::Forbidden("No permission to revoke permissions"@))
        } else {
            match named {
                Some(level) => Ok(level),
                None => Err(AppErrorView::BadRequest("Invalid permission type"@)),
            }
        }
    }

    /// What a request to revoke a level comes to: the level to remove where
    /// the requester holds `Admin` and the text names a level.
    pub open spec fn revoke_request(
        self,
        user_id: u128,
        document_id: u128,
        permission: Seq<char>,
        now: i64,
    ) -> Result<PermissionType, AppErrorView> {
        self.revoke_decision(user_id, document_id, PermissionType::named_by(permission), now)
    }

    /// What a request for the grants of a document comes to: every direct
    /// grant on it, expired or not, in the order of the table.
    pub open spec fn permission_listing(self, user_id: u128, document_id: u128, now: i64) -> Result<
        Seq<DocumentPermissionView>,
        AppErrorView,
    > {
        if !self.has_permission(user_id, document_id, PermissionType::Admin, now) {
            Err(AppErrorView::Forbidden("No permission to list permissions"@))
        } else {
            Ok(
                self.document_permissions.filter(
                    |g: DocumentPermissionView| g.document_id == document_id,
                ),
            )
        }
    }

    /// What a request for a new share link comes to: the new link where the
    /// requester holds `Share` on the document, `Forbidden` where not.
    pub open spec fn share_request(
        self,
        user_id: u128,
        document_id: u128,
        link: ShareLinkView,
        now: i64,
    ) -> Result<ShareLinkView, AppErrorView> {
        if !self.has_permission(user_id, document_id, PermissionType::Share, now) {
            Err(AppErrorView::Forbidden("No permission to share this document"@))
        } else {
            Ok(link)
        }
    }

    /// What a request for the share links of a document comes to.
    pub open spec fn share_listing(self, user_id: u128, document_id: u128, now: i64) -> Result<
        Seq<ShareLinkView>,
        AppErrorView,
    > {
        if !self.has_permission(user_id, document_id, PermissionType::Share, now) {
            Err(AppErrorView::Forbidden("No permission to view share links"@))
        } else {
            Ok(self.share_links.filter(|l: ShareLinkView| l.document_id == document_id))
        }
    }

    /// What the presentation of a token comes to, given the verdict on the
    /// presented password. The link is looked up by its token; then, in this
    /// order: an expired link is refused, a used-up link is refused, a
    /// password that cannot be checked or does not match is refused, and a
    /// counter that cannot count further is refused. Otherwise the link, as
    /// it stood before this redemption, is handed out.
    pub open spec fn redemption(self, token: Seq<char>, verdict: Option<bool>, now: i64) -> Result<
        ShareLinkView,
        AppErrorView,
    > {
        match self.find_share_link_by_token(token) {
            None => Err(AppErrorView::NotFound("Resource not found"@)),
            Some(l) => if link_expired(l, now) {
                Err(AppErrorView::BadRequest("Share link has expired"@))
            } else if link_used_up(l) {
                Err(AppErrorView::BadRequest("Share link access limit reached"@))
            } else if l.password_hash is Some && verdict is None {
                Err(AppErrorView::InternalServerError("Failed to verify password"@))
            } else if l.password_hash is Some && verdict == Some(false) {
                Err(AppErrorView::Forbidden("Invalid share link password"@))
            } else if l.access_count == i32::MAX {
                Err(AppErrorView::DatabaseError("integer out of range"@))
            } else {
                Ok(l)
            },
        }
    }

    /// The store after the presentation of a token: the redeemed link's
    /// counter is one higher where the redemption succeeded, and nothing has
    /// changed where it failed.
    pub open spec fn after_redemption(self, token: Seq<char>, verdict: Option<bool>, now: i64) -> DatabaseView {
        match self.redemption(token, verdict, now) {
            Ok(l) => DatabaseView {
                share_links: self.share_links.update(
                    first_index(self.share_links, |l: ShareLinkView| l.token == token),
                    consumed(l),
                ),
                ..self
            },
            Err(_) => self,
        }
    }

    /// What a request to delete a share link comes to. The link must exist
    /// and belong to the document; the requester must have created it or
    /// hold `Admin` on its document.
    pub open spec fn share_deletion(
        self,
        user_id: u128,
        document_id: u128,
        share_id: u128,
        now: i64,
    ) -> Result<(), AppErrorView> {
        match self.find_share_link(share_id) {
            None => Err(AppErrorView::NotFound("Resource not found"@)),
            Some(l) => if l.document_id != document_id {
                Err(AppErrorView::NotFound("Share link not found for this document"@))
            } else if l.created_by != user_id && !self.has_permission(
                user_id,
                l.document_id,
                PermissionType::Admin,
                now,
            ) {
                Err(AppErrorView::Forbidden("No permission to delete this share link"@))
            } else {
                Ok(())
            },
        }
    }

    /// The store without the share links that carry the identifier.
    pub open spec fn without_share_link(self, share_id: u128) -> DatabaseView {
        DatabaseView {
            share_links: self.share_links.filter(|l: ShareLinkView| l.id != share_id),
            ..self
        }
    }
}

/// Grants a level on a document to a user, for a requester who holds `Admin`
/// on the document.
pub fn grant_permission(
    db: &mut Database,
    auth_user: &AuthUser,
    document_id: u128,
    payload: GrantPermissionRequest,
    new_id: u128,
    now: i64,
) -> (r: Result<DocumentPermission, AppError>)
    ensures
        match parsed_uuid(auth_user@.claims.sub) {
            None => answers(r, Err(AppErrorView::Unauthorized("Invalid token"@))) && final(db)@
                == old(db)@,
            Some(user_id) => {
                let outcome = old(db)@.grant_request(user_id, document_id, payload, new_id, now);
                &&& answers(r, outcome)
                &&& final(db)@ == match outcome {
                    Ok(row) => old(db)@.with_grant(row),
                    Err(_) => old(db)@,
                }
            },
        },
{
    let user_id = match auth_user.claims.user_id() {
        Ok(id) => id,
        Err(e) => {
            return Err(e);
        },
    };
    match PermissionService::require(
        db,
        user_id,
        document_id,
        PermissionType::Admin,
        now,
        "No permission to grant permissions",
    ) {
        Ok(_) => {},
        Err(e) => {
            return Err(e);
        },
    }
    Ok(
        PermissionService::grant_permission(
            db,
            document_id,
            payload.user_id,
            payload.permission,
            user_id,
            payload.expires_at,
            new_id,
            now,
        ),
    )
}

/// A revocation has answered `r` and left the store `after`, as its
/// decision asks: the grants of the level are gone where it names one, and
/// nothing has changed where it is an error.
pub open spec fn revoked_as(
    r: Result<PermissionType, AppError>,
    before: DatabaseView,
    after: DatabaseView,
    document_id: u128,
    target_user_id: u128,
    decision: Result<PermissionType, AppErrorView>,
) -> bool {
    match decision {
        Ok(level) => r is Ok && r->Ok_0 == level && after == before.without_grants(
            document_id,
            target_user_id,
            level,
        ),
        Err(e) => r is Err && r->Err_0@ == e && after == before,
    }
}

/// Revokes a level on a document from a user, for a requester who holds
/// `Admin` on the document. The level comes as text and must name one,
/// whatever the case of its letters; the level that was revoked comes back.
pub fn revoke_permission(
    db: &mut Database,
    auth_user: &AuthUser,
    document_id: u128,
    target_user_id: u128,
    permission: &str,
    now: i64,
) -> (r: Result<PermissionType, AppError>)
    ensures
        match parsed_uuid(auth_user@.claims.sub) {
            None => r is Err && r->Err_0@ == AppErrorView::Unauthorized("Invalid token"@)
                && final(db)@ == old(db)@,
            Some(user_id) => revoked_as(
                r,
                old(db)@,
                final(db)@,
                document_id,
                target_user_id,
                old(db)@.revoke_request(user_id, document_id, permission@, now),
            ),
        },
        is_ascii_text(permission@) ==> (match parsed_uuid(auth_user@.claims.sub) {
            None => r is Err,
            Some(user_id) => revoked_as(
                r,
                old(db)@,
                final(db)@,
                document_id,
                target_user_id,
                old(db)@.revoke_decision(
                    user_id,
                    document_id,
                    PermissionType::parse(ascii_lowercase(permission@)),
                    now,
                ),
            ),
        }),
{
    let user_id = match auth_user.claims.user_id() {
        Ok(id) => id,
        Err(e) => {
            return Err(e);
        },
    };
    match PermissionService::require(
        db,
        user_id,
        document_id,
        PermissionType::Admin,
        now,
        "No permission to revoke permissions",
    ) {
        Ok(_) => {},
        Err(e) => {
            return Err(e);
        },
    }
    let perm_type = match PermissionType::from_str(permission) {
        Some(p) => p,
        None => {
            return Err(AppError::BadRequest(String::from_str("Invalid permission type")));
        },
    };
    PermissionService::revoke_permission(db, document_id, target_user_id, perm_type);
    Ok(perm_type)
}

/// Lists the direct grants on a document, for a requester who holds `Admin`
/// on it.
pub fn list_permissions(db: &Database, auth_user: &AuthUser, document_id: u128, now: i64) -> (r:
    Result<Vec<DocumentPermission>, AppError>)
    ensures
        match parsed_uuid(auth_user@.claims.sub) {
            None => r is Err && r->Err_0@ == AppErrorView::Unauthorized("Invalid token"@),
            Some(user_id) => match db@.permission_listing(user_id, document_id, now) {
                Ok(rows) => r is Ok && r->Ok_0.deep_view() == rows,
                Err(e) => r is Err && r->Err_0@ == e,
            },
        },
{
    let user_id = match auth_user.claims.user_id() {
        Ok(id) => id,
        Err(e) => {
            return Err(e);
        },
    };
    match PermissionService::require(
        db,
        user_id,
        document_id,
        PermissionType::Admin,
        now,
        "No permission to list permissions",
    ) {
        Ok(_) => {},
        Err(e) => {
            return Err(e);
        },
    }
    let ghost rows = db@.document_permissions;
    let ghost wanted = |g: DocumentPermissionView| g.document_id == document_id;
    let mut found: Vec<DocumentPermission> = Vec::new();
    let mut i: usize = 0;
    assert(rows.take(0) =~= Seq::empty());
    assert(rows.take(0).filter(wanted) =~= Seq::empty()) by {
        reveal(Seq::filter);
    }
    while i < db.document_permissions.len()
        invariant
            i <= db.document_permissions.len(),
            rows == db@.document_permissions,
            wanted == (|g: DocumentPermissionView| g.document_id == document_id),
            found.deep_view() == rows.take(i as int).filter(wanted),
        decreases db.document_permissions.len() - i,
    {
        let g = &db.document_permissions[i];
        proof {
            rows.lemma_take_succ_push(i as int);
            rows.take(i as int).lemma_filter_push(rows[i as int], wanted);
        }
        if g.document_id == document_id {
            let ghost before = found.deep_view();
            found.push(g.clone());
            assert(found.deep_view() =~= before.push(rows[i as int]));
        }
        i += 1;
    }
    assert(rows.take(rows.len() as int) =~= rows);
    Ok(found)
}

/// Adds a share link to the store, for a creator who holds `Share` on the
/// document. The token and the hash of the password are handed in.
pub fn issue_share_link(
    db: &mut Database,
    user_id: u128,
    document_id: u128,
    permission: PermissionType,
    max_access_count: Option<i32>,
    expires_at: Option<i64>,
    token: String,
    password_hash: Option<String>,
    new_id: u128,
    now: i64,
) -> (r: Result<ShareLink, AppError>)
    ensures
        ({
            let link = issued_link(
                new_id,
                document_id,
                user_id,
                permission,
                token@,
                password_hash.deep_view(),
                max_access_count,
                expires_at,
                now,
            );
            let outcome = old(db)@.share_request(user_id, document_id, link, now);
            &&& answers(r, outcome)
            &&& final(db)@ == match outcome {
                Ok(l) => old(db)@.with_share_link(l),
                Err(_) => old(db)@,
            }
        }),
{
    match PermissionService::require(
        db,
        user_id,
        document_id,
        PermissionType::Share,
        now,
        "No permission to share this document",
    ) {
        Ok(_) => {},
        Err(e) => {
            return Err(e);
        },
    }
    let link = ShareLink {
        id: new_id,
        document_id,
        token,
        created_by: user_id,
        permission: String::from_str(permission.as_str()),
        password_hash,
        max_access_count,
        access_count: 0,
        expires_at,
        created_at: now,
    };
    db.share_links.push(link.clone());
    assert(db@.share_links =~= old(db)@.share_links.push(link@));
    Ok(link)
}

/// Creates a share link on a document, for a requester who holds `Share` on
/// it. The token is a fresh random identifier in hyphenated form. Of a
/// password only its salted hash is stored.
pub fn create_share_link(
    db: &mut Database,
    auth_user: &AuthUser,
    document_id: u128,
    payload: CreateShareLinkRequest,
    new_id: u128,
    now: i64,
) -> (r: Result<ShareLink, AppError>)
    ensures
        match parsed_uuid(auth_user@.claims.sub) {
            None => answers(r, Err(AppErrorView::Unauthorized("Invalid token"@))) && final(db)@
                == old(db)@,
            Some(user_id) => if !old(db)@.has_permission(
                user_id,
                document_id,
                PermissionType::Share,
                now,
            ) {
                answers(r, Err(AppErrorView::Forbidden("No permission to share this document"@)))
                    && final(db)@ == old(db)@
            } else {
                match r {
                    Ok(link) => {
                        &&& link@ == issued_link(
                            new_id,
                            document_id,
                            user_id,
                            payload.permission,
                            link@.token,
                            link@.password_hash,
                            payload.max_access_count,
                            payload.expires_at,
                            now,
                        )
                        &&& exists|raw: u128| is_random_uuid(raw) && link@.token == #[trigger] uuid_text(raw)
                        &&& match payload.password {
                            Some(p) => link@.password_hash matches Some(h) && bcrypt_verdict(p@, h)
                                == Some(true),
                            None => link@.password_hash is None,
                        }
                        &&& final(db)@ == old(db)@.with_share_link(link@)
                    },
                    Err(e) => {
                        &&& payload.password is Some
                        &&& e@ is InternalServerError
                        &&& final(db)@ == old(db)@
                    },
                }
            },
        },
{
    let user_id = match auth_user.claims.user_id() {
        Ok(id) => id,
        Err(e) => {
            return Err(e);
        },
    };
    match PermissionService::require(
        db,
        user_id,
        document_id,
        PermissionType::Share,
        now,
        "No permission to share this document",
    ) {
        Ok(_) => {},
        Err(e) => {
            return Err(e);
        },
    }
    let raw = random_uuid();
    let token = format_uuid(raw);
    let password_hash = match &payload.password {
        Some(password) => match hash_password(password.as_str()) {
            Ok(h) => Some(h),
            Err(e) => {
                return Err(e);
            },
        },
        None => None,
    };
    issue_share_link(
        db,
        user_id,
        document_id,
        payload.permission,
        payload.max_access_count,
        payload.expires_at,
        token,
        password_hash,
        new_id,
        now,
    )
}

/// Redeems the share link with the token, given the verdict on the presented
/// password: `Some(true)` where it is accepted, `Some(false)` where it is
/// not, `None` where it could not be checked. The verdict counts only where
/// the link has a password.
pub fn redeem_share_link(db: &mut Database, token: &str, verdict: Option<bool>, now: i64) -> (r:
    Result<ShareLink, AppError>)
    ensures
        answers(r, old(db)@.redemption(token@, verdict, now)),
        final(db)@ == old(db)@.after_redemption(token@, verdict, now),
{
    let i = match db.share_link_index_by_token(token) {
        Some(i) => i,
        None => {
            return Err(AppError::NotFound(String::from_str("Resource not found")));
        },
    };
    proof {
        lemma_first_index(db@.share_links, |l: ShareLinkView| l.token == token@, i as int);
    }
    let link = db.share_links[i].clone();
    if let Some(expires_at) = link.expires_at {
        if expires_at < now {
            return Err(AppError::BadRequest(String::from_str("Share link has expired")));
        }
    }
    if let Some(max_count) = link.max_access_count {
        if link.access_count >= max_count {
            return Err(AppError::BadRequest(String::from_str("Share link access limit reached")));
        }
    }
    if link.password_hash.is_some() {
        match verdict {
            None => {
                return Err(
                    AppError::InternalServerError(String::from_str("Failed to verify password")),
                );
            },
            Some(false) => {
                return Err(AppError::Forbidden(String::from_str("Invalid share link password")));
            },
            Some(true) => {},
        }
    }
    if link.access_count == i32::MAX {
        return Err(AppError::DatabaseError(String::from_str("integer out of range")));
    }
    let mut updated = link.clone();
    updated.access_count = link.access_count + 1;
    db.share_links.set(i, updated);
    assert(db@.share_links =~= old(db)@.share_links.update(i as int, consumed(link@)));
    Ok(link)
}

/// Redeems the share link with the token for an anonymous caller who
/// presents `password`, or none. On success the caller holds the link's
/// level on the link's document; the link comes back as it stood before this
/// redemption.
pub fn get_share_link(db: &mut Database, token: &str, password: Option<&str>, now: i64) -> (r:
    Result<ShareLink, AppError>)
    ensures
        ({
            let verdict = match old(db)@.find_share_link_by_token(token@) {
                Some(l) => offered_verdict(
                    l.password_hash,
                    match password {
                        Some(p) => Some(p@),
                        None => None,
                    },
                ),
                None => Some(true),
            };
            &&& answers(r, old(db)@.redemption(token@, verdict, now))
            &&& final(db)@ == old(db)@.after_redemption(token@, verdict, now)
        }),
{
    let verdict = match db.share_link_index_by_token(token) {
        Some(i) => {
            proof {
                lemma_first_index(db@.share_links, |l: ShareLinkView| l.token == token@, i as int);
            }
            match &db.share_links[i].password_hash {
                Some(h) => match password {
                    Some(p) => match verify_password(p, h.as_str()) {
                        Ok(b) => Some(b),
                        Err(_) => None,
                    },
                    None => Some(false),
                },
                None => Some(true),
            }
        },
        None => Some(true),
    };
    redeem_share_link(db, token, verdict, now)
}

/// Lists the share links of a document, for a requester who holds `Share`
/// on it.
pub fn list_share_links(db: &Database, auth_user: &AuthUser, document_id: u128, now: i64) -> (r:
    Result<Vec<ShareLink>, AppError>)
    ensures
        match parsed_uuid(auth_user@.claims.sub) {
            None => r is Err && r->Err_0@ == AppErrorView::Unauthorized("Invalid token"@),
            Some(user_id) => match db@.share_listing(user_id, document_id, now) {
                Ok(rows) => r is Ok && r->Ok_0.deep_view() == rows,
                Err(e) => r is Err && r->Err_0@ == e,
            },
        },
{
    let user_id = match auth_user.claims.user_id() {
        Ok(id) => id,
        Err(e) => {
            return Err(e);
        },
    };
    match PermissionService::require(
        db,
        user_id,
        document_id,
        PermissionType::Share,
        now,
        "No permission to view share links",
    ) {
        Ok(_) => {},
        Err(e) => {
            return Err(e);
        },
    }
    let ghost rows = db@.share_links;
    let ghost wanted = |l: ShareLinkView| l.document_id == document_id;
    let mut found: Vec<ShareLink> = Vec::new();
    let mut i: usize = 0;
    assert(rows.take(0) =~= Seq::empty());
    assert(rows.take(0).filter(wanted) =~= Seq::empty()) by {
        reveal(Seq::filter);
    }
    while i < db.share_links.len()
        invariant
            i <= db.share_links.len(),
            rows == db@.share_links,
            wanted == (|l: ShareLinkView| l.document_id == document_id),
            found.deep_view() == rows.take(i as int).filter(wanted),
        decreases db.share_links.len() - i,
    {
        let l = &db.share_links[i];
        proof {
            rows.lemma_take_succ_push(i as int);
            rows.take(i as int).lemma_filter_push(rows[i as int], wanted);
        }
        if l.document_id == document_id {
            let ghost before = found.deep_view();
            found.push(l.clone());
            assert(found.deep_view() =~= before.push(rows[i as int]));
        }
        i += 1;
    }
    assert(rows.take(rows.len() as int) =~= rows);
    Ok(found)
}

/// Deletes a share link, for its creator or for a requester who holds
/// `Admin` on the link's document. The deletion is unconditional: an
/// expired or used-up link is deleted like any other.
pub fn delete_share_link(
    db: &mut Database,
    auth_user: &AuthUser,
    document_id: u128,
    share_id: u128,
    now: i64,
) -> (r: Result<(), AppError>)
    ensures
        match parsed_uuid(auth_user@.claims.sub) {
            None => answers(r, Err(AppErrorView::Unauthorized("Invalid token"@))) && final(db)@
                == old(db)@,
            Some(user_id) => {
                let outcome = old(db)@.share_deletion(user_id, document_id, share_id, now);
                &&& answers(r, outcome)
                &&& final(db)@ == match outcome {
                    Ok(_) => old(db)@.without_share_link(share_id),
                    Err(_) => old(db)@,
                }
            },
        },
{
    let user_id = match auth_user.claims.user_id() {
        Ok(id) => id,
        Err(e) => {
            return Err(e);
        },
    };
    let i = match db.share_link_index(share_id) {
        Some(i) => i,
        None => {
            return Err(AppError::NotFound(String::from_str("Resource not found")));
        },
    };
    proof {
        lemma_first_index(db@.share_links, |l: ShareLinkView| l.id == share_id, i as int);
    }
    let link_document = db.share_links[i].document_id;
    let link_creator = db.share_links[i].created_by;
    if link_document != document_id {
        return Err(
            AppError::NotFound(String::from_str("Share link not found for this document")),
        );
    }
    if link_creator != user_id {
        match PermissionService::require(
            db,
            user_id,
            link_document,
            PermissionType::Admin,
            now,
            "No permission to delete this share link",
        ) {
            Ok(_) => {},
            Err(e) => {
                return Err(e);
            },
        }
    }
    let ghost rows = db@.share_links;
    let ghost keep = |l: ShareLinkView| l.id != share_id;
    let mut kept: Vec<ShareLink> = Vec::new();
    let mut k: usize = 0;
    assert(rows.take(0) =~= Seq::empty());
    assert(rows.take(0).filter(keep) =~= Seq::empty()) by {
        reveal(Seq::filter);
    }
    while k < db.share_links.len()
        invariant
            k <= db.share_links.len(),
            *db == *old(db),
            rows == db@.share_links,
            keep == (|l: ShareLinkView| l.id != share_id),
            kept.deep_view() == rows.take(k as int).filter(keep),
        decreases db.share_links.len() - k,
    {
        let l = &db.share_links[k];
        proof {
            rows.lemma_take_succ_push(k as int);
            rows.take(k as int).lemma_filter_push(rows[k as int], keep);
        }
        if l.id != share_id {
            let ghost before = kept.deep_view();
            kept.push(l.clone());
            assert(kept.deep_view() =~= before.push(rows[k as int]));
        }
        k += 1;
    }
    assert(rows.take(rows.len() as int) =~= rows);
    db.share_links = kept;
    Ok(())
}

/// The store after a run of presentations of one token, each with an
/// accepted password, at the given times in turn.
pub open spec fn after_redemptions(db: DatabaseView, token: Seq<char>, times: Seq<i64>) -> DatabaseView
    decreases times.len(),
{
    if times.len() == 0 {
        db
    } else {
        after_redemptions(db, token, times.drop_last()).after_redemption(
            token,
            Some(true),
            times.last(),
        )
    }
}

/// What presentation number `k` of such a run comes to.
pub open spec fn redemption_in_turn(
    db: DatabaseView,
    token: Seq<char>,
    times: Seq<i64>,
    k: int,
) -> Result<ShareLinkView, AppErrorView> {
    after_redemptions(db, token, times.take(k)).redemption(token, Some(true), times[k])
}

/// A redemption that fails leaves the store as it was.
pub proof fn lemma_refused_redemption_changes_nothing(
    db: DatabaseView,
    token: Seq<char>,
    verdict: Option<bool>,
    now: i64,
)
    requires
        db.redemption(token, verdict, now) is Err,
    ensures
        db.after_redemption(token, verdict, now) == db,
{
}

/// A redemption that succeeds adds exactly one to the counter of the
/// redeemed link and touches nothing else: the link is still the one found
/// under its token, every other link and every other table is as before,
/// and a counter that was within its cap stays within it.
pub proof fn lemma_redemption_counts_once(
    db: DatabaseView,
    token: Seq<char>,
    verdict: Option<bool>,
    now: i64,
)
    requires
        db.redemption(token, verdict, now) is Ok,
    ensures
        ({
            let l = db.redemption(token, verdict, now)->Ok_0;
            let after = db.after_redemption(token, verdict, now);
            let i = first_index(db.share_links, |l: ShareLinkView| l.token == token);
            &&& db.find_share_link_by_token(token) == Some(l)
            &&& is_first_match(db.share_links, |l: ShareLinkView| l.token == token, i)
            &&& after.find_share_link_by_token(token) == Some(consumed(l))
            &&& consumed(l).access_count == l.access_count + 1
            &&& after.share_links == db.share_links.update(i, consumed(l))
            &&& after == DatabaseView { share_links: after.share_links, ..db }
            &&& l.max_access_count matches Some(m) ==> consumed(l).access_count <= m
        }),
{
    let wanted = |l: ShareLinkView| l.token == token;
    crate::db::lemma_has_first_match(db.share_links, wanted);
    let i = first_index(db.share_links, wanted);
    let l = db.share_links[i];
    let after = db.after_redemption(token, verdict, now);
    assert(after.share_links == db.share_links.update(i, consumed(l)));
    assert(is_first_match(after.share_links, wanted, i)) by {
        assert(wanted(after.share_links[i]));
        assert forall|j: int| 0 <= j < i implies !wanted(#[trigger] after.share_links[j]) by {
            assert(after.share_links[j] == db.share_links[j]);
        }
    }
    lemma_first_index(after.share_links, wanted, i);
}

/// A link whose expiry lies before `now` is never redeemed at `now`, not at
/// its first presentation and whatever password is presented.
pub proof fn lemma_expired_link_is_refused(
    db: DatabaseView,
    token: Seq<char>,
    verdict: Option<bool>,
    now: i64,
)
    requires
        db.find_share_link_by_token(token) matches Some(l) && link_expired(l, now),
    ensures
        db.redemption(token, verdict, now) == Err::<ShareLinkView, AppErrorView>(
            AppErrorView::BadRequest("Share link has expired"@),
        ),
        db.after_redemption(token, verdict, now) == db,
{
}

/// A presentation with a wrong password, or with none, of a link that has
/// one is refused and adds nothing to the counter: whatever is presented
/// next is decided as if the refused attempt had not been made.
pub proof fn lemma_wrong_password_is_not_counted(
    db: DatabaseView,
    token: Seq<char>,
    now: i64,
    next_verdict: Option<bool>,
    later: i64,
)
    requires
        db.find_share_link_by_token(token) matches Some(l) && l.password_hash is Some,
    ensures
        db.redemption(token, Some(false), now) is Err,
        db.after_redemption(token, Some(false), now) == db,
        db.after_redemption(token, Some(false), now).redemption(token, next_verdict, later)
            == db.redemption(token, next_verdict, later),
{
}

/// After a refused attempt with a wrong password, the password that the
/// link was created with still redeems it: where the link is neither
/// expired nor used up and its hash is one that bcrypt accepts the password
/// against, the presentation of that password succeeds and is counted.
pub proof fn lemma_right_password_still_redeems(
    db: DatabaseView,
    token: Seq<char>,
    wrong: Seq<char>,
    right: Seq<char>,
    now: i64,
    later: i64,
)
    requires
        db.find_share_link_by_token(token) matches Some(l) && l.password_hash matches Some(h)
            && bcrypt_verdict(wrong, h) == Some(false) && bcrypt_verdict(right, h) == Some(true)
            && !link_expired(l, later) && !link_used_up(l) && l.access_count < i32::MAX,
    ensures
        ({
            let l = db.find_share_link_by_token(token)->0;
            let h = l.password_hash;
            let after_wrong = db.after_redemption(token, offered_verdict(h, Some(wrong)), now);
            let retry = after_wrong.redemption(token, offered_verdict(h, Some(right)), later);
            let after_right = after_wrong.after_redemption(
                token,
                offered_verdict(h, Some(right)),
                later,
            );
            &&& after_wrong == db
            &&& retry == Ok::<ShareLinkView, AppErrorView>(l)
            &&& after_right.find_share_link_by_token(token) == Some(consumed(l))
            &&& consumed(l).access_count == l.access_count + 1
        }),
{
    let l = db.find_share_link_by_token(token)->0;
    lemma_redemption_counts_once(db, token, offered_verdict(l.password_hash, Some(right)), later);
}

/// The state of a capped link during a run of presentations: after `n` of
/// them the link found under the token is the first one with its counter
/// raised by `n` or up to the cap, whichever is less, and no other table
/// has changed.
proof fn lemma_redemptions_state(db: DatabaseView, token: Seq<char>, times: Seq<i64>)
    requires
        db.find_share_link_by_token(token) matches Some(l) && l.max_access_count matches Some(m)
            && 0 <= l.access_count <= m && forall|k: int|
            0 <= k < times.len() ==> !link_expired(l, #[trigger] times[k]),
    ensures
        ({
            let l = db.find_share_link_by_token(token)->0;
            let room = l.max_access_count->0 - l.access_count;
            let used = if times.len() <= room {
                times.len() as int
            } else {
                room
            };
            after_redemptions(db, token, times).find_share_link_by_token(token) == Some(
                ShareLinkView { access_count: (l.access_count + used) as i32, ..l },
            )
        }),
    decreases times.len(),
{
    let l = db.find_share_link_by_token(token)->0;
    let room = l.max_access_count->0 - l.access_count;
    if times.len() == 0 {
    } else {
        let before = times.drop_last();
        assert forall|k: int| 0 <= k < before.len() implies !link_expired(l, #[trigger] before[k]) by {
            assert(before[k] == times[k]);
        }
        lemma_redemptions_state(db, token, before);
        let mid = after_redemptions(db, token, before);
        assert(!link_expired(l, times[times.len() - 1]));
        if before.len() < room {
            assert(mid.redemption(token, Some(true), times.last()) is Ok);
            lemma_redemption_counts_once(mid, token, Some(true), times.last());
        } else {
            assert(mid.redemption(token, Some(true), times.last()) is Err);
        }
    }
}

/// A run of presentations of a capped link that is not expired and whose
/// password is accepted: as many of them succeed, from the first on, as
/// the cap leaves room for, and each one after them is refused because the
/// limit is reached. With a cap of one and a fresh counter exactly the first
/// presentation succeeds, however many follow it.
pub proof fn lemma_cap_bounds_redemptions(db: DatabaseView, token: Seq<char>, times: Seq<i64>, k: int)
    requires
        0 <= k < times.len(),
        db.find_share_link_by_token(token) matches Some(l) && l.max_access_count matches Some(m)
            && 0 <= l.access_count <= m && forall|j: int|
            0 <= j < times.len() ==> !link_expired(l, #[trigger] times[j]),
    ensures
        ({
            let l = db.find_share_link_by_token(token)->0;
            let room = l.max_access_count->0 - l.access_count;
            if k < room {
                redemption_in_turn(db, token, times, k) == Ok::<ShareLinkView, AppErrorView>(
                    ShareLinkView { access_count: (l.access_count + k) as i32, ..l },
                )
            } else {
                redemption_in_turn(db, token, times, k) == Err::<ShareLinkView, AppErrorView>(
                    AppErrorView::BadRequest("Share link access limit reached"@),
                )
            }
        }),
{
    let l = db.find_share_link_by_token(token)->0;
    let before = times.take(k);
    assert forall|j: int| 0 <= j < before.len() implies !link_expired(l, #[trigger] before[j]) by {
        assert(before[j] == times[j]);
    }
    lemma_redemptions_state(db, token, before);
    assert(!link_expired(l, times[k]));
}

/// However many presentations are made, the counter of a capped link never
/// passes its cap.
pub proof fn lemma_counter_stays_within_cap(db: DatabaseView, token: Seq<char>, times: Seq<i64>)
    requires
        db.find_share_link_by_token(token) matches Some(l) && l.max_access_count matches Some(m)
            && 0 <= l.access_count <= m && forall|j: int|
            0 <= j < times.len() ==> !link_expired(l, #[trigger] times[j]),
    ensures
        after_redemptions(db, token, times).find_share_link_by_token(token) matches Some(l)
            && l.max_access_count matches Some(m) && l.access_count <= m,
{
    lemma_redemptions_state(db, token, times);
}

} // verus!
