//! Searching documents: what a search request asks of the search index.

use vstd::prelude::*;
use vstd::string::StringExecFns;
use crate::middleware::auth::AuthUser;
use crate::text::clone_opt_text;

verus! {

/// The parameters of a search request.
#[derive(Debug)]
pub struct SearchParams {
    /// The words to search for.
    pub q: String,
    pub limit: usize,
    pub offset: usize,
    pub owner_id: Option<String>,
    pub mime_type: Option<String>,
    pub is_folder: Option<bool>,
}

/// The mathematical value of a [`SearchParams`].
pub struct SearchParamsView {
    pub q: Seq<char>,
    pub limit: usize,
    pub offset: usize,
    pub owner_id: Option<Seq<char>>,
    pub mime_type: Option<Seq<char>>,
    pub is_folder: Option<bool>,
}

impl View for SearchParams {
    type V = SearchParamsView;

    open spec fn view(&self) -> SearchParamsView {
        SearchParamsView {
            q: self.q.deep_view(),
            limit: self.limit,
            offset: self.offset,
            owner_id: self.owner_id.deep_view(),
            mime_type: self.mime_type.deep_view(),
            is_folder: self.is_folder,
        }
    }
}

impl DeepView for SearchParams {
    type V = SearchParamsView;

    open spec fn deep_view(&self) -> SearchParamsView {
        self@
    }
}

impl Clone for SearchParams {
    fn clone(&self) -> (r: Self)
        ensures
            r@ == self@,
    {
        SearchParams {
            q: self.q.clone(),
            limit: self.limit,
            offset: self.offset,
            owner_id: clone_opt_text(&self.owner_id),
            mime_type: clone_opt_text(&self.mime_type),
            is_folder: self.is_folder,
        }
    }
}

/// What is asked of the search index.
#[derive(Debug)]
pub struct SearchRequest {
    pub query: String,
    /// The conditions on the hits, joined by `AND`.
    pub filter: Option<String>,
    pub limit: Option<usize>,
    pub offset: Option<usize>,
}

/// The mathematical value of a [`SearchRequest`].
pub struct SearchRequestView {
    pub query: Seq<char>,
    pub filter: Option<Seq<char>>,
    pub limit: Option<usize>,
    pub offset: Option<usize>,
}

impl View for SearchRequest {
    type V = SearchRequestView;

    open spec fn view(&self) -> SearchRequestView {
        SearchRequestView {
            query: self.query.deep_view(),
            filter: self.filter.deep_view(),
            limit: self.limit,
            offset: self.offset,
        }
    }
}

impl DeepView for SearchRequest {
    type V = SearchRequestView;

    open spec fn deep_view(&self) -> SearchRequestView {
        self@
    }
}

impl Clone for SearchRequest {
    fn clone(&self) -> (r: Self)
        ensures
            r@ == self@,
    {
        SearchRequest {
            query: self.query.clone(),
            filter: clone_opt_text(&self.filter),
            limit: self.limit,
            offset: self.offset,
        }
    }
}
/// The number of hits that a search returns where the request names none.
pub fn default_limit() -> (limit: usize)
    ensures
        limit == 50,
{
    50
}

/// The texts of `parts` in their order, with `separator` between two of
/// them.
pub open spec fn joined(parts: Seq<Seq<char>>, separator: Seq<char>) -> Seq<char>
    decreases parts.len(),
{
    if parts.len() == 0 {
        Seq::empty()
    } else if parts.len() == 1 {
        parts[0]
    } else {
        joined(parts.drop_last(), separator) + separator + parts.last()
    }
}

/// The condition that a hit has the quoted value in a field.
pub open spec fn quoted_condition(field: Seq<char>, value: Seq<char>) -> Seq<char> {
    field + " = \""@ + value + "\""@
}

/// The condition that a hit is, or is not, a folder.
pub open spec fn folder_condition(is_folder: bool) -> Seq<char> {
    "is_folder = "@ + if is_folder {
        "true"@
    } else {
        "false"@
    }
}

/// The conditions that the parameters put on the hits: on the owner, on
/// the media type and on being a folder, in this order, each only where
/// its parameter is given.
pub open spec fn conditions(params: SearchParamsView) -> Seq<Seq<char>> {
    (match params.owner_id {
        Some(o) => seq![quoted_condition("owner_id"@, o)],
        None => Seq::empty(),
    }) + (match params.mime_type {
        Some(m) => seq![quoted_condition("mime_type"@, m)],
        None => Seq::empty(),
    }) + (match params.is_folder {
        Some(f) => seq![folder_condition(f)],
        None => Seq::empty(),
    })
}

/// The filter of a search: its conditions joined by `AND`, or none where
/// there is no condition.
pub open spec fn filter_of(params: SearchParamsView) -> Option<Seq<char>> {
    if conditions(params).len() == 0 {
        None
    } else {
        Some(joined(conditions(params), " AND "@))
    }
}

/// What the parameters ask of the search index.
pub open spec fn request_of(params: SearchParamsView) -> SearchRequestView {
    SearchRequestView {
        query: params.q,
        filter: filter_of(params),
        limit: Some(params.limit),
        offset: Some(params.offset),
    }
}

/// The texts in their order, with the separator between two of them.
pub fn join(parts: &Vec<String>, separator: &str) -> (text: String)
    ensures
        text@ == joined(parts.deep_view(), separator@),
{
    let ghost all = parts.deep_view();
    if parts.len() == 0 {
        return String::new();
    }
    let mut text = parts[0].clone();
    let mut i: usize = 1;
    assert(all.take(1).len() == 1 && all.take(1)[0] == all[0]);
    while i < parts.len()
        invariant
            1 <= i <= parts.len(),
            all == parts.deep_view(),
            text@ == joined(all.take(i as int), separator@),
        decreases parts.len() - i,
    {
        proof {
            assert(all.take(i + 1).drop_last() =~= all.take(i as int));
            assert(all.take(i + 1).last() == all[i as int]);
        }
        text = text.concat(separator).concat(parts[i].as_str());
        i += 1;
    }
    assert(all.take(all.len() as int) =~= all);
    text
}

/// The filter of a search.
pub fn search_filter(params: &SearchParams) -> (filter: Option<String>)
    ensures
        filter.deep_view() == filter_of(params@),
{
    let mut filters: Vec<String> = Vec::new();
    assert(filters.deep_view() =~= Seq::empty());
    match &params.owner_id {
        Some(owner_id) => {
            let ghost before = filters.deep_view();
            let clause = String::from_str("owner_id").concat(" = \"").concat(
                owner_id.as_str(),
            ).concat("\"");
            filters.push(clause);
            assert(filters.deep_view() =~= before + seq![quoted_condition("owner_id"@, owner_id@)]);
        },
        None => {
            assert(filters.deep_view() =~= filters.deep_view() + Seq::empty());
        },
    }
    match &params.mime_type {
        Some(mime_type) => {
            let ghost before = filters.deep_view();
            let clause = String::from_str("mime_type").concat(" = \"").concat(
                mime_type.as_str(),
            ).concat("\"");
            filters.push(clause);
            assert(filters.deep_view() =~= before + seq![quoted_condition("mime_type"@, mime_type@)]);
        },
        None => {
            assert(filters.deep_view() =~= filters.deep_view() + Seq::empty());
        },
    }
    match params.is_folder {
        Some(is_folder) => {
            let ghost before = filters.deep_view();
            let clause = String::from_str("is_folder = ").concat(
                if is_folder {
                    "true"
                } else {
                    "false"
                },
            );
            filters.push(clause);
            assert(filters.deep_view() =~= before + seq![folder_condition(is_folder)]);
        },
        None => {
            assert(filters.deep_view() =~= filters.deep_view() + Seq::empty());
        },
    }
    assert(filters.deep_view() =~= conditions(params@));
    if filters.len() == 0 {
        None
    } else {
        Some(join(&filters, " AND "))
    }
}

/// What a search request of an authenticated principal asks of the search
/// index: the words, the filter, and the window. The hits of the index are
/// the answer to the request.
pub fn search_documents(_auth_user: &AuthUser, params: &SearchParams) -> (request: SearchRequest)
    ensures
        request@ == request_of(params@),
{
    SearchRequest {
        query: params.q.clone(),
        filter: search_filter(params),
        limit: Some(params.limit),
        offset: Some(params.offset),
    }
}

} // verus!
