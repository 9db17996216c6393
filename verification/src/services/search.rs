//! Documents as the search index holds them.

use vstd::prelude::*;
use crate::models::document::{Document, DocumentView};
use crate::text::{clone_opt_text, clone_texts};
use crate::utils::ident::{format_uuid, uuid_text};

verus! {

/// A document as the search index holds it.
#[derive(Debug)]
pub struct DocumentSearchIndex {
    /// The identifier in hyphenated form.
    pub id: String,
    pub name: String,
    pub description: Option<String>,
    pub mime_type: String,
    /// The owner's identifier in hyphenated form.
    pub owner_id: String,
    pub is_folder: bool,
    /// The tags that are present, in their order.
    pub tags: Vec<String>,
    /// Seconds since the Unix epoch.
    pub created_at: i64,
    /// Seconds since the Unix epoch.
    pub updated_at: i64,
}

/// The mathematical value of a [`DocumentSearchIndex`].
pub struct DocumentSearchIndexView {
    pub id: Seq<char>,
    pub name: Seq<char>,
    pub description: Option<Seq<char>>,
    pub mime_type: Seq<char>,
    pub owner_id: Seq<char>,
    pub is_folder: bool,
    pub tags: Seq<Seq<char>>,
    pub created_at: i64,
    pub updated_at: i64,
}

impl View for DocumentSearchIndex {
    type V = DocumentSearchIndexView;

    open spec fn view(&self) -> DocumentSearchIndexView {
        DocumentSearchIndexView {
            id: self.id.deep_view(),
            name: self.name.deep_view(),
            description: self.description.deep_view(),
            mime_type: self.mime_type.deep_view(),
            owner_id: self.owner_id.deep_view(),
            is_folder: self.is_folder,
            tags: self.tags.deep_view(),
            created_at: self.created_at,
            updated_at: self.updated_at,
        }
    }
}

impl DeepView for DocumentSearchIndex {
    type V = DocumentSearchIndexView;

    open spec fn deep_view(&self) -> DocumentSearchIndexView {
        self@
    }
}

impl Clone for DocumentSearchIndex {
    fn clone(&self) -> (r: Self)
        ensures
            r@ == self@,
    {
        DocumentSearchIndex {
            id: self.id.clone(),
            name: self.name.clone(),
            description: clone_opt_text(&self.description),
            mime_type: self.mime_type.clone(),
            owner_id: self.owner_id.clone(),
            is_folder: self.is_folder,
            tags: clone_texts(&self.tags),
            created_at: self.created_at,
            updated_at: self.updated_at,
        }
    }
}
/// The whole seconds of a time: the count of microseconds divided by a
/// million, rounded down.
pub open spec fn seconds_of(micros: i64) -> int {
    micros as int / 1_000_000
}

/// The tags of a document that are present, in their order.
pub open spec fn present_tags(tags: Option<Seq<Option<Seq<char>>>>) -> Seq<Seq<char>> {
    match tags {
        Some(t) => t.filter_map(|tag: Option<Seq<char>>| tag),
        None => Seq::empty(),
    }
}

/// The entry of the search index for a document.
pub open spec fn index_entry(doc: DocumentView) -> DocumentSearchIndexView {
    DocumentSearchIndexView {
        id: uuid_text(doc.id),
        name: doc.name,
        description: doc.description,
        mime_type: doc.mime_type,
        owner_id: uuid_text(doc.owner_id),
        is_folder: doc.is_folder,
        tags: present_tags(doc.tags),
        created_at: seconds_of(doc.created_at) as i64,
        updated_at: seconds_of(doc.updated_at) as i64,
    }
}

/// The whole seconds of a time.
pub fn timestamp_seconds(micros: i64) -> (seconds: i64)
    ensures
        seconds == seconds_of(micros),
{
    if micros >= 0 {
        micros / 1_000_000
    } else {
        let below: i64 = -(micros + 1);
        -(below / 1_000_000) - 1
    }
}

/// The tags that are present, in their order.
fn collect_tags(tags: &Option<Vec<Option<String>>>) -> (present: Vec<String>)
    ensures
        present.deep_view() == present_tags(tags.deep_view()),
{
    let mut present: Vec<String> = Vec::new();
    match tags {
        None => {
            assert(present.deep_view() =~= Seq::empty());
        },
        Some(t) => {
            let ghost all = t.deep_view();
            let ghost pick = |tag: Option<Seq<char>>| tag;
            let mut i: usize = 0;
            assert(all.take(0).filter_map(pick) =~= Seq::empty());
            assert(present.deep_view() =~= Seq::empty());
            while i < t.len()
                invariant
                    i <= t.len(),
                    all == t.deep_view(),
                    pick == (|tag: Option<Seq<char>>| tag),
                    present.deep_view() == all.take(i as int).filter_map(pick),
                decreases t.len() - i,
            {
                proof {
                    all.lemma_filter_map_take_succ(pick, i as int);
                }
                match &t[i] {
                    Some(tag) => {
                        let ghost before = present.deep_view();
                        present.push(tag.clone());
                        assert(present.deep_view() =~= before + seq![tag@]);
                    },
                    None => {},
                }
                i += 1;
            }
            assert(all.take(all.len() as int) =~= all);
        },
    }
    present
}

impl DocumentSearchIndex {
    /// The entry of the search index for a document: its identifiers in
    /// hyphenated form, its present tags, and its times in whole seconds.
    pub fn from_document(doc: &Document) -> (entry: DocumentSearchIndex)
        ensures
            entry@ == index_entry(doc@),
    {
        DocumentSearchIndex {
            id: format_uuid(doc.id),
            name: doc.name.clone(),
            description: clone_opt_text(&doc.description),
            mime_type: doc.mime_type.clone(),
            owner_id: format_uuid(doc.owner_id),
            is_folder: doc.is_folder,
            tags: collect_tags(&doc.tags),
            created_at: timestamp_seconds(doc.created_at),
            updated_at: timestamp_seconds(doc.updated_at),
        }
    }
}

} // verus!
