//! One page of a user's collection, as the service answers it.

use vstd::prelude::*;
use crate::page::Page;

verus! {

/// The answer to a request for one page of a collection.
#[derive(Clone, Debug, PartialEq, Eq)]
pub struct Collection {
    pub data: Vec<Datum>,
    pub meta: Meta,
}

/// One image of a collection.
#[derive(Clone, Debug, PartialEq, Eq)]
pub struct Datum {
    pub id: String,
    pub url: String,
    pub short_url: String,
    pub views: i32,
    pub favorites: i32,
    pub source: String,
    pub purity: Purity,
    pub category: Category,
    pub dimension_x: i32,
    pub dimension_y: i32,
    pub resolution: String,
    pub ratio: String,
    pub file_size: i32,
    pub file_type: FileType,
    pub created_at: String,
    pub colors: Vec<String>,
    /// Where the image itself is downloaded from.
    pub path: String,
    pub thumbs: Thumbs,
}

/// Addresses of an image's thumbnails.
#[derive(Clone, Debug, PartialEq, Eq)]
pub struct Thumbs {
    pub large: String,
    pub original: String,
    pub small: String,
}

/// The paging figures of an answer.
#[derive(Clone, Copy, Debug, PartialEq, Eq, Structural)]
pub struct Meta {
    pub current_page: i32,
    pub last_page: i32,
    pub per_page: i32,
    pub total: i32,
}

#[derive(Clone, Copy, Debug, PartialEq, Eq, Structural)]
pub enum Category {
    General,
}

#[derive(Clone, Copy, Debug, PartialEq, Eq, Structural)]
pub enum FileType {
    ImageJpeg,
    ImagePng,
}

#[derive(Clone, Copy, Debug, PartialEq, Eq, Structural)]
pub enum Purity {
    Sfw,
}

/// Whether `page` holds the download addresses of `data`, one for one and in
/// order, together with the paging figures `last_page` and `total`.
pub open spec fn is_page_of(page: Page, data: Seq<Datum>, last_page: i32, total: i32) -> bool {
    &&& page.paths@.len() == data.len()
    &&& forall|i: int| 0 <= i < data.len() ==> page.paths@[i] == data[i].path
    &&& page.last_page == last_page
    &&& page.total == total
}

impl Collection {
    /// An answer without images whose figures are all zero, which stands in
    /// for an answer that could not be had.
    pub fn empty() -> (r: Self)
        ensures
            r.data@ == Seq::<Datum>::empty(),
            r.meta == (Meta { current_page: 0, last_page: 0, per_page: 0, total: 0 }),
    {
        Collection {
            data: Vec::new(),
            meta: Meta { current_page: 0, last_page: 0, per_page: 0, total: 0 },
        }
    }

    /// The answer to use for a request: the one that arrived, or the empty
    /// one where none did.
    pub fn or_empty(fetched: Option<Collection>) -> (r: Self)
        ensures
            fetched matches Some(c) ==> r == c,
            fetched is None ==> r.data@ == Seq::<Datum>::empty() && r.meta == (Meta {
                current_page: 0,
                last_page: 0,
                per_page: 0,
                total: 0,
            }),
    {
        match fetched {
            Some(c) => c,
            None => Collection::empty(),
        }
    }

    /// What the run reads of this answer.
    pub fn page(&self) -> (r: Page)
        ensures
            is_page_of(r, self.data@, self.meta.last_page, self.meta.total),
    {
        let mut paths: Vec<String> = Vec::new();
        let mut i: usize = 0;
        while i < self.data.len()
            invariant
                i <= self.data.len(),
                paths@.len() == i,
                forall|j: int| 0 <= j < i ==> paths@[j] == self.data@[j].path,
            decreases self.data.len() - i,
        {
            paths.push(self.data[i].path.clone());
            i += 1;
        }
        Page { paths, last_page: self.meta.last_page, total: self.meta.total }
    }
}

} // verus!
