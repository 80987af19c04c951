//! What the run reads of one fetched page, whichever endpoint it came from.

use vstd::prelude::*;

verus! {

/// One page of results reduced to what the run needs: where each image is
/// to be downloaded from, in the order the service listed them, and the
/// paging figures of the answer.
#[derive(Clone, Debug, PartialEq, Eq)]
pub struct Page {
    pub paths: Vec<String>,
    pub last_page: i32,
    pub total: i32,
}

/// The number of pages that an answer with this `last_page` announces: one
/// more than `last_page`. It is the exclusive upper bound of the pages
/// visited, which are numbered from 1.
pub open spec fn page_count(last_page: int) -> int {
    last_page + 1
}

impl Page {
    /// A page without items whose figures are all zero.
    pub fn empty() -> (r: Self)
        ensures
            r.paths@ == Seq::<String>::empty(),
            r.last_page == 0,
            r.total == 0,
    {
        Page { paths: Vec::new(), last_page: 0, total: 0 }
    }

    /// The number of pages this answer announces.
    pub fn page_count(&self) -> (r: i64)
        ensures
            r == page_count(self.last_page as int),
    {
        self.last_page as i64 + 1
    }
}

} // verus!
