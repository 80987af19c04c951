//! The choice of the query from what the user asked for, the addresses its
//! requests go to, and the lines the user is shown.

use vstd::prelude::*;
use crate::driver::{Notice, Query};
use crate::endpoints::{
    collection_address,
    collections_address,
    search_address,
    search_url,
    uploads_query,
    user_collection_url,
    user_collections_url,
    user_query,
};
use crate::page::page_count;
use crate::wh_search::Search;

verus! {

/// The query for what the user asked for. A user with a collection asks for
/// that collection; a user alone for the user's uploads, whether or not a tag
/// is given too; a tag without a user for a search. With neither user nor
/// tag there is nothing to do.
pub open spec fn chosen(
    user: Option<String>,
    collection: Option<String>,
    tag: Option<String>,
) -> Option<Query> {
    match (user, collection, tag) {
        (Some(u), Some(c), _) => Some(Query::Collection { user: u, label: c }),
        (Some(u), None, _) => Some(Query::User { user: u }),
        (None, _, Some(t)) => Some(Query::Tag { tag: t }),
        (None, _, None) => None,
    }
}

/// The line shown when the run of `query` begins.
pub open spec fn announcement_text(query: Query) -> Seq<char> {
    match query {
        Query::Tag { tag } => "Searching uploads with tag "@ + tag@,
        Query::User { user } => "Searching uploads by "@ + user@,
        Query::Collection { user, label } => "Searching collection for "@ + user@,
    }
}

/// The message with which the run of `query` gives up after a download
/// failed. It names the query that was in progress: the tag, the user, or
/// the collection together with its user.
pub open spec fn failure_text(query: Query) -> Seq<char> {
    match query {
        Query::Tag { tag } => "Error while searching tag: "@ + tag@,
        Query::User { user } => "Error while searching uploads by user: "@ + user@,
        Query::Collection { user, label } => "Error while searching collection "@ + label@
            + " of user: "@ + user@,
    }
}

/// The failure message tells which kind of query was in progress: two
/// queries with the same message are both searches for a tag, both for a
/// user's uploads, or both for a collection.
pub proof fn lemma_failure_tells_kind(a: Query, b: Query)
    requires
        failure_text(a) == failure_text(b),
    ensures
        a is Tag <==> b is Tag,
        a is User <==> b is User,
        a is Collection <==> b is Collection,
{
    reveal_strlit("Error while searching tag: ");
    reveal_strlit("Error while searching uploads by user: ");
    reveal_strlit("Error while searching collection ");
    assert(failure_text(a)[22] == (match a {
        Query::Tag { tag } => 't',
        Query::User { user } => 'u',
        Query::Collection { user, label } => 'c',
    }));
    assert(failure_text(b)[22] == (match b {
        Query::Tag { tag } => 't',
        Query::User { user } => 'u',
        Query::Collection { user, label } => 'c',
    }));
}

/// The line shown when a search for `q` reports a total of zero.
pub open spec fn no_results_text(q: Seq<char>) -> Seq<char> {
    "No results found for query "@ + q
}

/// The line shown for `notice` in the run of `query`, if it has one. A
/// search names the tag, or the user without the `@`.
pub open spec fn notice_text(query: Query, notice: Notice) -> Option<Seq<char>> {
    match notice {
        Notice::Silent => None,
        Notice::NotFound => Some("User/Collection not found"@),
        Notice::NoResults => match query {
            Query::Tag { tag } => Some(no_results_text(tag@)),
            Query::User { user } => Some(no_results_text(user@)),
            Query::Collection { user, label } => Some(no_results_text(user@)),
        },
    }
}

/// The address of the list of collections that `query` needs, if it needs
/// one.
pub open spec fn list_address(query: Query) -> Option<Seq<char>> {
    match query {
        Query::Collection { user, label } => Some(collections_address(user@)),
        _ => None,
    }
}

/// The address of page `page` for `query`: of the search for the tag as it
/// stands, of the search for `@` and the user, or of the user's collection
/// `id`.
pub open spec fn page_address(query: Query, id: int, page: int) -> Seq<char> {
    match query {
        Query::Tag { tag } => search_address(tag@, page),
        Query::User { user } => search_address(uploads_query(user@), page),
        Query::Collection { user, label } => collection_address(user@, id, page),
    }
}

impl Query {
    /// Chooses the query from the three things a user may give.
    pub fn select(user: Option<String>, collection: Option<String>, tag: Option<String>) -> (r:
        Option<Query>)
        ensures
            r == chosen(user, collection, tag),
    {
        match user {
            Some(u) => match collection {
                Some(c) => Some(Query::Collection { user: u, label: c }),
                None => Some(Query::User { user: u }),
            },
            None => match tag {
                Some(t) => Some(Query::Tag { tag: t }),
                None => None,
            },
        }
    }

    /// The line shown when the run begins.
    pub fn announcement(&self) -> (r: String)
        ensures
            r@ == announcement_text(*self),
    {
        match self {
            Query::Tag { tag } => String::from_str("Searching uploads with tag ").concat(
                tag.as_str(),
            ),
            Query::User { user } => String::from_str("Searching uploads by ").concat(
                user.as_str(),
            ),
            Query::Collection { user, label } => String::from_str(
                "Searching collection for ",
            ).concat(user.as_str()),
        }
    }

    /// The message with which the run gives up after a download failed. It
    /// names the tag, the user, or the collection and its user.
    pub fn failure_message(&self) -> (r: String)
        ensures
            r@ == failure_text(*self),
    {
        match self {
            Query::Tag { tag } => String::from_str("Error while searching tag: ").concat(
                tag.as_str(),
            ),
            Query::User { user } => String::from_str(
                "Error while searching uploads by user: ",
            ).concat(user.as_str()),
            Query::Collection { user, label } => String::from_str(
                "Error while searching collection ",
            ).concat(label.as_str()).concat(" of user: ").concat(user.as_str()),
        }
    }

    /// The line to show for `notice`, if it has one.
    pub fn notice(&self, notice: Notice) -> (r: Option<String>)
        ensures
            match notice_text(*self, notice) {
                Some(text) => r matches Some(line) && line@ == text,
                None => r is None,
            },
    {
        match notice {
            Notice::Silent => None,
            Notice::NotFound => Some(String::from_str("User/Collection not found")),
            Notice::NoResults => {
                let named = match self {
                    Query::Tag { tag } => tag,
                    Query::User { user } => user,
                    Query::Collection { user, label } => user,
                };
                Some(String::from_str("No results found for query ").concat(named.as_str()))
            },
        }
    }

    /// The address of the list of collections, where the query needs one.
    pub fn list_url(&self) -> (r: Option<String>)
        ensures
            match list_address(*self) {
                Some(text) => r matches Some(url) && url@ == text,
                None => r is None,
            },
    {
        match self {
            Query::Collection { user, label } => Some(user_collections_url(user.as_str())),
            _ => None,
        }
    }

    /// The address of page `page`; `id` is the collection's, and plays no
    /// part in a search.
    pub fn page_url(&self, id: i32, page: i32) -> (r: String)
        ensures
            r@ == page_address(*self, id as int, page as int),
    {
        match self {
            Query::Tag { tag } => search_url(tag.as_str(), page),
            Query::User { user } => {
                let q = user_query(user.as_str());
                search_url(q.as_str(), page)
            },
            Query::Collection { user, label } => user_collection_url(user.as_str(), id, page),
        }
    }
}

/// The number of pages that the first answer of a search for `q` announces,
/// one more than its last page, and the line to show where it reports a
/// total of zero. The count is one more than the last page whether or not
/// anything was found.
pub fn get_pages(result: &Search, q: &str) -> (r: (i64, Option<String>))
    ensures
        r.0 == page_count(result.meta.last_page as int),
        result.meta.total == 0 ==> (r.1 matches Some(line) && line@ == no_results_text(q@)),
        result.meta.total != 0 ==> r.1 is None,
{
    let pages: i64 = result.meta.last_page as i64 + 1;
    if result.meta.total == 0 {
        (pages, Some(String::from_str("No results found for query ").concat(q)))
    } else {
        (pages, None)
    }
}

} // verus!
