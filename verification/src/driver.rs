//! The run of one query: which request or download comes next, given what
//! the last one brought.
//!
//! The caller begins with [`State::Start`] and [`Event::Begin`], carries out
//! the [`Action`] of each [`Step`], and hands what happened back to [`step`]
//! as the next [`Event`], until the action is [`Action::Stop`] or
//! [`Action::Abort`].

use vstd::prelude::*;
use crate::page::{page_count, Page};
use crate::wh_collections::{first_id, Collections};

verus! {

/// What is to be downloaded.
#[derive(Clone, Debug, PartialEq, Eq)]
pub enum Query {
    /// Every image that a free-text search for `tag` finds.
    Tag { tag: String },
    /// Every image that `user` uploaded.
    User { user: String },
    /// Every image of the collection that `user` labelled `label`.
    Collection { user: String, label: String },
}

/// What the user is told beside an action.
#[derive(Clone, Copy, Debug, PartialEq, Eq, Structural)]
pub enum Notice {
    Silent,
    /// The search reported a total of zero.
    NoResults,
    /// The user has no collection of the requested label.
    NotFound,
}

/// Where a run stands.
#[derive(Clone, Debug, PartialEq, Eq)]
pub enum State {
    /// Nothing was asked yet.
    Start,
    /// The list of the user's collections was asked for.
    Resolving,
    /// Page 1 was asked for, to learn how many pages there are.
    Seeding { id: i32 },
    /// Page `page` was asked for, to download its images.
    Fetching { id: i32, page: i32, last_page: i32 },
    /// The download of `paths[next]`, an image of page `page`, was asked for.
    Saving { id: i32, page: i32, last_page: i32, paths: Vec<String>, next: usize },
    /// The run is over.
    Finished,
}

/// What the caller reports.
#[derive(Clone, Debug, PartialEq, Eq)]
pub enum Event {
    /// The run begins.
    Begin,
    /// The list of collections that was asked for, or the empty list where
    /// the request failed.
    Listed(Collections),
    /// The page that was asked for, or the empty page where the request
    /// failed.
    Fetched(Page),
    /// The download succeeded, or was skipped because the file is there.
    Saved,
    /// The download failed.
    Failed,
}

/// What the caller is to do next.
#[derive(Clone, Debug, PartialEq, Eq)]
pub enum Action {
    /// Ask for the list of the user's collections.
    FetchList,
    /// Ask for page `page` of the collection `id`, or of the search where
    /// the query is no collection.
    FetchPage { id: i32, page: i32 },
    /// Download the image at `url`.
    Download { url: String },
    /// Give up with the query's failure message.
    Abort,
    /// Nothing is left to do.
    Stop,
}

/// One decision: the state the run is in from now on, what to do, and what
/// to tell the user.
#[derive(Clone, Debug, PartialEq, Eq)]
pub struct Step {
    pub state: State,
    pub action: Action,
    pub notice: Notice,
}

impl State {
    /// The page numbers of a state lie between 1 and the last page, and a
    /// pending download is one of the page's images.
    pub open spec fn wf(self) -> bool {
        match self {
            State::Fetching { id, page, last_page } => 1 <= page <= last_page,
            State::Saving { id, page, last_page, paths, next } => 1 <= page <= last_page && next
                < paths@.len(),
            _ => true,
        }
    }
}

/// The end of a run, with `notice` for the user.
pub open spec fn finished(notice: Notice) -> Step {
    Step { state: State::Finished, action: Action::Stop, notice }
}

/// The request for page `page`.
pub open spec fn fetch(id: i32, page: i32, last_page: i32) -> Step {
    Step {
        state: State::Fetching { id, page, last_page },
        action: Action::FetchPage { id, page },
        notice: Notice::Silent,
    }
}

/// What follows once the images of page `page` before position `next` are
/// done with: the download of the image at `next`; after the last image the
/// request for the following page; after the last page the end.
pub open spec fn drain(id: i32, page: i32, last_page: i32, paths: Vec<String>, next: int) -> Step {
    if 0 <= next < paths@.len() {
        Step {
            state: State::Saving { id, page, last_page, paths, next: next as usize },
            action: Action::Download { url: paths@[next] },
            notice: Notice::Silent,
        }
    } else if page < last_page {
        fetch(id, (page + 1) as i32, last_page)
    } else {
        finished(Notice::Silent)
    }
}

/// What follows the first answer. Its images are not downloaded: where it
/// announces more than one page in all (`last_page + 1 > 1`), page 1 is
/// asked for again, and else the run ends. A search that reports a total of
/// zero is told to the user.
pub open spec fn after_seed(query: Query, id: i32, seed: Page) -> Step {
    let notice = if !(query is Collection) && seed.total == 0 {
        Notice::NoResults
    } else {
        Notice::Silent
    };
    if 1 < page_count(seed.last_page as int) {
        Step {
            state: State::Fetching { id, page: 1, last_page: seed.last_page },
            action: Action::FetchPage { id, page: 1 },
            notice,
        }
    } else {
        finished(notice)
    }
}

/// The decision for `event` in `state`. An event that the state does not
/// wait for ends the run.
pub open spec fn next_step(query: Query, state: State, event: Event) -> Step {
    match (state, event) {
        (State::Start, Event::Begin) => match query {
            Query::Collection { user, label } => Step {
                state: State::Resolving,
                action: Action::FetchList,
                notice: Notice::Silent,
            },
            _ => Step {
                state: State::Seeding { id: 0 },
                action: Action::FetchPage { id: 0, page: 1 },
                notice: Notice::Silent,
            },
        },
        (State::Resolving, Event::Listed(list)) => match query {
            Query::Collection { user, label } => match first_id(list.data@, label@) {
                Some(id) => Step {
                    state: State::Seeding { id },
                    action: Action::FetchPage { id, page: 1 },
                    notice: Notice::Silent,
                },
                None => finished(Notice::NotFound),
            },
            _ => finished(Notice::Silent),
        },
        (State::Seeding { id }, Event::Fetched(seed)) => after_seed(query, id, seed),
        (State::Fetching { id, page, last_page }, Event::Fetched(found)) => drain(
            id,
            page,
            last_page,
            found.paths,
            0,
        ),
        (State::Saving { id, page, last_page, paths, next }, Event::Saved) => drain(
            id,
            page,
            last_page,
            paths,
            next + 1,
        ),
        (State::Saving { id, page, last_page, paths, next }, Event::Failed) => Step {
            state: State::Finished,
            action: Action::Abort,
            notice: Notice::Silent,
        },
        _ => finished(Notice::Silent),
    }
}

fn finish(notice: Notice) -> (r: Step)
    ensures
        r == finished(notice),
{
    Step { state: State::Finished, action: Action::Stop, notice }
}

fn drain_from(id: i32, page: i32, last_page: i32, paths: Vec<String>, next: usize) -> (r: Step)
    ensures
        r == drain(id, page, last_page, paths, next as int),
{
    if next < paths.len() {
        let url = paths[next].clone();
        Step {
            state: State::Saving { id, page, last_page, paths, next },
            action: Action::Download { url },
            notice: Notice::Silent,
        }
    } else if page < last_page {
        Step {
            state: State::Fetching { id, page: page + 1, last_page },
            action: Action::FetchPage { id, page: page + 1 },
            notice: Notice::Silent,
        }
    } else {
        finish(Notice::Silent)
    }
}

/// Decides what follows `event` in `state` for the run of `query`.
pub fn step(query: &Query, state: State, event: Event) -> (r: Step)
    ensures
        r == next_step(*query, state, event),
        state.wf() ==> r.state.wf(),
{
    match (state, event) {
        (State::Start, Event::Begin) => match query {
            Query::Collection { user, label } => Step {
                state: State::Resolving,
                action: Action::FetchList,
                notice: Notice::Silent,
            },
            _ => Step {
                state: State::Seeding { id: 0 },
                action: Action::FetchPage { id: 0, page: 1 },
                notice: Notice::Silent,
            },
        },
        (State::Resolving, Event::Listed(list)) => match query {
            Query::Collection { user, label } => match list.find_id(label.as_str()) {
                Some(id) => Step {
                    state: State::Seeding { id },
                    action: Action::FetchPage { id, page: 1 },
                    notice: Notice::Silent,
                },
                None => finish(Notice::NotFound),
            },
            _ => finish(Notice::Silent),
        },
        (State::Seeding { id }, Event::Fetched(seed)) => {
            let searched = match query {
                Query::Collection { user, label } => false,
                _ => true,
            };
            let notice = if searched && seed.total == 0 {
                Notice::NoResults
            } else {
                Notice::Silent
            };
            if 1 < seed.page_count() {
                Step {
                    state: State::Fetching { id, page: 1, last_page: seed.last_page },
                    action: Action::FetchPage { id, page: 1 },
                    notice,
                }
            } else {
                finish(notice)
            }
        },
        (State::Fetching { id, page, last_page }, Event::Fetched(found)) => drain_from(
            id,
            page,
            last_page,
            found.paths,
            0,
        ),
        (State::Saving { id, page, last_page, paths, next }, Event::Saved) => {
            let following: usize = if next < paths.len() {
                next + 1
            } else {
                next
            };
            drain_from(id, page, last_page, paths, following)
        },
        (State::Saving { id, page, last_page, paths, next }, Event::Failed) => Step {
            state: State::Finished,
            action: Action::Abort,
            notice: Notice::Silent,
        },
        _ => finish(Notice::Silent),
    }
}

/// The first answer's images play no part: two first answers with the same
/// paging figures lead to the same decision, whatever images they list, and
/// that decision is never a download. Where it is a request, it asks for
/// page 1 once more.
pub proof fn lemma_seed_items_unused(query: Query, id: i32, a: Page, b: Page)
    requires
        a.last_page == b.last_page,
        a.total == b.total,
    ensures
        next_step(query, State::Seeding { id }, Event::Fetched(a)) == next_step(
            query,
            State::Seeding { id },
            Event::Fetched(b),
        ),
        !(next_step(query, State::Seeding { id }, Event::Fetched(a)).action is Download),
        a.last_page >= 1 ==> next_step(query, State::Seeding { id }, Event::Fetched(a)).action
            == (Action::FetchPage { id, page: 1 }),
        a.last_page < 1 ==> next_step(query, State::Seeding { id }, Event::Fetched(a)).action
            == Action::Stop,
{
}

/// A failed download ends the run at once, whichever image it was, and a
/// run that is over asks for nothing more whatever is reported to it.
pub proof fn lemma_failure_ends_run(
    query: Query,
    id: i32,
    page: i32,
    last_page: i32,
    paths: Vec<String>,
    next: usize,
    event: Event,
)
    ensures
        next_step(
            query,
            State::Saving { id, page, last_page, paths, next },
            Event::Failed,
        ) == (Step { state: State::Finished, action: Action::Abort, notice: Notice::Silent }),
        next_step(query, State::Finished, event) == finished(Notice::Silent),
{
}

/// The user is told of an empty result only on the first answer of a search,
/// and of a missing collection only when the list of collections arrives
/// for a query that names one.
pub proof fn lemma_notice_origin(query: Query, state: State, event: Event)
    ensures
        next_step(query, state, event).notice == Notice::NoResults ==> !(query is Collection)
            && state is Seeding,
        next_step(query, state, event).notice == Notice::NotFound ==> query is Collection
            && state is Resolving,
{
}

/// How far a run is from its end, as three numbers that are compared from
/// the left: the requests before the paging begins, the pages yet to be
/// answered, and the images of the current page yet to be saved.
pub open spec fn distance(state: State) -> (nat, nat, nat) {
    match state {
        State::Start => (3, 0, 0),
        State::Resolving => (2, 0, 0),
        State::Seeding { id } => (1, 0, 0),
        State::Fetching { id, page, last_page } => (0, (last_page - page + 1) as nat, 0),
        State::Saving { id, page, last_page, paths, next } => (
            0,
            (last_page - page) as nat,
            (paths@.len() - next) as nat,
        ),
        State::Finished => (0, 0, 0),
    }
}

/// Whether `a` is nearer to the end than `b`.
pub open spec fn nearer(a: (nat, nat, nat), b: (nat, nat, nat)) -> bool {
    a.0 < b.0 || (a.0 == b.0 && (a.1 < b.1 || (a.1 == b.1 && a.2 < b.2)))
}

/// Every run ends: a step that asks for a request or a download brings a
/// well-formed state nearer to the end, and any other step ends the run.
pub proof fn lemma_run_ends(query: Query, state: State, event: Event)
    requires
        state.wf(),
    ensures
        next_step(query, state, event).action is Stop || next_step(query, state, event).action
            is Abort ==> next_step(query, state, event).state == State::Finished,
        !(next_step(query, state, event).action is Stop || next_step(
            query,
            state,
            event,
        ).action is Abort) ==> nearer(
            distance(next_step(query, state, event).state),
            distance(state),
        ),
{
    if let State::Saving { id, page, last_page, paths, next } = state {
        assert(paths.len() == paths@.len());
    }
}

/// The downloads of the images at `paths` from position `from` on, in
/// order.
pub open spec fn downloads(paths: Seq<String>, from: int) -> Seq<Action>
    decreases paths.len() - from,
{
    if 0 <= from < paths.len() {
        seq![Action::Download { url: paths[from] }] + downloads(paths, from + 1)
    } else {
        seq![]
    }
}

/// What a run does from the request for page `page` on, when the request
/// for each page `p` is answered by `answers(p)` and every download
/// succeeds: for each page up to `last_page` in turn, the request for it and
/// then the download of each of its images, and at the end the stop.
pub open spec fn script(id: i32, page: int, last_page: int, answers: spec_fn(int) -> Page) -> Seq<
    Action,
>
    decreases last_page - page + 1,
{
    if page <= last_page {
        seq![Action::FetchPage { id, page: page as i32 }] + downloads(answers(page).paths@, 0)
            + script(id, page + 1, last_page, answers)
    } else {
        seq![Action::Stop]
    }
}

/// Whether a run that has just decided on `latest` takes exactly the
/// actions of `actions`, the action of `latest` first, when the request for
/// each page `p` is answered by `answers(p)` and every download succeeds.
pub open spec fn performs(
    query: Query,
    latest: Step,
    answers: spec_fn(int) -> Page,
    actions: Seq<Action>,
) -> bool
    decreases actions.len(),
{
    &&& actions.len() > 0
    &&& latest.action == actions[0]
    &&& match latest.action {
        Action::Download { url } => performs(
            query,
            next_step(query, latest.state, Event::Saved),
            answers,
            actions.drop_first(),
        ),
        Action::FetchPage { id, page } => performs(
            query,
            next_step(query, latest.state, Event::Fetched(answers(page as int))),
            answers,
            actions.drop_first(),
        ),
        _ => actions.len() == 1,
    }
}

proof fn lemma_drain_performs(
    query: Query,
    id: i32,
    page: i32,
    last_page: i32,
    paths: Vec<String>,
    next: int,
    answers: spec_fn(int) -> Page,
)
    requires
        1 <= page <= last_page,
        0 <= next <= paths@.len(),
    ensures
        performs(
            query,
            drain(id, page, last_page, paths, next),
            answers,
            downloads(paths@, next) + script(id, page + 1, last_page as int, answers),
        ),
    decreases last_page - page, paths@.len() - next,
{
    let rest = script(id, page + 1, last_page as int, answers);
    let actions = downloads(paths@, next) + rest;
    let latest = drain(id, page, last_page, paths, next);
    assert(paths.len() == paths@.len());
    if next < paths@.len() {
        lemma_drain_performs(query, id, page, last_page, paths, next + 1, answers);
        assert(actions.drop_first() =~= downloads(paths@, next + 1) + rest);
        assert(next_step(query, latest.state, Event::Saved) == drain(
            id,
            page,
            last_page,
            paths,
            next + 1,
        ));
    } else if page < last_page {
        let found = answers(page + 1);
        lemma_drain_performs(query, id, (page + 1) as i32, last_page, found.paths, 0, answers);
        assert(actions =~= rest);
        assert(actions.drop_first() =~= downloads(found.paths@, 0) + script(
            id,
            page + 2,
            last_page as int,
            answers,
        ));
        assert(next_step(query, latest.state, Event::Fetched(found)) == drain(
            id,
            (page + 1) as i32,
            last_page,
            found.paths,
            0,
        ));
    } else {
        assert(actions =~= seq![Action::Stop]);
    }
}

/// What a whole run does after its first answer `seed`, when the request
/// for each page `p` is answered by `answers(p)` and every download
/// succeeds: it asks for the pages 1 to `seed.last_page` in turn, page 1
/// anew, downloads every image of each answer in the order listed, and
/// stops. The images that `seed` lists are not among the downloads unless
/// an answer lists them again.
pub proof fn lemma_run_performs_script(
    query: Query,
    id: i32,
    seed: Page,
    answers: spec_fn(int) -> Page,
)
    ensures
        performs(
            query,
            next_step(query, State::Seeding { id }, Event::Fetched(seed)),
            answers,
            script(id, 1, seed.last_page as int, answers),
        ),
{
    let actions = script(id, 1, seed.last_page as int, answers);
    if seed.last_page >= 1 {
        let found = answers(1);
        lemma_drain_performs(query, id, 1, seed.last_page, found.paths, 0, answers);
        assert(actions.drop_first() =~= downloads(found.paths@, 0) + script(
            id,
            2,
            seed.last_page as int,
            answers,
        ));
    }
}

/// A first answer with a total of zero and a last page of zero, such as
/// the one that stands in for a failed request, announces one page. The run
/// then ends on it: the request that brought it stays the only one, and
/// nothing is downloaded. For a search the user is told that nothing was
/// found.
pub proof fn lemma_empty_answer_ends_run(
    query: Query,
    id: i32,
    seed: Page,
    answers: spec_fn(int) -> Page,
)
    requires
        seed.total == 0,
        seed.last_page == 0,
    ensures
        page_count(seed.last_page as int) == 1,
        next_step(query, State::Seeding { id }, Event::Fetched(seed)) == finished(
            if query is Collection {
                Notice::Silent
            } else {
                Notice::NoResults
            },
        ),
        script(id, 1, seed.last_page as int, answers) == seq![Action::Stop],
{
}

} // verus!
