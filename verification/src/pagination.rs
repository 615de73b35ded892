//! Fetching every open issue that carries a label, one page after another.
//!
//! The crate sends nothing itself. A fetch is a value that holds the request
//! to send next; the caller sends it and hands the reply to `advance`, which
//! answers with the fetch to go on with, with all the issues, or with the
//! error that ends the fetch.

use vstd::prelude::*;

use crate::error::{MissingField, TriageError};
use crate::queries::{
    TooOldLabelArguments,
    TooOldLabelIssue,
    TooOldLabelIssueConnection,
    TooOldLabelIssuesQuery,
};

verus! {

/// The most requests that one fetch sends.
pub const MAX_REQUESTS: u32 = 99;

/// The answer of the API to one request.
#[derive(Debug)]
pub struct GraphQlResponse {
    pub data: Option<TooOldLabelIssuesQuery>,
    /// What the API reports as gone wrong, one text for each error.
    pub errors: Option<Vec<String>>,
}

/// A fetch in progress: one request is to be sent and answered.
#[derive(Debug)]
pub struct IssueFetch {
    /// The variables of the request to send.
    pub args: TooOldLabelArguments,
    /// The issues of the pages received so far, in the order received.
    pub issues: Vec<TooOldLabelIssue>,
    /// How many more requests may follow the one to send.
    pub requests_left: u32,
}

/// Where a fetch stands after a reply.
#[derive(Debug)]
pub enum Progress {
    /// Another page follows: send the request of this fetch.
    Continue(IssueFetch),
    /// That was the last page: these are all the issues.
    Done(Vec<TooOldLabelIssue>),
    /// The fetch is over and gives no issues.
    Failed(TriageError),
}

/// A fetch as contracts see it.
pub struct FetchView {
    pub args: TooOldLabelArguments,
    pub issues: Seq<TooOldLabelIssue>,
    pub requests_left: u32,
}

/// The progress of a fetch as contracts see it.
pub enum ProgressView {
    Continue(FetchView),
    Done(Seq<TooOldLabelIssue>),
    Failed(TriageError),
}

impl View for IssueFetch {
    type V = FetchView;

    open spec fn view(&self) -> FetchView {
        FetchView { args: self.args, issues: self.issues@, requests_left: self.requests_left }
    }
}

impl View for Progress {
    type V = ProgressView;

    open spec fn view(&self) -> ProgressView {
        match *self {
            Progress::Continue(fetch) => ProgressView::Continue(fetch@),
            Progress::Done(issues) => ProgressView::Done(issues@),
            Progress::Failed(error) => ProgressView::Failed(error),
        }
    }
}

/// Whether the answer lists at least one error.
pub open spec fn reports_errors(response: GraphQlResponse) -> bool {
    response.errors matches Some(errors) && errors@.len() > 0
}

/// The page of issues that `reply` holds, or why it holds none.
///
/// A reply that never came is a transport error. An answer that lists
/// errors is an error of the API, whatever else it holds; an empty list
/// counts as none. An answer without data, or without a repository in it,
/// breaks the protocol.
pub open spec fn page_in(reply: Result<GraphQlResponse, String>) -> Result<
    TooOldLabelIssueConnection,
    TriageError,
> {
    match reply {
        Err(detail) => Err(TriageError::TransportError(detail)),
        Ok(response) => if reports_errors(response) {
            Err(TriageError::GraphQlError(response.errors->Some_0))
        } else {
            match response.data {
                None => Err(TriageError::ProtocolViolation(MissingField::Data)),
                Some(query) => match query.repository {
                    None => Err(TriageError::ProtocolViolation(MissingField::Repository)),
                    Some(repository) => Ok(repository.issues),
                },
            }
        },
    }
}

/// The page of issues that `reply` holds, or why it holds none.
pub fn decode(reply: Result<GraphQlResponse, String>) -> (page: Result<
    TooOldLabelIssueConnection,
    TriageError,
>)
    ensures
        page == page_in(reply),
{
    let response = match reply {
        Ok(response) => response,
        Err(detail) => {
            return Err(TriageError::TransportError(detail));
        },
    };
    match response.errors {
        Some(errors) => {
            if errors.len() > 0 {
                return Err(TriageError::GraphQlError(errors));
            }
        },
        None => {},
    }
    match response.data {
        None => Err(TriageError::ProtocolViolation(MissingField::Data)),
        Some(query) => match query.repository {
            None => Err(TriageError::ProtocolViolation(MissingField::Repository)),
            Some(repository) => Ok(repository.issues),
        },
    }
}

impl FetchView {
    /// Where the fetch stands once `page` has come in answer to its request.
    ///
    /// The page's issues join those gathered before. A page that is the last
    /// ends the fetch with all of them. Else the next request continues
    /// after the page's cursor, which must be there, and must still be
    /// allowed.
    pub open spec fn with_page(self, page: TooOldLabelIssueConnection) -> ProgressView {
        let issues = self.issues + page.nodes@;
        if !page.page_info.has_next_page {
            ProgressView::Done(issues)
        } else if page.page_info.end_cursor is None {
            ProgressView::Failed(TriageError::ProtocolViolation(MissingField::EndCursor))
        } else if self.requests_left == 0 {
            ProgressView::Failed(TriageError::RateLimitGuardTripped)
        } else {
            ProgressView::Continue(
                FetchView {
                    args: TooOldLabelArguments {
                        repository_owner: self.args.repository_owner,
                        repository_name: self.args.repository_name,
                        label: self.args.label,
                        threshold_in_months: self.args.threshold_in_months,
                        first: self.args.first,
                        after: page.page_info.end_cursor,
                    },
                    issues,
                    requests_left: (self.requests_left - 1) as u32,
                },
            )
        }
    }

    /// Where the fetch stands once `reply` has come in answer to its request.
    pub open spec fn advance(self, reply: Result<GraphQlResponse, String>) -> ProgressView {
        match page_in(reply) {
            Ok(page) => self.with_page(page),
            Err(error) => ProgressView::Failed(error),
        }
    }
}

impl IssueFetch {
    /// Takes the reply to the request of this fetch and says how to go on.
    ///
    /// Any error ends the fetch, and the issues gathered so far are dropped
    /// with it.
    pub fn advance(self, reply: Result<GraphQlResponse, String>) -> (progress: Progress)
        ensures
            progress@ == self@.advance(reply),
    {
        let page = match decode(reply) {
            Ok(page) => page,
            Err(error) => {
                return Progress::Failed(error);
            },
        };
        let IssueFetch { args, issues, requests_left } = self;
        let TooOldLabelIssueConnection { total_count: _, page_info, nodes } = page;
        let mut issues = issues;
        let mut nodes = nodes;
        issues.append(&mut nodes);
        if !page_info.has_next_page {
            return Progress::Done(issues);
        }
        let cursor = match page_info.end_cursor {
            Some(cursor) => cursor,
            None => {
                return Progress::Failed(TriageError::ProtocolViolation(MissingField::EndCursor));
            },
        };
        if requests_left == 0 {
            return Progress::Failed(TriageError::RateLimitGuardTripped);
        }
        Progress::Continue(
            IssueFetch {
                args: TooOldLabelArguments {
                    repository_owner: args.repository_owner,
                    repository_name: args.repository_name,
                    label: args.label,
                    threshold_in_months: args.threshold_in_months,
                    first: args.first,
                    after: Some(cursor),
                },
                issues,
                requests_left: requests_left - 1,
            },
        )
    }
}

/// Whatever ends a fetch without issues ends the whole run.
pub proof fn lemma_failed_fetch_aborts(fetch: FetchView, reply: Result<GraphQlResponse, String>)
    ensures
        fetch.advance(reply) matches ProgressView::Failed(e) ==> e.is_fatal(),
{
}

/// Starts a fetch of the open issues of a repository that carry `label`,
/// oldest first, `page_size` to a page.
///
/// The fetch that comes back holds the first request. It sends
/// `MAX_REQUESTS` requests in all; a fetch that needs one more fails instead
/// of draining the rate limit.
pub fn issues_with_label(
    repository_owner: &str,
    repository_name: &str,
    label: &str,
    page_size: i32,
) -> (fetch: IssueFetch)
    ensures
        starts(fetch@, repository_owner@, repository_name@, label@, page_size),
{
    IssueFetch {
        args: TooOldLabelArguments {
            repository_owner: repository_owner.to_owned(),
            repository_name: repository_name.to_owned(),
            label: label.to_owned(),
            threshold_in_months: 0,
            first: page_size,
            after: None,
        },
        issues: Vec::new(),
        requests_left: MAX_REQUESTS - 1,
    }
}

/// Starts the same fetch as `issues_with_label`, bounded like it.
pub fn old_labels_query(
    repository_owner: &str,
    repository_name: &str,
    label: &str,
    page_size: i32,
) -> (fetch: IssueFetch)
    ensures
        starts(fetch@, repository_owner@, repository_name@, label@, page_size),
{
    issues_with_label(repository_owner, repository_name, label, page_size)
}

/// Whether `fetch` is at its start: it asks for the first page of the
/// issues named by the other arguments, has gathered nothing, and may send
/// `MAX_REQUESTS` requests counting the first.
pub open spec fn starts(
    fetch: FetchView,
    repository_owner: Seq<char>,
    repository_name: Seq<char>,
    label: Seq<char>,
    page_size: i32,
) -> bool {
    &&& fetch.args.repository_owner@ == repository_owner
    &&& fetch.args.repository_name@ == repository_name
    &&& fetch.args.label@ == label
    &&& fetch.args.threshold_in_months == 0
    &&& fetch.args.first == page_size
    &&& fetch.args.after is None
    &&& fetch.issues.len() == 0
    &&& fetch.requests_left == MAX_REQUESTS - 1
}

/// Where `fetch` stands after `replies` have come, one to each request it
/// sent. Replies that come after the fetch is over are not looked at.
pub open spec fn run(fetch: FetchView, replies: Seq<Result<GraphQlResponse, String>>) -> ProgressView
    decreases replies.len(),
{
    if replies.len() == 0 {
        ProgressView::Continue(fetch)
    } else {
        match fetch.advance(replies.first()) {
            ProgressView::Continue(next) => run(next, replies.drop_first()),
            over => over,
        }
    }
}

/// Whether `reply` holds a page that says another follows and gives the
/// cursor to reach it.
pub open spec fn announces_more(reply: Result<GraphQlResponse, String>) -> bool {
    &&& page_in(reply) matches Ok(page)
    &&& page.page_info.has_next_page
    &&& page.page_info.end_cursor is Some
}

/// The issues of the pages in `replies`, in order. A reply without a page
/// adds none.
pub open spec fn gathered(replies: Seq<Result<GraphQlResponse, String>>) -> Seq<TooOldLabelIssue>
    decreases replies.len(),
{
    if replies.len() == 0 {
        Seq::empty()
    } else {
        gathered(replies.drop_last()) + match page_in(replies.last()) {
            Ok(page) => page.nodes@,
            Err(_) => Seq::empty(),
        }
    }
}

/// Running through one reply is taking it.
proof fn lemma_run_one(fetch: FetchView, reply: Result<GraphQlResponse, String>)
    ensures
        run(fetch, seq![reply]) == fetch.advance(reply),
{
    reveal_with_fuel(run, 2);
    assert(seq![reply].first() == reply);
    assert(seq![reply].drop_first().len() == 0);
}

/// Running through `first` and then `second` is running through `first`
/// and, if the fetch still goes on, through `second` from there.
proof fn lemma_run_in_two(
    fetch: FetchView,
    first: Seq<Result<GraphQlResponse, String>>,
    second: Seq<Result<GraphQlResponse, String>>,
)
    ensures
        run(fetch, first + second) == match run(fetch, first) {
            ProgressView::Continue(next) => run(next, second),
            over => over,
        },
    decreases first.len(),
{
    if first.len() == 0 {
        assert(first + second =~= second);
    } else {
        let both = first + second;
        assert(both.first() == first.first());
        assert(both.drop_first() =~= first.drop_first() + second);
        if let ProgressView::Continue(next) = fetch.advance(first.first()) {
            lemma_run_in_two(next, first.drop_first(), second);
        }
    }
}

/// A fetch goes on through replies that each announce another page, as far
/// as it may send requests: it gathers their issues and counts them off.
proof fn lemma_run_goes_on(fetch: FetchView, replies: Seq<Result<GraphQlResponse, String>>)
    requires
        replies.len() <= fetch.requests_left,
        forall|k: int| 0 <= k < replies.len() ==> announces_more(#[trigger] replies[k]),
    ensures
        run(fetch, replies) matches ProgressView::Continue(next) && next.issues == fetch.issues
            + gathered(replies) && next.requests_left == fetch.requests_left - replies.len(),
    decreases replies.len(),
{
    if replies.len() == 0 {
        assert(fetch.issues + gathered(replies) =~= fetch.issues);
    } else {
        let front = replies.drop_last();
        let last = replies.last();
        assert forall|k: int| 0 <= k < front.len() implies announces_more(#[trigger] front[k]) by {
            assert(front[k] == replies[k]);
        }
        lemma_run_goes_on(fetch, front);
        let middle = run(fetch, front)->Continue_0;
        assert(announces_more(replies[replies.len() - 1]));
        lemma_run_in_two(fetch, front, seq![last]);
        assert(front + seq![last] =~= replies);
        lemma_run_one(middle, last);
        assert(fetch.issues + gathered(front) + page_in(last)->Ok_0.nodes@ =~= fetch.issues
            + gathered(replies));
    }
}

/// Whatever the replies are, a fetch is over with the last request that it
/// may send: no fetch sends more than `MAX_REQUESTS`.
pub proof fn lemma_fetch_is_bounded(fetch: FetchView, replies: Seq<Result<GraphQlResponse, String>>)
    requires
        replies.len() > fetch.requests_left,
    ensures
        !(run(fetch, replies) is Continue),
    decreases replies.len(),
{
    if let ProgressView::Continue(next) = fetch.advance(replies.first()) {
        lemma_fetch_is_bounded(next, replies.drop_first());
    }
}

/// A fetch that is told of another page by every reply fails on the last
/// request that it may send, and not before.
pub proof fn lemma_guard_trips(fetch: FetchView, replies: Seq<Result<GraphQlResponse, String>>)
    requires
        replies.len() == fetch.requests_left + 1,
        forall|k: int| 0 <= k < replies.len() ==> announces_more(#[trigger] replies[k]),
    ensures
        run(fetch, replies) == ProgressView::Failed(TriageError::RateLimitGuardTripped),
        forall|sent: int| 0 <= sent < replies.len() ==> #[trigger] run(fetch, replies.take(sent))
            is Continue,
{
    let front = replies.drop_last();
    let last = replies.last();
    lemma_run_goes_on(fetch, front);
    let middle = run(fetch, front)->Continue_0;
    assert(announces_more(replies[replies.len() - 1]));
    lemma_run_in_two(fetch, front, seq![last]);
    assert(front + seq![last] =~= replies);
    lemma_run_one(middle, last);
    assert forall|sent: int| 0 <= sent < replies.len() implies (#[trigger] run(
        fetch,
        replies.take(sent),
    )) is Continue by {
        lemma_run_goes_on(fetch, replies.take(sent));
    }
}

/// How many pages of `page_size` it takes to hold `total` issues.
pub open spec fn pages_needed(total: int, page_size: int) -> int {
    (total + page_size - 1) / page_size
}

/// Whether `reply` is page number `index`, counted from zero, of `all` cut
/// into pages of `page_size`: it holds the issues of that page in order,
/// says truly whether another page follows, and gives a cursor if one does.
pub open spec fn serves(
    reply: Result<GraphQlResponse, String>,
    all: Seq<TooOldLabelIssue>,
    page_size: int,
    index: int,
) -> bool {
    let from = index * page_size;
    let to = if from + page_size < all.len() {
        from + page_size
    } else {
        all.len() as int
    };
    &&& page_in(reply) matches Ok(page)
    &&& page.nodes@ == all.subrange(from, to)
    &&& page.page_info.has_next_page == (to < all.len())
    &&& page.page_info.has_next_page ==> page.page_info.end_cursor is Some
}

/// Page `index` starts inside the issues just when it is one of the pages
/// needed.
proof fn lemma_pages_needed(total: int, page_size: int, index: int)
    requires
        page_size > 0,
        total >= 0,
        index >= 0,
    ensures
        index < pages_needed(total, page_size) <==> index * page_size < total,
        (index + 1) * page_size == index * page_size + page_size,
{
    let needed = pages_needed(total, page_size);
    let x = total + page_size - 1;
    let rem = x % page_size;
    vstd::arithmetic::div_mod::lemma_fundamental_div_mod(x, page_size);
    assert(index < needed ==> index * page_size < total) by (nonlinear_arith)
        requires
            x == page_size * needed + rem,
            0 <= rem < page_size,
            x == total + page_size - 1,
            index >= 0,
    ;
    assert(index >= needed ==> index * page_size >= total) by (nonlinear_arith)
        requires
            x == page_size * needed + rem,
            0 <= rem < page_size,
            x == total + page_size - 1,
            index >= 0,
    ;
    assert((index + 1) * page_size == index * page_size + page_size) by (nonlinear_arith);
}

/// The first `count` of the pages needed, none of them the last, hold the
/// first `count * page_size` issues, and each announces another page.
proof fn lemma_served_pages(
    all: Seq<TooOldLabelIssue>,
    page_size: int,
    replies: Seq<Result<GraphQlResponse, String>>,
    count: int,
)
    requires
        page_size > 0,
        0 <= count < replies.len(),
        replies.len() <= pages_needed(all.len() as int, page_size),
        forall|k: int| 0 <= k < replies.len() ==> serves(#[trigger] replies[k], all, page_size, k),
    ensures
        gathered(replies.take(count)) == all.take(count * page_size),
        count * page_size < all.len(),
        forall|k: int| 0 <= k < count ==> announces_more(#[trigger] replies.take(count)[k]),
    decreases count,
{
    lemma_pages_needed(all.len() as int, page_size, count);
    if count == 0 {
        assert(count * page_size == 0) by (nonlinear_arith)
            requires
                count == 0,
        ;
        assert(replies.take(0).len() == 0);
        assert(all.take(0) =~= Seq::empty());
    } else {
        let before = count - 1;
        lemma_served_pages(all, page_size, replies, before);
        lemma_pages_needed(all.len() as int, page_size, before);
        let pages = replies.take(count);
        assert(pages.drop_last() =~= replies.take(before));
        assert(pages.last() == replies[before]);
        assert(serves(replies[before], all, page_size, before));
        assert(gathered(pages) == gathered(replies.take(before)) + page_in(
            replies[before],
        )->Ok_0.nodes@);
        assert(count * page_size == before * page_size + page_size);
        assert(all.take(before * page_size) + all.subrange(
            before * page_size,
            count * page_size,
        ) =~= all.take(count * page_size));
        assert forall|k: int| 0 <= k < count implies announces_more(#[trigger] pages[k]) by {
            if k < before {
                assert(pages[k] == replies.take(before)[k]);
            }
        }
    }
}

/// A fetch asks for just as many pages as hold all the issues, and gives
/// the issues as the pages held them.
///
/// `all` are the issues that the API holds, one at least, and `replies` its
/// answers when it cuts them into pages of `page_size`. If the fetch may
/// send that many requests, it is over with the last of the replies and not
/// before, and gives `all`.
pub proof fn lemma_fetch_gathers_all(
    fetch: FetchView,
    all: Seq<TooOldLabelIssue>,
    page_size: int,
    replies: Seq<Result<GraphQlResponse, String>>,
)
    requires
        fetch.issues.len() == 0,
        page_size > 0,
        all.len() > 0,
        replies.len() == pages_needed(all.len() as int, page_size),
        replies.len() <= fetch.requests_left + 1,
        forall|k: int| 0 <= k < replies.len() ==> serves(#[trigger] replies[k], all, page_size, k),
    ensures
        run(fetch, replies) == ProgressView::Done(all),
        forall|sent: int| 0 <= sent < replies.len() ==> #[trigger] run(fetch, replies.take(sent))
            is Continue,
{
    lemma_pages_needed(all.len() as int, page_size, 0);
    assert forall|sent: int| 0 <= sent < replies.len() implies (#[trigger] run(
        fetch,
        replies.take(sent),
    )) is Continue by {
        lemma_served_pages(all, page_size, replies, sent);
        lemma_run_goes_on(fetch, replies.take(sent));
    }
    let sent = replies.len() - 1;
    let front = replies.take(sent);
    let last = replies[sent];
    lemma_served_pages(all, page_size, replies, sent);
    lemma_run_goes_on(fetch, front);
    let middle = run(fetch, front)->Continue_0;
    assert(middle.issues =~= all.take(sent * page_size));
    lemma_pages_needed(all.len() as int, page_size, sent);
    lemma_pages_needed(all.len() as int, page_size, sent + 1);
    assert(serves(last, all, page_size, sent));
    lemma_run_in_two(fetch, front, seq![last]);
    assert(front + seq![last] =~= replies);
    lemma_run_one(middle, last);
    assert(all.take(sent * page_size) + all.subrange(sent * page_size, all.len() as int) =~= all);
}

} // verus!
