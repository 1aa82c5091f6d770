//! Records of the code-review service, and where in a pull request's address
//! its repository is named.

use crate::pattern::{first_capture, regex_compiles, regex_first_capture};
use crate::text::{decimal, decimal_string};
use vstd::prelude::*;
use vstd::string::*;

verus! {

/// An account of the code-review service.
#[derive(Debug)]
pub struct User {
    pub login: String,
}

/// A pull request as the search endpoint lists it.
#[derive(Debug)]
pub struct Issue {
    pub id: usize,
    pub number: usize,
    pub title: String,
    pub user: User,
    pub html_url: String,
}

/// What an [`Issue`] holds, as plain text.
pub struct IssueView {
    pub id: usize,
    pub number: usize,
    pub title: Seq<char>,
    pub login: Seq<char>,
    pub html_url: Seq<char>,
}

impl View for Issue {
    type V = IssueView;

    open spec fn view(&self) -> IssueView {
        IssueView {
            id: self.id,
            number: self.number,
            title: self.title@,
            login: self.user.login@,
            html_url: self.html_url@,
        }
    }
}

impl Clone for User {
    fn clone(&self) -> (copy: Self)
        ensures
            copy.login@ == self.login@,
    {
        User { login: self.login.clone() }
    }
}

impl Clone for Issue {
    fn clone(&self) -> (copy: Self)
        ensures
            copy@ == self@,
    {
        Issue {
            id: self.id,
            number: self.number,
            title: self.title.clone(),
            user: self.user.clone(),
            html_url: self.html_url.clone(),
        }
    }
}

/// The shape of a pull request's address, with the owner of the repository
/// as its first group.
pub const OWNER_PATTERN: &'static str = "https://[^/]+/([^/]+)/[^/]+/pull/\\d+";

/// The shape of a pull request's address, with the name of the repository as
/// its first group.
pub const NAME_PATTERN: &'static str = "https://[^/]+/[^/]+/([^/]+)/pull/\\d+";

/// What to tell the user of an address that is not a pull request's.
pub const INVALID_URL_MESSAGE: &'static str = "Invalid pull request url";

/// Why a pull request's address did not yield a repository.
#[derive(Debug)]
pub enum UrlError {
    /// The address pattern itself was refused by the expression compiler.
    Pattern(regex::Error),
    /// The address does not have the shape of a pull request's address.
    InvalidUrl,
}

/// Why an address did not yield a repository, without what the expression
/// compiler said.
pub enum UrlErrorKind {
    Pattern,
    InvalidUrl,
}

impl View for UrlError {
    type V = UrlErrorKind;

    open spec fn view(&self) -> UrlErrorKind {
        match self {
            UrlError::Pattern(_) => UrlErrorKind::Pattern,
            UrlError::InvalidUrl => UrlErrorKind::InvalidUrl,
        }
    }
}

/// A text or the reason why there is none, as plain values.
pub open spec fn coordinate_view(r: Result<String, UrlError>) -> Result<Seq<char>, UrlErrorKind> {
    match r {
        Ok(text) => Ok(text@),
        Err(e) => Err(e@),
    }
}

/// What the address `url` yields under `pattern`: the text that the first
/// group of the pattern spans in its leftmost match, or the reason why
/// there is none.
pub open spec fn coordinate(pattern: Seq<char>, url: Seq<char>) -> Result<Seq<char>, UrlErrorKind> {
    if !regex_compiles(pattern) {
        Err(UrlErrorKind::Pattern)
    } else {
        match regex_first_capture(pattern, url, 1) {
            Some(text) => Ok(text),
            None => Err(UrlErrorKind::InvalidUrl),
        }
    }
}

/// Turns the outcome of a search for a group into the group's text, or into
/// the error that says why it is missing.
pub fn require_capture(found: Result<Option<String>, regex::Error>) -> (r: Result<String, UrlError>)
    ensures
        match found {
            Ok(Some(text)) => r == Ok::<String, UrlError>(text),
            Ok(None) => r == Err::<String, UrlError>(UrlError::InvalidUrl),
            Err(e) => r == Err::<String, UrlError>(UrlError::Pattern(e)),
        },
{
    match found {
        Ok(Some(text)) => Ok(text),
        Ok(None) => Err(UrlError::InvalidUrl),
        Err(e) => Err(UrlError::Pattern(e)),
    }
}

impl Issue {
    /// The owner of the repository, read from the pull request's address.
    pub fn repo_owner(&self) -> (r: Result<String, UrlError>)
        ensures
            coordinate_view(r) == coordinate(OWNER_PATTERN@, self@.html_url),
    {
        require_capture(first_capture(OWNER_PATTERN, self.html_url.as_str(), 1))
    }

    /// The name of the repository, read from the pull request's address.
    pub fn repo_name(&self) -> (r: Result<String, UrlError>)
        ensures
            coordinate_view(r) == coordinate(NAME_PATTERN@, self@.html_url),
    {
        require_capture(first_capture(NAME_PATTERN, self.html_url.as_str(), 1))
    }
}

/// One page of the search endpoint's answer.
#[derive(Debug)]
pub struct SearchIssuesResponse {
    pub items: Vec<Issue>,
}

/// An issue-level comment as the service reports it.
#[derive(Debug)]
pub struct Comment {
    pub id: usize,
    pub body: String,
    pub user: User,
    pub html_url: String,
}

/// What a raw [`Comment`] holds, as plain text.
pub struct CommentView {
    pub id: usize,
    pub body: Seq<char>,
    pub login: Seq<char>,
    pub html_url: Seq<char>,
}

impl View for Comment {
    type V = CommentView;

    open spec fn view(&self) -> CommentView {
        CommentView {
            id: self.id,
            body: self.body@,
            login: self.user.login@,
            html_url: self.html_url@,
        }
    }
}

/// The state of a review as the service reports it.  A pending review is a
/// draft that its author has not submitted yet.
#[derive(Debug, Clone, Copy, PartialEq, Eq, Structural)]
pub enum ReviewState {
    Commented,
    Approved,
    ChangesRequested,
    Pending,
}

/// A review as the service reports it.
#[derive(Debug)]
pub struct Review {
    pub id: usize,
    pub body: String,
    pub state: ReviewState,
    pub user: User,
    pub html_url: String,
}

/// What a raw [`Review`] holds, as plain text.
pub struct ReviewView {
    pub id: usize,
    pub body: Seq<char>,
    pub state: ReviewState,
    pub login: Seq<char>,
    pub html_url: Seq<char>,
}

impl View for Review {
    type V = ReviewView;

    open spec fn view(&self) -> ReviewView {
        ReviewView {
            id: self.id,
            body: self.body@,
            state: self.state,
            login: self.user.login@,
            html_url: self.html_url@,
        }
    }
}

/// A comment in a review's thread as the service reports it.
#[derive(Debug)]
pub struct ReviewComment {
    pub id: usize,
    pub pull_request_review_id: usize,
    pub body: String,
    pub user: User,
}

/// What a [`ReviewComment`] holds, as plain text.
pub struct ReviewCommentView {
    pub id: usize,
    pub pull_request_review_id: usize,
    pub body: Seq<char>,
    pub login: Seq<char>,
}

impl View for ReviewComment {
    type V = ReviewCommentView;

    open spec fn view(&self) -> ReviewCommentView {
        ReviewCommentView {
            id: self.id,
            pull_request_review_id: self.pull_request_review_id,
            body: self.body@,
            login: self.user.login@,
        }
    }
}

/// How many records the service is asked for at a time.
pub const PER_PAGE: usize = 100;

/// The root of the service's interface on the host `hostname`.
pub open spec fn api_base(hostname: Seq<char>) -> Seq<char> {
    "https://"@ + hostname + "/api/v3"@
}

/// The value that presents the access token `access_token` to the service.
pub open spec fn bearer(access_token: Seq<char>) -> Seq<char> {
    "Bearer "@ + access_token
}

/// The address of the search endpoint under the root `base_url`.
pub open spec fn search_address(base_url: Seq<char>) -> Seq<char> {
    base_url + "/search/issues"@
}

/// The path of one list of a pull request's activity: the item `number` of
/// the collection `collection` of a repository, and under it the list `leaf`.
pub open spec fn activity_route(
    owner: Seq<char>,
    name: Seq<char>,
    collection: Seq<char>,
    number: usize,
    leaf: Seq<char>,
) -> Seq<char> {
    "/repos/"@ + owner + "/"@ + name + "/"@ + collection + "/"@ + decimal(number as nat) + "/"@
        + leaf
}

/// The root of the service's interface on the host `hostname`.
pub fn api_base_url(hostname: &str) -> (url: String)
    ensures
        url@ == api_base(hostname@),
{
    let mut url = String::from_str("https://");
    url.append(hostname);
    url.append("/api/v3");
    url
}

/// The value that presents `access_token` to the service.
pub fn bearer_value(access_token: &str) -> (value: String)
    ensures
        value@ == bearer(access_token@),
{
    let mut value = String::from_str("Bearer ");
    value.append(access_token);
    value
}

/// The address of the search endpoint under the root `base_url`.
pub fn search_url(base_url: &str) -> (url: String)
    ensures
        url@ == search_address(base_url@),
{
    let mut url = String::from_str(base_url);
    url.append("/search/issues");
    url
}

/// The address of the path `path` under the root `base_url`.
pub fn endpoint_url(base_url: &str, path: &str) -> (url: String)
    ensures
        url@ == base_url@ + path@,
{
    let mut url = String::from_str(base_url);
    url.append(path);
    url
}

fn activity_path(
    repo_owner: &str,
    repo_name: &str,
    collection: &str,
    number: usize,
    leaf: &str,
) -> (path: String)
    ensures
        path@ == activity_route(repo_owner@, repo_name@, collection@, number, leaf@),
{
    let mut path = String::from_str("/repos/");
    path.append(repo_owner);
    path.append("/");
    path.append(repo_name);
    path.append("/");
    path.append(collection);
    path.append("/");
    path.append(decimal_string(number).as_str());
    path.append("/");
    path.append(leaf);
    path
}

/// The path under which the service lists the issue comments of a pull
/// request.
pub fn issue_comments_path(repo_owner: &str, repo_name: &str, pull_request_id: usize) -> (path:
    String)
    ensures
        path@ == activity_route(
            repo_owner@,
            repo_name@,
            "issues"@,
            pull_request_id,
            "comments"@,
        ),
{
    activity_path(repo_owner, repo_name, "issues", pull_request_id, "comments")
}

/// The path under which the service lists the reviews of a pull request.
pub fn reviews_path(repo_owner: &str, repo_name: &str, pull_request_id: usize) -> (path: String)
    ensures
        path@ == activity_route(repo_owner@, repo_name@, "pulls"@, pull_request_id, "reviews"@),
{
    activity_path(repo_owner, repo_name, "pulls", pull_request_id, "reviews")
}

/// The path under which the service lists the comments in the review threads
/// of a pull request.
pub fn review_comments_path(repo_owner: &str, repo_name: &str, pull_request_id: usize) -> (path:
    String)
    ensures
        path@ == activity_route(repo_owner@, repo_name@, "pulls"@, pull_request_id, "comments"@),
{
    activity_path(repo_owner, repo_name, "pulls", pull_request_id, "comments")
}

/// How far the reading of a paged list has come.
pub struct PagesView<T> {
    /// The records read so far, in order.
    pub items: Seq<T>,
    /// The number of the page to ask for next.
    pub page: usize,
    /// Whether the list has been read to its end.
    pub done: bool,
}

impl<T> PagesView<T> {
    /// The state after the service has answered the request for the next
    /// page with the records `parsed`.  An empty page ends the list.  So
    /// does, after its records are kept, a page whose number is the last
    /// that can be counted.
    pub open spec fn accepted(self, parsed: Seq<T>) -> PagesView<T> {
        if self.done || parsed.len() == 0 {
            PagesView { done: true, ..self }
        } else if self.page == usize::MAX {
            PagesView { items: self.items + parsed, done: true, ..self }
        } else {
            PagesView { items: self.items + parsed, page: (self.page + 1) as usize, done: false }
        }
    }
}

/// Reads a list that the service hands out page by page: pages are asked
/// for in order, from the first, until one comes back empty.
pub struct Pages<T> {
    items: Vec<T>,
    page: usize,
    done: bool,
}

impl<T> View for Pages<T> {
    type V = PagesView<T>;

    closed spec fn view(&self) -> PagesView<T> {
        PagesView { items: self.items@, page: self.page, done: self.done }
    }
}

impl<T> Pages<T> {
    /// Nothing read yet; the first page is the next to ask for.
    pub fn new() -> (pages: Self)
        ensures
            pages@ == (PagesView { items: Seq::<T>::empty(), page: 1, done: false }),
    {
        Pages { items: Vec::new(), page: 1, done: false }
    }

    /// The number of the page to ask for next, unless the list has been read
    /// to its end.
    pub fn next_page(&self) -> (page: Option<usize>)
        ensures
            page == if self@.done {
                None
            } else {
                Some(self@.page)
            },
    {
        if self.done {
            None
        } else {
            Some(self.page)
        }
    }

    /// Takes the records of the page that was asked for.
    pub fn accept(&mut self, parsed: Vec<T>)
        ensures
            final(self)@ == old(self)@.accepted(parsed@),
    {
        let mut parsed = parsed;
        if self.done || parsed.len() == 0 {
            self.done = true;
        } else {
            self.items.append(&mut parsed);
            if self.page == usize::MAX {
                self.done = true;
            } else {
                self.page = self.page + 1;
            }
        }
    }

    /// The records read, in order.
    pub fn into_items(self) -> (items: Vec<T>)
        ensures
            items@ == self@.items,
    {
        self.items
    }
}

} // verus!
