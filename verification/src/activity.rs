//! From the records of the code-review service to the current activity of a
//! pull request: what survives the noise filter, in the uniform model, with
//! each review's thread comments attached to it.

use crate::clients::github;
use crate::clients::github::{Issue, IssueView};
use crate::feedback;
use crate::feedback::submitted_state;
use crate::filter::{
    comment_excluded, is_comment_excluded, is_review_excluded, review_excluded, ExcludePatterns,
};
use std::collections::HashMap;
use vstd::prelude::*;

verus! {

/// The comment records of a list, as plain text.
pub open spec fn comment_records(raw: Seq<github::Comment>) -> Seq<github::CommentView> {
    raw.map_values(|c: github::Comment| c@)
}

/// The review records of a list, as plain text.
pub open spec fn review_records(raw: Seq<github::Review>) -> Seq<github::ReviewView> {
    raw.map_values(|r: github::Review| r@)
}

/// The thread comment records of a list, as plain text.
pub open spec fn thread_records(raw: Seq<github::ReviewComment>) -> Seq<github::ReviewCommentView> {
    raw.map_values(|c: github::ReviewComment| c@)
}

/// The comments of a map, as plain text.
pub open spec fn comment_views(comments: Map<usize, feedback::Comment>) -> Map<
    usize,
    feedback::CommentView,
> {
    comments.map_values(|c: feedback::Comment| c@)
}

/// The reviews of a map, as plain text.
pub open spec fn review_views(reviews: Map<usize, feedback::Review>) -> Map<
    usize,
    feedback::ReviewView,
> {
    reviews.map_values(|r: feedback::Review| r@)
}

/// A comment record in the uniform model, for the pull request at `pr_url`.
pub open spec fn normalize_comment(c: github::CommentView, pr_url: Seq<char>) -> feedback::CommentView {
    feedback::CommentView { author: c.login, body: c.body, pr_url, url: c.html_url }
}

/// A submitted review record in the uniform model, for the pull request at
/// `pr_url`, before any thread comment is attached.
pub open spec fn normalize_review(r: github::ReviewView, pr_url: Seq<char>) -> feedback::ReviewView
    recommends
        r.state != github::ReviewState::Pending,
{
    feedback::ReviewView {
        author: r.login,
        state: submitted_state(r.state).unwrap(),
        body: if r.body.len() == 0 {
            None
        } else {
            Some(r.body)
        },
        comments: Seq::empty(),
        pr_url,
        url: r.html_url,
    }
}

/// The comments that survive the noise filter, by identifier.  Where two
/// records share an identifier, the later one stands.
pub open spec fn surviving_comments(
    raw: Seq<github::CommentView>,
    pr_url: Seq<char>,
    username: Seq<char>,
    patterns: Seq<Seq<char>>,
) -> Map<usize, feedback::CommentView>
    decreases raw.len(),
{
    if raw.len() == 0 {
        Map::empty()
    } else {
        let earlier = surviving_comments(raw.drop_last(), pr_url, username, patterns);
        let c = raw.last();
        if comment_excluded(c, username, patterns) {
            earlier
        } else {
            earlier.insert(c.id, normalize_comment(c, pr_url))
        }
    }
}

/// The reviews that survive the noise filter, by identifier, before any
/// thread comment is attached.  Where two records share an identifier, the
/// later one stands.
pub open spec fn surviving_reviews(
    raw: Seq<github::ReviewView>,
    pr_url: Seq<char>,
    username: Seq<char>,
    patterns: Seq<Seq<char>>,
) -> Map<usize, feedback::ReviewView>
    decreases raw.len(),
{
    if raw.len() == 0 {
        Map::empty()
    } else {
        let earlier = surviving_reviews(raw.drop_last(), pr_url, username, patterns);
        let r = raw.last();
        if review_excluded(r, username, patterns) {
            earlier
        } else {
            earlier.insert(r.id, normalize_review(r, pr_url))
        }
    }
}

/// The texts of the thread comments whose parent is the review `review_id`,
/// in arrival order.
pub open spec fn thread_bodies(thread: Seq<github::ReviewCommentView>, review_id: usize) -> Seq<
    Seq<char>,
>
    decreases thread.len(),
{
    if thread.len() == 0 {
        Seq::empty()
    } else {
        let earlier = thread_bodies(thread.drop_last(), review_id);
        if thread.last().pull_request_review_id == review_id {
            earlier.push(thread.last().body)
        } else {
            earlier
        }
    }
}

/// The reviews with their thread comments attached: each review gains the
/// texts of the thread comments that name it as their parent, in arrival
/// order.  A thread comment whose parent is not among the reviews is dropped.
pub open spec fn assembled_reviews(
    reviews: Map<usize, feedback::ReviewView>,
    thread: Seq<github::ReviewCommentView>,
) -> Map<usize, feedback::ReviewView> {
    Map::new(
        |id: usize| reviews.contains_key(id),
        |id: usize|
            feedback::ReviewView {
                comments: reviews[id].comments + thread_bodies(thread, id),
                ..reviews[id]
            },
    )
}

/// Brings a comment record of the pull request `pr` into the uniform model.
pub fn comment_from_record(record: &github::Comment, pr: &Issue) -> (comment: feedback::Comment)
    ensures
        comment@ == normalize_comment(record@, pr@.html_url),
{
    feedback::Comment::new(
        record.user.login.clone(),
        record.body.clone(),
        pr.html_url.clone(),
        record.html_url.clone(),
    )
}

/// Brings a review record of the pull request `pr` into the uniform model,
/// without thread comments.  A pending review has no place in the model.
pub fn review_from_record(record: &github::Review, pr: &Issue) -> (review: Option<feedback::Review>)
    ensures
        match review {
            Some(r) => record.state != github::ReviewState::Pending && r@ == normalize_review(
                record@,
                pr@.html_url,
            ),
            None => record.state == github::ReviewState::Pending,
        },
{
    match feedback::ReviewState::from_remote(record.state) {
        Some(state) => Some(
            feedback::Review::new(
                record.user.login.clone(),
                state,
                record.body.clone(),
                pr.html_url.clone(),
                record.html_url.clone(),
            ),
        ),
        None => None,
    }
}

/// The comments of a pull request that count as activity, by identifier.
pub fn comments_by_ids(
    comments_response: &Vec<github::Comment>,
    pr: &Issue,
    username: &String,
    exclude_comment_patterns: &ExcludePatterns,
) -> (ret: HashMap<usize, feedback::Comment>)
    ensures
        comment_views(ret@) == surviving_comments(
            comment_records(comments_response@),
            pr@.html_url,
            username@,
            exclude_comment_patterns@,
        ),
{
    broadcast use vstd::std_specs::hash::group_hash_axioms;

    let ghost raw = comment_records(comments_response@);
    let mut ret: HashMap<usize, feedback::Comment> = HashMap::new();
    let mut i: usize = 0;
    while i < comments_response.len()
        invariant
            i <= comments_response.len(),
            raw == comment_records(comments_response@),
            comment_views(ret@) == surviving_comments(
                raw.take(i as int),
                pr@.html_url,
                username@,
                exclude_comment_patterns@,
            ),
        decreases comments_response.len() - i,
    {
        let x = &comments_response[i];
        assert(raw.take(i + 1).drop_last() =~= raw.take(i as int));
        if !is_comment_excluded(x, username, exclude_comment_patterns) {
            ret.insert(x.id, comment_from_record(x, pr));
        }
        i = i + 1;
    }
    assert(raw.take(i as int) =~= raw);
    ret
}

/// The reviews that survive the noise filter, by identifier, before any
/// thread comment is attached.
fn filtered_reviews(
    reviews_response: &Vec<github::Review>,
    pr: &Issue,
    username: &String,
    exclude_comment_patterns: &ExcludePatterns,
) -> (ret: HashMap<usize, feedback::Review>)
    ensures
        review_views(ret@) == surviving_reviews(
            review_records(reviews_response@),
            pr@.html_url,
            username@,
            exclude_comment_patterns@,
        ),
{
    broadcast use vstd::std_specs::hash::group_hash_axioms;

    let ghost raw = review_records(reviews_response@);
    let mut ret: HashMap<usize, feedback::Review> = HashMap::new();
    let mut i: usize = 0;
    while i < reviews_response.len()
        invariant
            i <= reviews_response.len(),
            raw == review_records(reviews_response@),
            review_views(ret@) == surviving_reviews(
                raw.take(i as int),
                pr@.html_url,
                username@,
                exclude_comment_patterns@,
            ),
        decreases reviews_response.len() - i,
    {
        let x = &reviews_response[i];
        assert(raw.take(i + 1).drop_last() =~= raw.take(i as int));
        if !is_review_excluded(x, username, exclude_comment_patterns) {
            if let Some(review) = review_from_record(x, pr) {
                ret.insert(x.id, review);
            }
        }
        i = i + 1;
    }
    assert(raw.take(i as int) =~= raw);
    ret
}

/// Attaches each thread comment to the review that it names as its parent,
/// in arrival order.  A thread comment whose parent is not in `reviews` is
/// dropped.
pub fn attach_review_comments(
    reviews: &mut HashMap<usize, feedback::Review>,
    review_comments_response: &Vec<github::ReviewComment>,
)
    ensures
        review_views(final(reviews)@) == assembled_reviews(
            review_views(old(reviews)@),
            thread_records(review_comments_response@),
        ),
{
    broadcast use vstd::std_specs::hash::group_hash_axioms;

    let ghost start = review_views(reviews@);
    let ghost thread = thread_records(review_comments_response@);
    let mut i: usize = 0;
    while i < review_comments_response.len()
        invariant
            i <= review_comments_response.len(),
            thread == thread_records(review_comments_response@),
            review_views(reviews@) == assembled_reviews(start, thread.take(i as int)),
        decreases review_comments_response.len() - i,
    {
        let review_comment = &review_comments_response[i];
        let parent: usize = review_comment.pull_request_review_id;
        let ghost before = review_views(reviews@);
        assert(thread.take(i + 1).drop_last() =~= thread.take(i as int));
        match reviews.remove(&parent) {
            Some(mut review) => {
                review.add_comment(review_comment.body.clone());
                reviews.insert(parent, review);
            },
            None => {},
        }
        assert(review_views(reviews@) =~= assembled_reviews(start, thread.take(i + 1))) by {
            assert forall|id: usize| start.contains_key(id) implies #[trigger] review_views(
                reviews@,
            )[id] == assembled_reviews(start, thread.take(i + 1))[id] by {
                assert(before[id] == assembled_reviews(start, thread.take(i as int))[id]);
                if id == parent {
                    assert(start[id].comments + thread_bodies(thread.take(i + 1), id) =~= (
                    start[id].comments + thread_bodies(thread.take(i as int), id)).push(
                        review_comment@.body,
                    ));
                }
            }
        }
        i = i + 1;
    }
    assert(thread.take(i as int) =~= thread);
}

/// The reviews of a pull request that count as activity, by identifier, each
/// with its thread comments attached.
pub fn reviews_by_ids(
    reviews_response: &Vec<github::Review>,
    review_comments_response: &Vec<github::ReviewComment>,
    pr: &Issue,
    username: &String,
    exclude_comment_patterns: &ExcludePatterns,
) -> (ret: HashMap<usize, feedback::Review>)
    ensures
        review_views(ret@) == assembled_reviews(
            surviving_reviews(
                review_records(reviews_response@),
                pr@.html_url,
                username@,
                exclude_comment_patterns@,
            ),
            thread_records(review_comments_response@),
        ),
{
    let mut ret = filtered_reviews(reviews_response, pr, username, exclude_comment_patterns);
    attach_review_comments(&mut ret, review_comments_response);
    ret
}

/// What the code-review service reports of one pull request: its issue
/// comments, its reviews and the comments in its review threads, each list
/// complete and in the order of the service.
#[derive(Debug)]
pub struct RemoteActivity {
    pub comments: Vec<github::Comment>,
    pub reviews: Vec<github::Review>,
    pub review_comments: Vec<github::ReviewComment>,
}

/// What a [`RemoteActivity`] holds, as plain text.
pub struct RemoteActivityView {
    pub comments: Seq<github::CommentView>,
    pub reviews: Seq<github::ReviewView>,
    pub review_comments: Seq<github::ReviewCommentView>,
}

impl View for RemoteActivity {
    type V = RemoteActivityView;

    open spec fn view(&self) -> RemoteActivityView {
        RemoteActivityView {
            comments: comment_records(self.comments@),
            reviews: review_records(self.reviews@),
            review_comments: thread_records(self.review_comments@),
        }
    }
}

/// The current activity of one pull request: the comments and reviews that
/// count, by identifier.  It is built anew in each run and never kept.
#[derive(Debug)]
pub struct PullRequestActivity {
    pub pull_request: Issue,
    pub reviews: HashMap<usize, feedback::Review>,
    pub comments: HashMap<usize, feedback::Comment>,
}

/// What a [`PullRequestActivity`] holds, as plain text.
pub struct PullRequestActivityView {
    pub pull_request: IssueView,
    pub reviews: Map<usize, feedback::ReviewView>,
    pub comments: Map<usize, feedback::CommentView>,
}

impl View for PullRequestActivity {
    type V = PullRequestActivityView;

    open spec fn view(&self) -> PullRequestActivityView {
        PullRequestActivityView {
            pull_request: self.pull_request@,
            reviews: review_views(self.reviews@),
            comments: comment_views(self.comments@),
        }
    }
}

/// The current activity of the pull request `pr`, given what the service
/// reports of it: what survives the noise filter for the user `username`
/// under `patterns`, with the thread comments attached to their reviews.
pub open spec fn activity_of(
    pr: IssueView,
    remote: RemoteActivityView,
    username: Seq<char>,
    patterns: Seq<Seq<char>>,
) -> PullRequestActivityView {
    PullRequestActivityView {
        pull_request: pr,
        reviews: assembled_reviews(
            surviving_reviews(remote.reviews, pr.html_url, username, patterns),
            remote.review_comments,
        ),
        comments: surviving_comments(remote.comments, pr.html_url, username, patterns),
    }
}

impl PullRequestActivity {
    /// Normalizes, filters and assembles what the service reports of `pr`.
    pub fn collect(
        pr: Issue,
        remote: &RemoteActivity,
        username: &String,
        exclude_comment_patterns: &ExcludePatterns,
    ) -> (activity: Self)
        ensures
            activity@ == activity_of(pr@, remote@, username@, exclude_comment_patterns@),
    {
        let comments = comments_by_ids(&remote.comments, &pr, username, exclude_comment_patterns);
        let reviews = reviews_by_ids(
            &remote.reviews,
            &remote.review_comments,
            &pr,
            username,
            exclude_comment_patterns,
        );
        PullRequestActivity { pull_request: pr, reviews, comments }
    }
}

} // verus!
