//! The notification dispatcher: the messages that are due for a pull
//! request, given what is new about it.

use crate::activity::{comment_views, review_views};
use crate::clients::cache::{snapshot_view, Data};
use crate::clients::github::{Issue, IssueView};
use crate::diff::{diff, diff_of, lemma_diff_within, Classification, Diff, DiffView};
use crate::feedback;
use crate::feedback::{comment_text, review_text};
use std::collections::HashMap;
use vstd::prelude::*;
use vstd::string::*;

verus! {

/// One message for the notification service: a title, a text, and the links
/// that the message offers, each a label and an address.
#[derive(Debug)]
pub struct Notification {
    pub title: String,
    pub message: String,
    pub view_actions: Vec<(String, String)>,
}

/// What a [`Notification`] holds, as plain text.
pub struct NotificationView {
    pub title: Seq<char>,
    pub message: Seq<char>,
    pub view_actions: Seq<(Seq<char>, Seq<char>)>,
}

impl View for Notification {
    type V = NotificationView;

    open spec fn view(&self) -> NotificationView {
        NotificationView {
            title: self.title@,
            message: self.message@,
            view_actions: self.view_actions@.map_values(|a: (String, String)| (a.0@, a.1@)),
        }
    }
}

/// The notifications of a list, as plain text.
pub open spec fn notification_views(list: Seq<Notification>) -> Seq<NotificationView> {
    list.map_values(|n: Notification| n@)
}

/// The message that announces a pull request seen for the first time.
pub open spec fn new_pull_request_notification(pr: IssueView) -> NotificationView {
    NotificationView {
        title: "New Pull Request"@,
        message: "@"@ + pr.login + " opened "@ + pr.title,
        view_actions: seq![("Open PR"@, pr.html_url)],
    }
}

/// The message that announces a new comment of the pull request `title`.
pub open spec fn comment_notification(title: Seq<char>, c: feedback::CommentView) -> NotificationView {
    NotificationView {
        title,
        message: comment_text(c),
        view_actions: seq![("Open PR"@, c.pr_url), ("Open Comment"@, c.url)],
    }
}

/// The message that announces a new review of the pull request `title`.
pub open spec fn review_notification(title: Seq<char>, r: feedback::ReviewView) -> NotificationView {
    NotificationView {
        title,
        message: review_text(r),
        view_actions: seq![("Open PR"@, r.pr_url), ("Open Comment"@, r.url)],
    }
}

/// The messages that are due for a pull request: one for the pull request
/// itself where it is new; otherwise one for each new comment, then one for
/// each new review, in the order of the difference.
pub open spec fn due_notifications(
    pr: IssueView,
    d: DiffView,
    reviews: Map<usize, feedback::ReviewView>,
    comments: Map<usize, feedback::CommentView>,
) -> Seq<NotificationView> {
    match d.classification {
        Classification::New => seq![new_pull_request_notification(pr)],
        Classification::Existing => d.new_comment_ids.map_values(
            |id: usize| comment_notification(pr.title, comments[id]),
        ) + d.new_review_ids.map_values(|id: usize| review_notification(pr.title, reviews[id])),
    }
}

/// A link of a message.
fn view_action(label: &str, url: &String) -> (action: (String, String))
    ensures
        action.0@ == label@,
        action.1@ == url@,
{
    (String::from_str(label), url.clone())
}

/// The message that announces the pull request itself.
pub fn announce_pull_request(pr: &Issue) -> (n: Notification)
    ensures
        n@ == new_pull_request_notification(pr@),
{
    let mut message = String::from_str("@");
    message.append(pr.user.login.as_str());
    message.append(" opened ");
    message.append(pr.title.as_str());
    let mut view_actions: Vec<(String, String)> = Vec::new();
    view_actions.push(view_action("Open PR", &pr.html_url));
    let n = Notification { title: String::from_str("New Pull Request"), message, view_actions };
    assert(n@.view_actions =~= new_pull_request_notification(pr@).view_actions);
    n
}

/// The message that announces a comment of the pull request `pr`.
pub fn announce_comment(pr: &Issue, comment: &feedback::Comment) -> (n: Notification)
    ensures
        n@ == comment_notification(pr@.title, comment@),
{
    let mut view_actions: Vec<(String, String)> = Vec::new();
    view_actions.push(view_action("Open PR", comment.pull_request_url()));
    view_actions.push(view_action("Open Comment", comment.permalink()));
    let n = Notification { title: pr.title.clone(), message: comment.to_string(), view_actions };
    assert(n@.view_actions =~= comment_notification(pr@.title, comment@).view_actions);
    n
}

/// The message that announces a review of the pull request `pr`.
pub fn announce_review(pr: &Issue, review: &feedback::Review) -> (n: Notification)
    ensures
        n@ == review_notification(pr@.title, review@),
{
    let mut view_actions: Vec<(String, String)> = Vec::new();
    view_actions.push(view_action("Open PR", review.pull_request_url()));
    view_actions.push(view_action("Open Comment", review.permalink()));
    let n = Notification { title: pr.title.clone(), message: review.to_string(), view_actions };
    assert(n@.view_actions =~= review_notification(pr@.title, review@).view_actions);
    n
}

/// The messages that are due for the pull request `pr`, given the difference
/// `d` between the snapshot and its current activity.
pub fn notifications(
    pr: &Issue,
    d: &Diff,
    reviews_by_ids: &HashMap<usize, feedback::Review>,
    comments_by_ids: &HashMap<usize, feedback::Comment>,
) -> (list: Vec<Notification>)
    requires
        d@.within(reviews_by_ids@.dom(), comments_by_ids@.dom()),
    ensures
        notification_views(list@) == due_notifications(
            pr@,
            d@,
            review_views(reviews_by_ids@),
            comment_views(comments_by_ids@),
        ),
{
    broadcast use vstd::std_specs::hash::group_hash_axioms;

    let mut list: Vec<Notification> = Vec::new();
    match d.classification {
        Classification::New => {
            list.push(announce_pull_request(pr));
        },
        Classification::Existing => {
            let ghost title = pr@.title;
            let ghost comments = comment_views(comments_by_ids@);
            let ghost reviews = review_views(reviews_by_ids@);
            let ghost for_comments = d.new_comment_ids@.map_values(
                |id: usize| comment_notification(title, comments[id]),
            );
            let ghost for_reviews = d.new_review_ids@.map_values(
                |id: usize| review_notification(title, reviews[id]),
            );
            let mut i: usize = 0;
            while i < d.new_comment_ids.len()
                invariant
                    i <= d.new_comment_ids.len(),
                    d@.within(reviews_by_ids@.dom(), comments_by_ids@.dom()),
                    title == pr@.title,
                    comments == comment_views(comments_by_ids@),
                    for_comments == d.new_comment_ids@.map_values(
                        |id: usize| comment_notification(title, comments[id]),
                    ),
                    notification_views(list@) == for_comments.take(i as int),
                decreases d.new_comment_ids.len() - i,
            {
                let id: usize = d.new_comment_ids[i];
                assert(comments_by_ids@.dom().contains(d@.new_comment_ids[i as int]));
                let ghost before = notification_views(list@);
                match comments_by_ids.get(&id) {
                    Some(comment) => {
                        let n = announce_comment(pr, comment);
                        list.push(n);
                        assert(notification_views(list@) =~= before.push(n@));
                    },
                    None => {},
                }
                i = i + 1;
            }
            let mut j: usize = 0;
            while j < d.new_review_ids.len()
                invariant
                    j <= d.new_review_ids.len(),
                    d@.within(reviews_by_ids@.dom(), comments_by_ids@.dom()),
                    title == pr@.title,
                    reviews == review_views(reviews_by_ids@),
                    for_reviews == d.new_review_ids@.map_values(
                        |id: usize| review_notification(title, reviews[id]),
                    ),
                    notification_views(list@) == for_comments + for_reviews.take(j as int),
                decreases d.new_review_ids.len() - j,
            {
                let id: usize = d.new_review_ids[j];
                assert(reviews_by_ids@.dom().contains(d@.new_review_ids[j as int]));
                let ghost before = notification_views(list@);
                match reviews_by_ids.get(&id) {
                    Some(review) => {
                        let n = announce_review(pr, review);
                        list.push(n);
                        assert(notification_views(list@) =~= before.push(n@));
                    },
                    None => {},
                }
                j = j + 1;
            }
        },
    }
    list
}

/// A pull request's difference against the snapshot, with the messages that
/// are due for it.
#[derive(Debug)]
pub struct Dispatch {
    pub diff: Diff,
    pub notifications: Vec<Notification>,
}

/// Compares the current activity of the pull request `pr` with the snapshot
/// `current_data` and lists the messages that are due: one for a pull request
/// seen for the first time, else one for each comment and each review that
/// the snapshot lacks.
pub fn send_notifications(
    current_data: &Data,
    reviews_by_ids: &HashMap<usize, feedback::Review>,
    comments_by_ids: &HashMap<usize, feedback::Comment>,
    pr: &Issue,
) -> (out: Dispatch)
    ensures
        out.diff@ == diff_of(
            snapshot_view(current_data@),
            pr.id,
            reviews_by_ids@.dom(),
            comments_by_ids@.dom(),
        ),
        notification_views(out.notifications@) == due_notifications(
            pr@,
            out.diff@,
            review_views(reviews_by_ids@),
            comment_views(comments_by_ids@),
        ),
{
    let d = diff(current_data, pr.id, reviews_by_ids, comments_by_ids);
    proof {
        lemma_diff_within(
            snapshot_view(current_data@),
            pr.id,
            reviews_by_ids@.dom(),
            comments_by_ids@.dom(),
        );
    }
    let list = notifications(pr, &d, reviews_by_ids, comments_by_ids);
    Dispatch { diff: d, notifications: list }
}

} // verus!
