//! The reconciliation driver: one pull request after the other, from what
//! the service reports to the messages that are due and the entry that the
//! next snapshot keeps.

use crate::activity::{
    activity_of, comment_views, review_views, PullRequestActivity, PullRequestActivityView,
    RemoteActivity, RemoteActivityView,
};
use crate::clients::cache::{id_set, key_list, snapshot_view, Data, PullRequest, PullRequestView};
use crate::clients::github::{Issue, IssueView};
use crate::diff::{diff_of, Diff, DiffView};
use crate::dispatch::{
    due_notifications, notification_views, send_notifications, Notification, NotificationView,
};
use crate::filter::ExcludePatterns;
use std::collections::HashMap;
use vstd::prelude::*;

verus! {

/// What a run decides for one pull request.
#[derive(Debug)]
pub struct Outcome {
    /// What is new about the pull request.
    pub diff: Diff,
    /// The messages that are due, in the order in which to send them.
    pub notifications: Vec<Notification>,
    /// What the next snapshot remembers of the pull request.
    pub entry: PullRequest,
}

/// What an [`Outcome`] holds, as plain values.
pub struct OutcomeView {
    pub diff: DiffView,
    pub notifications: Seq<NotificationView>,
    pub entry: PullRequestView,
}

impl View for Outcome {
    type V = OutcomeView;

    open spec fn view(&self) -> OutcomeView {
        OutcomeView {
            diff: self.diff@,
            notifications: notification_views(self.notifications@),
            entry: self.entry@,
        }
    }
}

/// What the next snapshot remembers of a pull request with this activity:
/// the identifiers of all its current reviews and comments.
pub open spec fn entry_of(activity: PullRequestActivityView) -> PullRequestView {
    PullRequestView { reviews: activity.reviews.dom(), comments: activity.comments.dom() }
}

/// What a run decides for a pull request with this activity, given the
/// snapshot `previous` of the run before.
pub open spec fn outcome_of(
    previous: Map<usize, PullRequestView>,
    activity: PullRequestActivityView,
) -> OutcomeView {
    let d = diff_of(
        previous,
        activity.pull_request.id,
        activity.reviews.dom(),
        activity.comments.dom(),
    );
    OutcomeView {
        diff: d,
        notifications: due_notifications(
            activity.pull_request,
            d,
            activity.reviews,
            activity.comments,
        ),
        entry: entry_of(activity),
    }
}

/// The entry that the next snapshot keeps for a pull request.
pub fn snapshot_entry(activity: &PullRequestActivity) -> (entry: PullRequest)
    ensures
        entry@ == entry_of(activity@),
{
    let reviews = id_set(&key_list(&activity.reviews));
    let comments = id_set(&key_list(&activity.comments));
    let entry = PullRequest { reviews, comments };
    assert(entry@.reviews =~= activity@.reviews.dom());
    assert(entry@.comments =~= activity@.comments.dom());
    entry
}

/// Decides what is due for one pull request: compares its activity with the
/// snapshot `current_data`, lists the messages, and builds the entry of the
/// next snapshot.
pub fn reconcile_pull_request(current_data: &Data, activity: &PullRequestActivity) -> (out: Outcome)
    ensures
        out@ == outcome_of(snapshot_view(current_data@), activity@),
{
    let dispatch = send_notifications(
        current_data,
        &activity.reviews,
        &activity.comments,
        &activity.pull_request,
    );
    assert(review_views(activity.reviews@).dom() =~= activity.reviews@.dom());
    assert(comment_views(activity.comments@).dom() =~= activity.comments@.dom());
    Outcome {
        diff: dispatch.diff,
        notifications: dispatch.notifications,
        entry: snapshot_entry(activity),
    }
}

/// The pull requests of a list, as plain text.
pub open spec fn issue_views(prs: Seq<Issue>) -> Seq<IssueView> {
    prs.map_values(|pr: Issue| pr@)
}

/// Some pull request of the list has the identifier `id`.
pub open spec fn knows(prs: Seq<IssueView>, id: usize) -> bool {
    exists|i: int| 0 <= i < prs.len() && (#[trigger] prs[i]).id == id
}

/// No two pull requests of the list share an identifier.
pub open spec fn distinct_ids(prs: Seq<IssueView>) -> bool {
    forall|i: int, j: int| 0 <= i < j < prs.len() ==> (#[trigger] prs[i]).id != (#[trigger] prs[j]).id
}

/// The pull requests `known` so far, followed by those of `listed` whose
/// identifier has not occurred before, in the order of the list: where an
/// identifier occurs more than once, its first occurrence stands.
pub open spec fn merged(known: Seq<IssueView>, listed: Seq<IssueView>) -> Seq<IssueView>
    decreases listed.len(),
{
    if listed.len() == 0 {
        known
    } else {
        let earlier = merged(known, listed.drop_last());
        if knows(earlier, listed.last().id) {
            earlier
        } else {
            earlier.push(listed.last())
        }
    }
}

/// Merging keeps a list free of repeated identifiers.
pub proof fn lemma_merged_distinct(known: Seq<IssueView>, listed: Seq<IssueView>)
    requires
        distinct_ids(known),
    ensures
        distinct_ids(merged(known, listed)),
    decreases listed.len(),
{
    if listed.len() > 0 {
        lemma_merged_distinct(known, listed.drop_last());
    }
}

/// Whether some pull request of the list has the identifier `id`.
pub fn knows_id(prs: &Vec<Issue>, id: usize) -> (found: bool)
    ensures
        found == knows(issue_views(prs@), id),
{
    let mut i: usize = 0;
    while i < prs.len()
        invariant
            i <= prs.len(),
            forall|j: int| 0 <= j < i ==> (#[trigger] issue_views(prs@)[j]).id != id,
        decreases prs.len() - i,
    {
        if prs[i].id == id {
            assert(issue_views(prs@)[i as int].id == id);
            return true;
        }
        i = i + 1;
    }
    false
}

/// Adds the pull requests of one more listing to those known so far.  A pull
/// request whose identifier is known already is discarded.
pub fn merge_pull_requests(known: &mut Vec<Issue>, listed: Vec<Issue>)
    ensures
        issue_views(final(known)@) == merged(issue_views(old(known)@), issue_views(listed@)),
{
    let ghost start = issue_views(known@);
    let ghost all = issue_views(listed@);
    let mut i: usize = 0;
    while i < listed.len()
        invariant
            i <= listed.len(),
            all == issue_views(listed@),
            issue_views(known@) == merged(start, all.take(i as int)),
        decreases listed.len() - i,
    {
        assert(all.take(i + 1).drop_last() =~= all.take(i as int));
        if !knows_id(known, listed[i].id) {
            known.push(listed[i].clone());
        }
        i = i + 1;
    }
    assert(all.take(i as int) =~= all);
}

/// A pull request together with what the service reports of it.
#[derive(Debug)]
pub struct Fetched {
    pub pull_request: Issue,
    pub remote: RemoteActivity,
}

/// What a [`Fetched`] holds, as plain text.
pub struct FetchedView {
    pub pull_request: IssueView,
    pub remote: RemoteActivityView,
}

impl View for Fetched {
    type V = FetchedView;

    open spec fn view(&self) -> FetchedView {
        FetchedView { pull_request: self.pull_request@, remote: self.remote@ }
    }
}

/// The fetched pull requests of a list, as plain text.
pub open spec fn fetched_views(list: Seq<Fetched>) -> Seq<FetchedView> {
    list.map_values(|f: Fetched| f@)
}

/// What a whole run produces.
#[derive(Debug)]
pub struct Reconciliation {
    /// The snapshot for the next run.
    pub new_data: Data,
    /// The messages that are due, in the order in which to send them.
    pub notifications: Vec<Notification>,
}

/// What a [`Reconciliation`] holds, as plain values.
pub struct ReconciliationView {
    pub new_data: Map<usize, PullRequestView>,
    pub notifications: Seq<NotificationView>,
}

impl View for Reconciliation {
    type V = ReconciliationView;

    open spec fn view(&self) -> ReconciliationView {
        ReconciliationView {
            new_data: snapshot_view(self.new_data@),
            notifications: notification_views(self.notifications@),
        }
    }
}

/// What a run produces from the snapshot `previous` and the fetched pull
/// requests, taken in order.  Each pull request contributes its messages and
/// one entry of the new snapshot; one whose identifier has occurred before
/// contributes nothing.  The new snapshot holds nothing else.
pub open spec fn run_of(
    previous: Map<usize, PullRequestView>,
    fetched: Seq<FetchedView>,
    username: Seq<char>,
    patterns: Seq<Seq<char>>,
) -> ReconciliationView
    decreases fetched.len(),
{
    if fetched.len() == 0 {
        ReconciliationView { new_data: Map::empty(), notifications: Seq::empty() }
    } else {
        let earlier = run_of(previous, fetched.drop_last(), username, patterns);
        let last = fetched.last();
        if earlier.new_data.contains_key(last.pull_request.id) {
            earlier
        } else {
            let out = outcome_of(
                previous,
                activity_of(last.pull_request, last.remote, username, patterns),
            );
            ReconciliationView {
                new_data: earlier.new_data.insert(last.pull_request.id, out.entry),
                notifications: earlier.notifications + out.notifications,
            }
        }
    }
}

/// Runs the engine over the fetched pull requests, in order, against the
/// snapshot `current_data` of the run before.
pub fn reconcile(
    current_data: &Data,
    fetched: &Vec<Fetched>,
    username: &String,
    exclude_comment_patterns: &ExcludePatterns,
) -> (run: Reconciliation)
    ensures
        run@ == run_of(
            snapshot_view(current_data@),
            fetched_views(fetched@),
            username@,
            exclude_comment_patterns@,
        ),
{
    broadcast use vstd::std_specs::hash::group_hash_axioms;

    let ghost previous = snapshot_view(current_data@);
    let ghost all = fetched_views(fetched@);
    let mut new_data: Data = HashMap::new();
    let mut notifications: Vec<Notification> = Vec::new();
    assert(snapshot_view(new_data@) =~= Map::empty());
    assert(notification_views(notifications@) =~= Seq::empty());
    let mut i: usize = 0;
    while i < fetched.len()
        invariant
            i <= fetched.len(),
            previous == snapshot_view(current_data@),
            all == fetched_views(fetched@),
            (ReconciliationView {
                new_data: snapshot_view(new_data@),
                notifications: notification_views(notifications@),
            }) == run_of(previous, all.take(i as int), username@, exclude_comment_patterns@),
        decreases fetched.len() - i,
    {
        let next = &fetched[i];
        assert(all.take(i + 1).drop_last() =~= all.take(i as int));
        if !new_data.contains_key(&next.pull_request.id) {
            let activity = PullRequestActivity::collect(
                next.pull_request.clone(),
                &next.remote,
                username,
                exclude_comment_patterns,
            );
            let mut out = reconcile_pull_request(current_data, &activity);
            let ghost data_before = snapshot_view(new_data@);
            let ghost sent_before = notification_views(notifications@);
            let ghost due = notification_views(out.notifications@);
            let ghost entry = out.entry@;
            notifications.append(&mut out.notifications);
            new_data.insert(next.pull_request.id, out.entry);
            assert(notification_views(notifications@) =~= sent_before + due);
            assert(snapshot_view(new_data@) =~= data_before.insert(next.pull_request.id, entry));
        }
        i = i + 1;
    }
    assert(all.take(i as int) =~= all);
    Reconciliation { new_data, notifications }
}

} // verus!
