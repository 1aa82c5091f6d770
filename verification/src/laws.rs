//! What holds of the engine on every input.

use crate::activity::{
    activity_of, assembled_reviews, normalize_comment, surviving_comments, surviving_reviews,
    thread_bodies, RemoteActivityView,
};
use crate::clients::cache::PullRequestView;
use crate::clients::github;
use crate::clients::github::IssueView;
use crate::diff::Classification;
use crate::dispatch::{comment_notification, new_pull_request_notification, NotificationView};
use crate::driver::{
    distinct_ids, entry_of, lemma_merged_distinct, merged, outcome_of, run_of, FetchedView,
    ReconciliationView,
};
use crate::feedback;
use crate::feedback::{review_text, shown_body, state_line};
use crate::filter::{comment_excluded, review_excluded};
use crate::ids::{lemma_ascending_ids, lemma_ascending_ids_lists};
use crate::run::{ActionView, EventView, Phase, RunView};
use crate::text::decimal;
use vstd::prelude::*;

verus! {

/// A comment counts as activity exactly if some record with its identifier is
/// not noise.
pub proof fn lemma_surviving_comment_ids(
    raw: Seq<github::CommentView>,
    pr_url: Seq<char>,
    username: Seq<char>,
    patterns: Seq<Seq<char>>,
    id: usize,
)
    ensures
        surviving_comments(raw, pr_url, username, patterns).contains_key(id) <==> exists|i: int|
            0 <= i < raw.len() && (#[trigger] raw[i]).id == id && !comment_excluded(
                raw[i],
                username,
                patterns,
            ),
    decreases raw.len(),
{
    if raw.len() > 0 {
        let front = raw.drop_last();
        lemma_surviving_comment_ids(front, pr_url, username, patterns, id);
        if exists|i: int|
            0 <= i < raw.len() && (#[trigger] raw[i]).id == id && !comment_excluded(
                raw[i],
                username,
                patterns,
            ) {
            let i = choose|i: int|
                0 <= i < raw.len() && (#[trigger] raw[i]).id == id && !comment_excluded(
                    raw[i],
                    username,
                    patterns,
                );
            if i < front.len() {
                assert(front[i] == raw[i]);
            }
        }
    }
}

/// A review counts as activity exactly if some record with its identifier is
/// not noise.
pub proof fn lemma_surviving_review_ids(
    raw: Seq<github::ReviewView>,
    pr_url: Seq<char>,
    username: Seq<char>,
    patterns: Seq<Seq<char>>,
    id: usize,
)
    ensures
        surviving_reviews(raw, pr_url, username, patterns).contains_key(id) <==> exists|i: int|
            0 <= i < raw.len() && (#[trigger] raw[i]).id == id && !review_excluded(
                raw[i],
                username,
                patterns,
            ),
    decreases raw.len(),
{
    if raw.len() > 0 {
        let front = raw.drop_last();
        lemma_surviving_review_ids(front, pr_url, username, patterns, id);
        if exists|i: int|
            0 <= i < raw.len() && (#[trigger] raw[i]).id == id && !review_excluded(
                raw[i],
                username,
                patterns,
            ) {
            let i = choose|i: int|
                0 <= i < raw.len() && (#[trigger] raw[i]).id == id && !review_excluded(
                    raw[i],
                    username,
                    patterns,
                );
            if i < front.len() {
                assert(front[i] == raw[i]);
            }
        }
    }
}

/// A pull request that the snapshot does not know raises one message, the
/// one that announces the pull request, however many comments and reviews
/// it has; and the entry that the next snapshot keeps for it holds the
/// identifiers of all its comments and reviews that are not noise.
pub proof fn lemma_new_pull_request_is_announced_once(
    previous: Map<usize, PullRequestView>,
    pr: IssueView,
    remote: RemoteActivityView,
    username: Seq<char>,
    patterns: Seq<Seq<char>>,
)
    requires
        !previous.contains_key(pr.id),
    ensures
        ({
            let out = outcome_of(previous, activity_of(pr, remote, username, patterns));
            &&& out.diff.classification == Classification::New
            &&& out.notifications == seq![new_pull_request_notification(pr)]
            &&& forall|id: usize|
                out.entry.comments.contains(id) <==> exists|i: int|
                    0 <= i < remote.comments.len() && (#[trigger] remote.comments[i]).id == id
                        && !comment_excluded(remote.comments[i], username, patterns)
            &&& forall|id: usize|
                out.entry.reviews.contains(id) <==> exists|i: int|
                    0 <= i < remote.reviews.len() && (#[trigger] remote.reviews[i]).id == id
                        && !review_excluded(remote.reviews[i], username, patterns)
        }),
{
    let out = outcome_of(previous, activity_of(pr, remote, username, patterns));
    assert forall|id: usize|
        out.entry.comments.contains(id) <==> exists|i: int|
            0 <= i < remote.comments.len() && (#[trigger] remote.comments[i]).id == id
                && !comment_excluded(remote.comments[i], username, patterns) by {
        lemma_surviving_comment_ids(remote.comments, pr.html_url, username, patterns, id);
    }
    assert forall|id: usize|
        out.entry.reviews.contains(id) <==> exists|i: int|
            0 <= i < remote.reviews.len() && (#[trigger] remote.reviews[i]).id == id
                && !review_excluded(remote.reviews[i], username, patterns) by {
        lemma_surviving_review_ids(remote.reviews, pr.html_url, username, patterns, id);
    }
}

/// Noise stays out, whatever the snapshot holds: where every comment record
/// with the identifier `id` is noise, no event is raised for `id`, and the
/// entry that the next snapshot keeps does not hold it.  Messages are
/// written for the identifiers of the difference and for no others, so none
/// announces such a comment, in this run or in a later one.
pub proof fn lemma_excluded_comment_never_shows(
    previous: Map<usize, PullRequestView>,
    pr: IssueView,
    remote: RemoteActivityView,
    username: Seq<char>,
    patterns: Seq<Seq<char>>,
    id: usize,
)
    requires
        forall|i: int|
            0 <= i < remote.comments.len() && (#[trigger] remote.comments[i]).id == id
                ==> comment_excluded(remote.comments[i], username, patterns),
    ensures
        ({
            let activity = activity_of(pr, remote, username, patterns);
            let out = outcome_of(previous, activity);
            &&& !activity.comments.contains_key(id)
            &&& !out.entry.comments.contains(id)
            &&& !out.diff.new_comment_ids.contains(id)
        }),
{
    let activity = activity_of(pr, remote, username, patterns);
    let out = outcome_of(previous, activity);
    lemma_surviving_comment_ids(remote.comments, pr.html_url, username, patterns, id);
    if previous.contains_key(pr.id) {
        let unseen = activity.comments.dom().difference(previous[pr.id].comments);
        lemma_ascending_ids_lists(unseen);
        if out.diff.new_comment_ids.contains(id) {
            assert(out.diff.new_comment_ids.to_set().contains(id));
        }
    }
}

/// Noise stays out, whatever the snapshot holds: where every review record
/// with the identifier `id` is noise, no event is raised for `id`, and the
/// entry that the next snapshot keeps does not hold it.
pub proof fn lemma_excluded_review_never_shows(
    previous: Map<usize, PullRequestView>,
    pr: IssueView,
    remote: RemoteActivityView,
    username: Seq<char>,
    patterns: Seq<Seq<char>>,
    id: usize,
)
    requires
        forall|i: int|
            0 <= i < remote.reviews.len() && (#[trigger] remote.reviews[i]).id == id
                ==> review_excluded(remote.reviews[i], username, patterns),
    ensures
        ({
            let activity = activity_of(pr, remote, username, patterns);
            let out = outcome_of(previous, activity);
            &&& !activity.reviews.contains_key(id)
            &&& !out.entry.reviews.contains(id)
            &&& !out.diff.new_review_ids.contains(id)
        }),
{
    let activity = activity_of(pr, remote, username, patterns);
    let out = outcome_of(previous, activity);
    lemma_surviving_review_ids(remote.reviews, pr.html_url, username, patterns, id);
    if previous.contains_key(pr.id) {
        let unseen = activity.reviews.dom().difference(previous[pr.id].reviews);
        lemma_ascending_ids_lists(unseen);
        if out.diff.new_review_ids.contains(id) {
            assert(out.diff.new_review_ids.to_set().contains(id));
        }
    }
}

/// A review that counts as activity starts without thread comments.
pub proof fn lemma_surviving_review_is_bare(
    raw: Seq<github::ReviewView>,
    pr_url: Seq<char>,
    username: Seq<char>,
    patterns: Seq<Seq<char>>,
    id: usize,
)
    requires
        surviving_reviews(raw, pr_url, username, patterns).contains_key(id),
    ensures
        surviving_reviews(raw, pr_url, username, patterns)[id].comments == Seq::<Seq<char>>::empty(),
        surviving_reviews(raw, pr_url, username, patterns)[id].well_formed(),
    decreases raw.len(),
{
    if raw.len() > 0 {
        let front = raw.drop_last();
        if surviving_reviews(front, pr_url, username, patterns).contains_key(id) {
            lemma_surviving_review_is_bare(front, pr_url, username, patterns, id);
        }
    }
}

/// The number of thread comments whose parent is the review `review_id`.
pub open spec fn thread_count(thread: Seq<github::ReviewCommentView>, review_id: usize) -> nat {
    thread.filter(|c: github::ReviewCommentView| c.pull_request_review_id == review_id).len()
}

/// As many texts are attached to a review as thread comments name it.
pub proof fn lemma_thread_bodies_len(thread: Seq<github::ReviewCommentView>, review_id: usize)
    ensures
        thread_bodies(thread, review_id).len() == thread_count(thread, review_id),
    decreases thread.len(),
{
    reveal(Seq::filter);
    if thread.len() > 0 {
        lemma_thread_bodies_len(thread.drop_last(), review_id);
    }
}

/// A thread comment reaches the review that it names, and only that one: a
/// review that counts as activity has exactly the texts of the thread
/// comments that name it, in arrival order, and as many of them as there are
/// such comments.  A thread comment that names a review which does not count
/// changes nothing.
pub proof fn lemma_thread_comments_reach_their_review(
    pr: IssueView,
    remote: RemoteActivityView,
    username: Seq<char>,
    patterns: Seq<Seq<char>>,
    orphan: github::ReviewCommentView,
)
    ensures
        ({
            let activity = activity_of(pr, remote, username, patterns);
            forall|id: usize| #[trigger]
                activity.reviews.contains_key(id) ==> {
                    &&& activity.reviews[id].comments == thread_bodies(remote.review_comments, id)
                    &&& activity.reviews[id].comments.len() == thread_count(
                        remote.review_comments,
                        id,
                    )
                }
        }),
        ({
            let activity = activity_of(pr, remote, username, patterns);
            let more = RemoteActivityView {
                review_comments: remote.review_comments.push(orphan),
                ..remote
            };
            !activity.reviews.contains_key(orphan.pull_request_review_id) ==> activity_of(
                pr,
                more,
                username,
                patterns,
            ) == activity
        }),
{
    let activity = activity_of(pr, remote, username, patterns);
    assert forall|id: usize| #[trigger] activity.reviews.contains_key(id) implies {
        &&& activity.reviews[id].comments == thread_bodies(remote.review_comments, id)
        &&& activity.reviews[id].comments.len() == thread_count(remote.review_comments, id)
    } by {
        lemma_surviving_review_is_bare(remote.reviews, pr.html_url, username, patterns, id);
        lemma_thread_bodies_len(remote.review_comments, id);
    }
    if !activity.reviews.contains_key(orphan.pull_request_review_id) {
        let bare = surviving_reviews(remote.reviews, pr.html_url, username, patterns);
        let longer = remote.review_comments.push(orphan);
        assert(longer.drop_last() =~= remote.review_comments);
        assert(assembled_reviews(bare, longer) =~= assembled_reviews(bare, remote.review_comments));
    }
}

/// How the thread comments of a review show in its message: a review without
/// a summary and with one thread comment shows that comment in place of the
/// summary; a review with two or more thread comments ends with their count;
/// with fewer, the message has no such ending.
pub proof fn lemma_review_text_shows_thread(r: feedback::ReviewView)
    ensures
        r.body is None && r.comments.len() == 1 ==> review_text(r) == state_line(r.author, r.state)
            + "\n\n"@ + r.comments[0],
        r.comments.len() >= 2 ==> review_text(r) == state_line(r.author, r.state) + shown_body(r)
            + "\n\n(+ "@ + decimal(r.comments.len()) + " comments)"@,
        r.comments.len() < 2 ==> review_text(r) == state_line(r.author, r.state) + shown_body(r),
{
}

/// One more comment record that is not noise, wherever it arrives among the
/// others, adds its comment under its identifier and changes nothing else,
/// provided that no comment has that identifier yet.
pub proof fn lemma_surviving_comments_insert(
    raw: Seq<github::CommentView>,
    at: int,
    comment: github::CommentView,
    pr_url: Seq<char>,
    username: Seq<char>,
    patterns: Seq<Seq<char>>,
)
    requires
        0 <= at <= raw.len(),
        !comment_excluded(comment, username, patterns),
        !surviving_comments(raw, pr_url, username, patterns).contains_key(comment.id),
    ensures
        surviving_comments(raw.insert(at, comment), pr_url, username, patterns)
            == surviving_comments(raw, pr_url, username, patterns).insert(
            comment.id,
            normalize_comment(comment, pr_url),
        ),
    decreases raw.len(),
{
    let grown = raw.insert(at, comment);
    if at == raw.len() {
        assert(grown.drop_last() =~= raw);
    } else {
        let front = raw.drop_last();
        assert(grown.drop_last() =~= front.insert(at, comment));
        lemma_surviving_comments_insert(front, at, comment, pr_url, username, patterns);
    }
}

/// For a pull request that the snapshot knows, with all its activity so far
/// seen, one more comment under a new identifier raises one message, the one
/// that announces this comment, wherever the comment arrives among the
/// others.  The comment is taken not to be noise: noise raises nothing.
pub proof fn lemma_new_comment_is_announced_alone(
    previous: Map<usize, PullRequestView>,
    pr: IssueView,
    remote: RemoteActivityView,
    username: Seq<char>,
    patterns: Seq<Seq<char>>,
    at: int,
    comment: github::CommentView,
)
    requires
        previous.contains_key(pr.id),
        previous[pr.id] == entry_of(activity_of(pr, remote, username, patterns)),
        0 <= at <= remote.comments.len(),
        !activity_of(pr, remote, username, patterns).comments.contains_key(comment.id),
        !comment_excluded(comment, username, patterns),
    ensures
        ({
            let more = RemoteActivityView {
                comments: remote.comments.insert(at, comment),
                ..remote
            };
            let out = outcome_of(previous, activity_of(pr, more, username, patterns));
            &&& out.diff.new_comment_ids == seq![comment.id]
            &&& out.diff.new_review_ids == Seq::<usize>::empty()
            &&& out.notifications == seq![
                comment_notification(pr.title, normalize_comment(comment, pr.html_url)),
            ]
        }),
{
    let more = RemoteActivityView { comments: remote.comments.insert(at, comment), ..remote };
    let after = activity_of(pr, more, username, patterns);
    lemma_surviving_comments_insert(remote.comments, at, comment, pr.html_url, username, patterns);
    let unseen_comments = after.comments.dom().difference(previous[pr.id].comments);
    let unseen_reviews = after.reviews.dom().difference(previous[pr.id].reviews);
    assert(seq![comment.id][0] == comment.id);
    assert(unseen_comments =~= seq![comment.id].to_set());
    assert(unseen_reviews =~= Seq::<usize>::empty().to_set());
    lemma_ascending_ids(seq![comment.id]);
    lemma_ascending_ids(Seq::<usize>::empty());
}

/// The snapshot that a run leaves depends on what was fetched, not on the
/// snapshot that the run started from.
pub proof fn lemma_new_snapshot_ignores_previous(
    first: Map<usize, PullRequestView>,
    second: Map<usize, PullRequestView>,
    fetched: Seq<FetchedView>,
    username: Seq<char>,
    patterns: Seq<Seq<char>>,
)
    ensures
        run_of(first, fetched, username, patterns).new_data == run_of(
            second,
            fetched,
            username,
            patterns,
        ).new_data,
    decreases fetched.len(),
{
    if fetched.len() > 0 {
        lemma_new_snapshot_ignores_previous(first, second, fetched.drop_last(), username, patterns);
    }
}

/// What a run has recorded after some of the fetched pull requests, it still
/// holds after all of them: an entry is written once and never replaced.
pub proof fn lemma_entries_are_kept(
    previous: Map<usize, PullRequestView>,
    fetched: Seq<FetchedView>,
    username: Seq<char>,
    patterns: Seq<Seq<char>>,
    n: int,
)
    requires
        0 <= n <= fetched.len(),
    ensures
        run_of(previous, fetched.take(n), username, patterns).new_data.submap_of(
            run_of(previous, fetched, username, patterns).new_data,
        ),
    decreases fetched.len() - n,
{
    if n == fetched.len() {
        assert(fetched.take(n) =~= fetched);
    } else {
        lemma_entries_are_kept(previous, fetched, username, patterns, n + 1);
        assert(fetched.take(n + 1).drop_last() =~= fetched.take(n));
        let shorter = run_of(previous, fetched.take(n), username, patterns).new_data;
        let longer = run_of(previous, fetched.take(n + 1), username, patterns).new_data;
        let all = run_of(previous, fetched, username, patterns).new_data;
        assert forall|id: usize| shorter.contains_key(id) implies #[trigger] all.contains_key(id)
            && shorter[id] == all[id] by {
            assert(longer.contains_key(id) && longer[id] == shorter[id]);
        }
    }
}

/// A run that starts from the snapshot `seen` raises nothing for the first
/// `n` of the fetched pull requests, where `seen` is what a run over all of
/// them leaves.
proof fn lemma_seen_prefix_is_silent(
    previous: Map<usize, PullRequestView>,
    fetched: Seq<FetchedView>,
    username: Seq<char>,
    patterns: Seq<Seq<char>>,
    n: int,
)
    requires
        0 <= n <= fetched.len(),
    ensures
        run_of(
            run_of(previous, fetched, username, patterns).new_data,
            fetched.take(n),
            username,
            patterns,
        ).notifications == Seq::<NotificationView>::empty(),
    decreases n,
{
    let seen = run_of(previous, fetched, username, patterns).new_data;
    if n > 0 {
        let prefix = fetched.take(n);
        let front = prefix.drop_last();
        assert(front =~= fetched.take(n - 1));
        lemma_seen_prefix_is_silent(previous, fetched, username, patterns, n - 1);
        let earlier = run_of(seen, front, username, patterns);
        let last = prefix.last();
        let id = last.pull_request.id;
        if !earlier.new_data.contains_key(id) {
            let activity = activity_of(last.pull_request, last.remote, username, patterns);
            lemma_new_snapshot_ignores_previous(seen, previous, front, username, patterns);
            lemma_new_snapshot_ignores_previous(seen, previous, prefix, username, patterns);
            lemma_entries_are_kept(previous, fetched, username, patterns, n);
            let recorded = run_of(previous, prefix, username, patterns).new_data;
            assert(recorded.contains_key(id) && recorded[id] == entry_of(activity));
            assert(activity.comments.dom().difference(seen[id].comments) =~= Seq::<
                usize,
            >::empty().to_set());
            assert(activity.reviews.dom().difference(seen[id].reviews) =~= Seq::<
                usize,
            >::empty().to_set());
            lemma_ascending_ids(Seq::<usize>::empty());
        }
    }
}

/// A run over unchanged activity, from the snapshot that a run over the same
/// activity left, raises no message and leaves the snapshot as it was.
pub proof fn lemma_repeated_run_is_silent(
    previous: Map<usize, PullRequestView>,
    fetched: Seq<FetchedView>,
    username: Seq<char>,
    patterns: Seq<Seq<char>>,
)
    ensures
        ({
            let first = run_of(previous, fetched, username, patterns);
            let again = run_of(first.new_data, fetched, username, patterns);
            &&& again.notifications == Seq::<NotificationView>::empty()
            &&& again.new_data == first.new_data
        }),
{
    let first = run_of(previous, fetched, username, patterns);
    lemma_seen_prefix_is_silent(previous, fetched, username, patterns, fetched.len() as int);
    assert(fetched.take(fetched.len() as int) =~= fetched);
    lemma_new_snapshot_ignores_previous(first.new_data, previous, fetched, username, patterns);
}

/// The new snapshot has an entry for each fetched pull request and for no
/// other.
pub proof fn lemma_new_snapshot_keys(
    previous: Map<usize, PullRequestView>,
    fetched: Seq<FetchedView>,
    username: Seq<char>,
    patterns: Seq<Seq<char>>,
    id: usize,
)
    ensures
        run_of(previous, fetched, username, patterns).new_data.contains_key(id) <==> exists|i: int|
            0 <= i < fetched.len() && (#[trigger] fetched[i]).pull_request.id == id,
    decreases fetched.len(),
{
    if fetched.len() > 0 {
        let front = fetched.drop_last();
        lemma_new_snapshot_keys(previous, front, username, patterns, id);
        if exists|i: int| 0 <= i < fetched.len() && (#[trigger] fetched[i]).pull_request.id == id {
            let i = choose|i: int|
                0 <= i < fetched.len() && (#[trigger] fetched[i]).pull_request.id == id;
            if i < front.len() {
                assert(front[i] == fetched[i]);
            }
        }
    }
}

/// What a run has been told of the pull requests, and what it has handed
/// out for delivery, up to some moment.
pub struct Account {
    /// The pull requests whose activity was reported, with that activity, in
    /// the order of the reports.
    pub fetched: Seq<FetchedView>,
    /// The messages handed out, in order.
    pub sent: Seq<NotificationView>,
}

impl Account {
    /// The account of a run before its start.
    pub open spec fn empty() -> Account {
        Account { fetched: Seq::empty(), sent: Seq::empty() }
    }

    /// The account after the run in state `run` was told `event`.
    pub open spec fn after(self, run: RunView, event: EventView) -> Account {
        Account {
            fetched: match event {
                EventView::ActivityFetched(remote) => if run.phase == Phase::Fetching
                    && run.current < run.pull_requests.len() {
                    self.fetched.push(
                        FetchedView {
                            pull_request: run.pull_requests[run.current as int],
                            remote,
                        },
                    )
                } else {
                    self.fetched
                },
                _ => self.fetched,
            },
            sent: match run.step(event).1 {
                ActionView::Notify(n) => self.sent.push(n),
                _ => self.sent,
            },
        }
    }

    /// What the engine owes for the activity reported so far.
    pub open spec fn owed(self, run: RunView) -> ReconciliationView {
        run_of(run.previous, self.fetched, run.username, run.patterns)
    }

    /// The account and the state of the run agree: unless the run was given
    /// up, the pull requests reported are the first of the run's list, the
    /// snapshot built so far is the one owed for them, and the messages
    /// handed out, followed by those still pending, are the ones owed for
    /// them.
    pub open spec fn balanced(self, run: RunView) -> bool {
        run.phase != Phase::Failed ==> {
            &&& distinct_ids(run.pull_requests)
            &&& run.current <= run.pull_requests.len()
            &&& self.fetched.len() == if run.phase == Phase::Notifying {
                run.current + 1
            } else {
                run.current
            }
            &&& self.fetched.len() <= run.pull_requests.len()
            &&& forall|i: int|
                0 <= i < self.fetched.len() ==> (#[trigger] self.fetched[i]).pull_request
                    == run.pull_requests[i]
            &&& run.phase != Phase::Done ==> run.new_data == self.owed(run).new_data
            &&& self.sent + run.pending == self.owed(run).notifications
            &&& run.phase != Phase::Notifying ==> run.pending.len() == 0
            &&& run.phase == Phase::Done ==> run.current == run.pull_requests.len()
            &&& (run.phase == Phase::Idle || run.phase == Phase::LoadingSnapshot || run.phase
                == Phase::Listing) ==> run.current == 0
        }
    }
}

/// A run before its start has an empty account, and it balances.
pub proof fn lemma_account_opens_balanced(
    username: Seq<char>,
    patterns: Seq<Seq<char>>,
    queries: Seq<Seq<char>>,
)
    ensures
        Account::empty().balanced(RunView::initial(username, patterns, queries)),
{
}

/// Turning to the next pull request keeps the account balanced; and where
/// that completes the run, the snapshot handed out and the messages handed
/// out are those owed for all the activity reported.
proof fn lemma_fetch_next_balances(run: RunView, account: Account)
    requires
        run.phase != Phase::Failed && run.phase != Phase::Done,
        distinct_ids(run.pull_requests),
        run.current <= run.pull_requests.len(),
        account.fetched.len() == run.current,
        forall|i: int|
            0 <= i < account.fetched.len() ==> (#[trigger] account.fetched[i]).pull_request
                == run.pull_requests[i],
        run.new_data == account.owed(run).new_data,
        account.sent == account.owed(run).notifications,
        run.pending.len() == 0,
    ensures
        account.balanced(run.fetch_next().0),
        run.fetch_next().1 matches ActionView::Finish { new_data } ==> {
            &&& new_data == account.owed(run).new_data
            &&& account.sent == account.owed(run).notifications
        },
        !(run.fetch_next().1 is Notify),
{
    assert(account.sent + run.pending =~= account.sent);
}

/// Handing out the next message of the pull request in hand, or turning to
/// the next pull request where none is left, keeps the account balanced.
proof fn lemma_notify_next_balances(run: RunView, account: Account)
    requires
        run.phase != Phase::Failed && run.phase != Phase::Done,
        distinct_ids(run.pull_requests),
        run.current < run.pull_requests.len(),
        account.fetched.len() == run.current + 1,
        forall|i: int|
            0 <= i < account.fetched.len() ==> (#[trigger] account.fetched[i]).pull_request
                == run.pull_requests[i],
        run.new_data == account.owed(run).new_data,
        account.sent + run.pending == account.owed(run).notifications,
    ensures
        ({
            let (next, action) = run.notify_next();
            let sent = match action {
                ActionView::Notify(n) => account.sent.push(n),
                _ => account.sent,
            };
            let after = Account { fetched: account.fetched, sent };
            &&& after.balanced(next)
            &&& action matches ActionView::Finish { new_data } ==> {
                &&& new_data == after.owed(run).new_data
                &&& after.sent == after.owed(run).notifications
            }
        }),
{
    if run.pending.len() > 0 {
        assert(account.sent.push(run.pending[0]) + run.pending.drop_first() =~= account.sent
            + run.pending);
    } else {
        assert(account.sent + run.pending =~= account.sent);
        lemma_fetch_next_balances(RunView { current: run.current + 1, ..run }, account);
    }
}

/// The account of a run stays balanced, whatever the run is told; and where
/// the run completes, the snapshot that it hands out and the messages that
/// it has handed out, one by one, are those owed for the activity that was
/// reported of its pull requests.
pub proof fn lemma_run_keeps_its_account(run: RunView, event: EventView, account: Account)
    requires
        account.balanced(run),
    ensures
        ({
            let (next, action) = run.step(event);
            let after = account.after(run, event);
            &&& after.balanced(next)
            &&& action matches ActionView::Finish { new_data } ==> {
                &&& new_data == after.owed(next).new_data
                &&& after.sent == after.owed(next).notifications
            }
        }),
{
    if run.phase != Phase::Done && run.phase != Phase::Failed {
        assert(run.phase != Phase::Notifying ==> account.sent + run.pending =~= account.sent);
        match event {
            EventView::SnapshotLoaded(loaded) => {
                let base = RunView {
                    previous: match loaded {
                        Some(data) => data,
                        None => Map::empty(),
                    },
                    ..run
                };
                if run.phase == Phase::LoadingSnapshot && base.asked >= base.queries.len() {
                    lemma_fetch_next_balances(base, account);
                }
            },
            EventView::PullRequestsListed(items) => {
                let base = RunView {
                    pull_requests: merged(run.pull_requests, items),
                    asked: run.asked + 1,
                    ..run
                };
                if run.phase == Phase::Listing && run.asked < run.queries.len() {
                    lemma_merged_distinct(run.pull_requests, items);
                    if base.asked >= base.queries.len() {
                        lemma_fetch_next_balances(base, account);
                    }
                }
            },
            EventView::ActivityFetched(remote) => {
                if run.phase == Phase::Fetching && run.current < run.pull_requests.len() {
                    let pr = run.pull_requests[run.current as int];
                    let out = outcome_of(
                        run.previous,
                        activity_of(pr, remote, run.username, run.patterns),
                    );
                    let base = RunView {
                        pending: out.notifications,
                        new_data: run.new_data.insert(pr.id, out.entry),
                        ..run
                    };
                    let told = Account {
                        fetched: account.fetched.push(FetchedView { pull_request: pr, remote }),
                        sent: account.sent,
                    };
                    // The pull request in hand has not been recorded yet.
                    assert(told.fetched.drop_last() =~= account.fetched);
                    lemma_new_snapshot_keys(
                        run.previous,
                        account.fetched,
                        run.username,
                        run.patterns,
                        pr.id,
                    );
                    lemma_notify_next_balances(base, told);
                }
            },
            EventView::NotificationSent => {
                if run.phase == Phase::Notifying && run.current < run.pull_requests.len() {
                    lemma_notify_next_balances(run, account);
                }
            },
            _ => {},
        }
    }
}

} // verus!
