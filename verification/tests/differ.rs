use prnotify::activity::{attach_review_comments, comments_by_ids, reviews_by_ids};
use prnotify::clients::cache::{Data, PullRequest};
use prnotify::clients::github::{Comment, Issue, Review, ReviewComment, ReviewState, User};
use prnotify::diff::{diff, unseen_ids, Classification};
use prnotify::dispatch::{
    announce_comment, announce_pull_request, announce_review, notifications, send_notifications,
};
use prnotify::driver::{knows_id, merge_pull_requests, snapshot_entry};
use prnotify::feedback;
use prnotify::filter::ExcludePatterns;
use prnotify::ids::insert_ascending;
use std::collections::{HashMap, HashSet};

fn user(login: &str) -> User {
    User { login: login.to_string() }
}

fn issue(id: usize, title: &str) -> Issue {
    Issue {
        id,
        number: id + 1000,
        title: title.to_string(),
        user: user("alice"),
        html_url: format!("https://h/o/n/pull/{}", id + 1000),
    }
}

fn ids(list: &[usize]) -> HashSet<usize> {
    list.iter().copied().collect()
}

fn no_patterns() -> ExcludePatterns {
    ExcludePatterns::try_new(vec![]).unwrap()
}

fn comment_map(list: &[usize]) -> HashMap<usize, feedback::Comment> {
    list.iter()
        .map(|id| {
            (
                *id,
                feedback::Comment::new(
                    "bob".to_string(),
                    format!("comment {}", id),
                    "https://h/o/n/pull/1".to_string(),
                    format!("https://h/c/{}", id),
                ),
            )
        })
        .collect()
}

fn review_map(list: &[usize]) -> HashMap<usize, feedback::Review> {
    list.iter()
        .map(|id| {
            (
                *id,
                feedback::Review::new(
                    "carol".to_string(),
                    feedback::ReviewState::Approved,
                    format!("review {}", id),
                    "https://h/o/n/pull/1".to_string(),
                    format!("https://h/r/{}", id),
                ),
            )
        })
        .collect()
}

#[test]
fn identifier_is_put_at_its_place() {
    let mut list = vec![];
    for id in [5usize, 1, 9, 3, 7] {
        insert_ascending(&mut list, id);
    }
    assert_eq!(list, vec![1, 3, 5, 7, 9]);
    insert_ascending(&mut list, 0);
    insert_ascending(&mut list, 10);
    assert_eq!(list, vec![0, 1, 3, 5, 7, 9, 10]);
}

#[test]
fn identifier_is_not_put_twice() {
    let mut list = vec![1, 3, 5];
    insert_ascending(&mut list, 3);
    insert_ascending(&mut list, 1);
    insert_ascending(&mut list, 5);
    assert_eq!(list, vec![1, 3, 5]);
}

#[test]
fn unseen_identifiers_are_the_current_ones_that_were_not_seen() {
    let current = comment_map(&[8, 2, 6, 4]);
    assert_eq!(unseen_ids(&current, &ids(&[2, 6, 100])), vec![4, 8]);
    assert_eq!(unseen_ids(&current, &ids(&[])), vec![2, 4, 6, 8]);
    assert!(unseen_ids(&current, &ids(&[2, 4, 6, 8])).is_empty());
    assert!(unseen_ids(&comment_map(&[]), &ids(&[1])).is_empty());
}

#[test]
fn pull_request_without_entry_is_new_and_has_no_new_items() {
    let mut previous: Data = HashMap::new();
    previous.insert(2, PullRequest { reviews: ids(&[]), comments: ids(&[]) });
    let d = diff(&previous, 1, &review_map(&[9]), &comment_map(&[5, 6]));
    assert_eq!(d.classification, Classification::New);
    assert!(d.new_comment_ids.is_empty());
    assert!(d.new_review_ids.is_empty());
}

#[test]
fn pull_request_with_entry_has_its_unseen_items_as_new() {
    let mut previous: Data = HashMap::new();
    previous.insert(1, PullRequest { reviews: ids(&[9]), comments: ids(&[5, 77]) });
    let d = diff(&previous, 1, &review_map(&[9, 10, 4]), &comment_map(&[6, 5]));
    assert_eq!(d.classification, Classification::Existing);
    assert_eq!(d.new_comment_ids, vec![6]);
    assert_eq!(d.new_review_ids, vec![4, 10]);
}

#[test]
fn messages_carry_title_text_and_links() {
    let pr = issue(1, "Add widgets");
    let n = announce_pull_request(&pr);
    assert_eq!(n.title, "New Pull Request");
    assert_eq!(n.message, "@alice opened Add widgets");
    assert_eq!(n.view_actions, vec![("Open PR".to_string(), "https://h/o/n/pull/1001".to_string())]);

    let comments = comment_map(&[5]);
    let n = announce_comment(&pr, &comments[&5]);
    assert_eq!(n.title, "Add widgets");
    assert_eq!(n.message, "@bob commented:\n\ncomment 5");
    assert_eq!(
        n.view_actions,
        vec![
            ("Open PR".to_string(), "https://h/o/n/pull/1".to_string()),
            ("Open Comment".to_string(), "https://h/c/5".to_string()),
        ]
    );

    let reviews = review_map(&[9]);
    let n = announce_review(&pr, &reviews[&9]);
    assert_eq!(n.title, "Add widgets");
    assert_eq!(n.message, "@carol approved:\n\nreview 9");
    assert_eq!(
        n.view_actions,
        vec![
            ("Open PR".to_string(), "https://h/o/n/pull/1".to_string()),
            ("Open Comment".to_string(), "https://h/r/9".to_string()),
        ]
    );
}

#[test]
fn comments_are_announced_before_reviews() {
    let pr = issue(1, "Add widgets");
    let mut previous: Data = HashMap::new();
    previous.insert(1, PullRequest { reviews: ids(&[]), comments: ids(&[]) });
    let reviews = review_map(&[2, 1]);
    let comments = comment_map(&[4, 3]);
    let out = send_notifications(&previous, &reviews, &comments, &pr);
    let messages: Vec<&str> = out.notifications.iter().map(|n| n.message.as_str()).collect();
    assert_eq!(
        messages,
        vec![
            "@bob commented:\n\ncomment 3",
            "@bob commented:\n\ncomment 4",
            "@carol approved:\n\nreview 1",
            "@carol approved:\n\nreview 2",
        ]
    );
    assert_eq!(out.diff.new_comment_ids, vec![3, 4]);
    assert_eq!(out.diff.new_review_ids, vec![1, 2]);

    let again = notifications(&pr, &out.diff, &reviews, &comments);
    assert_eq!(again.len(), 4);
    assert_eq!(again[0].message, "@bob commented:\n\ncomment 3");
}

#[test]
fn later_record_with_the_same_identifier_stands() {
    let pr = issue(1, "t");
    let raw = vec![
        Comment { id: 5, body: "old".to_string(), user: user("bob"), html_url: "u1".to_string() },
        Comment { id: 5, body: "new".to_string(), user: user("bob"), html_url: "u2".to_string() },
    ];
    let map = comments_by_ids(&raw, &pr, &"me".to_string(), &no_patterns());
    assert_eq!(map.len(), 1);
    assert_eq!(map[&5].to_string(), "@bob commented:\n\nnew");
    assert_eq!(map[&5].url, "u2");
    assert_eq!(map[&5].pr_url, "https://h/o/n/pull/1001");
}

#[test]
fn thread_comments_are_attached_in_arrival_order() {
    let pr = issue(1, "t");
    let raw = vec![
        Review { id: 9, body: "".to_string(), state: ReviewState::Commented, user: user("bob"), html_url: "r9".to_string() },
        Review { id: 8, body: "".to_string(), state: ReviewState::Pending, user: user("bob"), html_url: "r8".to_string() },
    ];
    let thread = vec![
        ReviewComment { id: 1, pull_request_review_id: 8, body: "to a draft".to_string(), user: user("bob") },
        ReviewComment { id: 2, pull_request_review_id: 9, body: "only one".to_string(), user: user("me") },
    ];
    let mut map = reviews_by_ids(&raw, &thread, &pr, &"me".to_string(), &no_patterns());
    assert_eq!(map.len(), 1);
    assert_eq!(map[&9].to_string(), "@bob commented:\n\nonly one");
    assert_eq!(map[&9].url, "r9");
    assert_eq!(map[&9].pr_url, "https://h/o/n/pull/1001");

    let more = vec![
        ReviewComment { id: 3, pull_request_review_id: 9, body: "second".to_string(), user: user("x") },
        ReviewComment { id: 4, pull_request_review_id: 10, body: "lost".to_string(), user: user("x") },
        ReviewComment { id: 5, pull_request_review_id: 9, body: "third".to_string(), user: user("x") },
    ];
    attach_review_comments(&mut map, &more);
    assert_eq!(map.len(), 1);
    assert_eq!(map[&9].to_string(), "@bob commented:\n\n(+ 3 comments)");
}

#[test]
fn entry_holds_the_identifiers_of_the_activity() {
    let activity = prnotify::activity::PullRequestActivity {
        pull_request: issue(1, "t"),
        reviews: review_map(&[9, 4]),
        comments: comment_map(&[6, 5, 7]),
    };
    let entry = snapshot_entry(&activity);
    assert_eq!(entry.reviews, ids(&[4, 9]));
    assert_eq!(entry.comments, ids(&[5, 6, 7]));
}

#[test]
fn first_occurrence_of_a_pull_request_stands() {
    let mut known = vec![];
    merge_pull_requests(&mut known, vec![issue(3, "three"), issue(1, "one"), issue(3, "three again")]);
    merge_pull_requests(&mut known, vec![issue(2, "two"), issue(1, "one again")]);
    merge_pull_requests(&mut known, vec![]);
    let titles: Vec<&str> = known.iter().map(|pr| pr.title.as_str()).collect();
    assert_eq!(titles, vec!["three", "one", "two"]);
    assert!(knows_id(&known, 2));
    assert!(!knows_id(&known, 4));
}
