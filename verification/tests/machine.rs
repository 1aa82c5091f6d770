use prnotify::activity::RemoteActivity;
use prnotify::clients::cache::{Data, PullRequest};
use prnotify::clients::github::{Comment, Issue, Review, ReviewState, UrlError, User};
use prnotify::dispatch::Notification;
use prnotify::driver::{reconcile, Fetched};
use prnotify::filter::ExcludePatterns;
use prnotify::run::{Abort, Action, Event, Phase, Run};
use std::collections::{HashMap, HashSet};

fn user(login: &str) -> User {
    User { login: login.to_string() }
}

fn issue(id: usize, number: usize, title: &str) -> Issue {
    Issue {
        id,
        number,
        title: title.to_string(),
        user: user("alice"),
        html_url: format!("https://git.example.com/acme/widgets/pull/{}", number),
    }
}

fn comment(id: usize, author: &str, body: &str) -> Comment {
    Comment { id, body: body.to_string(), user: user(author), html_url: format!("https://c/{}", id) }
}

fn review(id: usize, author: &str, state: ReviewState, body: &str) -> Review {
    Review { id, body: body.to_string(), state, user: user(author), html_url: format!("https://r/{}", id) }
}

fn ids(list: &[usize]) -> HashSet<usize> {
    list.iter().copied().collect()
}

fn new_run(queries: &[&str]) -> Run {
    Run::new(
        "me".to_string(),
        ExcludePatterns::try_new(vec!["^bot:".to_string()]).unwrap(),
        queries.iter().map(|q| q.to_string()).collect(),
    )
}

fn nothing() -> RemoteActivity {
    RemoteActivity { comments: vec![], reviews: vec![], review_comments: vec![] }
}

#[test]
fn run_goes_from_snapshot_to_snapshot() {
    let run = new_run(&["is:open author:@me", "is:open involves:@me"]);
    assert_eq!(run.phase(), Phase::Idle);

    let (run, action) = run.step(Event::Started);
    assert_eq!(run.phase(), Phase::LoadingSnapshot);
    assert!(matches!(action, Action::LoadSnapshot));

    let mut previous: Data = HashMap::new();
    previous.insert(101, PullRequest { reviews: ids(&[]), comments: ids(&[5]) });
    let (run, action) = run.step(Event::SnapshotLoaded(Some(previous)));
    assert_eq!(run.phase(), Phase::Listing);
    match action {
        Action::ListPullRequests { query } => assert_eq!(query, "is:open author:@me"),
        other => panic!("{:?}", other),
    }

    let (run, action) = run.step(Event::PullRequestsListed(vec![issue(101, 7, "Add widgets")]));
    assert_eq!(run.phase(), Phase::Listing);
    match action {
        Action::ListPullRequests { query } => assert_eq!(query, "is:open involves:@me"),
        other => panic!("{:?}", other),
    }

    let (run, action) = run.step(Event::PullRequestsListed(vec![
        issue(101, 7, "Add widgets, listed again"),
        issue(102, 8, "Remove gadgets"),
    ]));
    assert_eq!(run.phase(), Phase::Fetching);
    match action {
        Action::FetchActivity { repo_owner, repo_name, number } => {
            assert_eq!(repo_owner, "acme");
            assert_eq!(repo_name, "widgets");
            assert_eq!(number, 7);
        }
        other => panic!("{:?}", other),
    }

    let (run, action) = run.step(Event::ActivityFetched(RemoteActivity {
        comments: vec![
            comment(5, "bob", "first"),
            comment(6, "carol", "second"),
            comment(7, "me", "mine"),
            comment(8, "robot", "bot: build passed"),
        ],
        reviews: vec![review(9, "dave", ReviewState::Approved, "fine")],
        review_comments: vec![],
    }));
    assert_eq!(run.phase(), Phase::Notifying);
    match action {
        Action::Notify(n) => {
            assert_eq!(n.title, "Add widgets");
            assert_eq!(n.message, "@carol commented:\n\nsecond");
        }
        other => panic!("{:?}", other),
    }

    let (run, action) = run.step(Event::NotificationSent);
    assert_eq!(run.phase(), Phase::Notifying);
    match action {
        Action::Notify(n) => {
            assert_eq!(n.title, "Add widgets");
            assert_eq!(n.message, "@dave approved:\n\nfine");
        }
        other => panic!("{:?}", other),
    }

    let (run, action) = run.step(Event::NotificationSent);
    assert_eq!(run.phase(), Phase::Fetching);
    match action {
        Action::FetchActivity { repo_owner, repo_name, number } => {
            assert_eq!(repo_owner, "acme");
            assert_eq!(repo_name, "widgets");
            assert_eq!(number, 8);
        }
        other => panic!("{:?}", other),
    }

    let (run, action) = run.step(Event::ActivityFetched(RemoteActivity {
        comments: vec![comment(50, "bob", "hello")],
        reviews: vec![],
        review_comments: vec![],
    }));
    assert_eq!(run.phase(), Phase::Notifying);
    match action {
        Action::Notify(n) => {
            assert_eq!(n.title, "New Pull Request");
            assert_eq!(n.message, "@alice opened Remove gadgets");
        }
        other => panic!("{:?}", other),
    }

    let (run, action) = run.step(Event::NotificationSent);
    assert_eq!(run.phase(), Phase::Done);
    match action {
        Action::Finish { new_data } => {
            assert_eq!(new_data.len(), 2);
            assert_eq!(new_data[&101].comments, ids(&[5, 6]));
            assert_eq!(new_data[&101].reviews, ids(&[9]));
            assert_eq!(new_data[&102].comments, ids(&[50]));
            assert_eq!(new_data[&102].reviews, ids(&[]));
        }
        other => panic!("{:?}", other),
    }

    let (run, action) = run.step(Event::NotificationSent);
    assert_eq!(run.phase(), Phase::Done);
    assert!(matches!(action, Action::Abort(Abort::Unexpected)));
}

#[test]
fn run_without_snapshot_announces_pull_requests_only() {
    let (run, _) = new_run(&["q"]).step(Event::Started);
    let (run, _) = run.step(Event::SnapshotLoaded(None));
    let (run, _) = run.step(Event::PullRequestsListed(vec![issue(101, 7, "Add widgets")]));
    let (run, action) = run.step(Event::ActivityFetched(RemoteActivity {
        comments: vec![comment(5, "bob", "first"), comment(6, "carol", "second")],
        reviews: vec![review(9, "dave", ReviewState::Approved, "fine")],
        review_comments: vec![],
    }));
    match action {
        Action::Notify(n) => assert_eq!(n.title, "New Pull Request"),
        other => panic!("{:?}", other),
    }
    let (run, action) = run.step(Event::NotificationSent);
    assert_eq!(run.phase(), Phase::Done);
    match action {
        Action::Finish { new_data } => {
            assert_eq!(new_data[&101].comments, ids(&[5, 6]));
            assert_eq!(new_data[&101].reviews, ids(&[9]));
        }
        other => panic!("{:?}", other),
    }
}

#[test]
fn run_without_queries_or_pull_requests_finishes_with_an_empty_snapshot() {
    let (run, _) = new_run(&[]).step(Event::Started);
    let (run, action) = run.step(Event::SnapshotLoaded(None));
    assert_eq!(run.phase(), Phase::Done);
    match action {
        Action::Finish { new_data } => assert!(new_data.is_empty()),
        other => panic!("{:?}", other),
    }

    let (run, _) = new_run(&["q"]).step(Event::Started);
    let (run, _) = run.step(Event::SnapshotLoaded(None));
    let (run, action) = run.step(Event::PullRequestsListed(vec![]));
    assert_eq!(run.phase(), Phase::Done);
    assert!(matches!(action, Action::Finish { .. }));
}

#[test]
fn silent_pull_request_is_passed_over() {
    let mut previous: Data = HashMap::new();
    previous.insert(101, PullRequest { reviews: ids(&[]), comments: ids(&[]) });
    previous.insert(102, PullRequest { reviews: ids(&[]), comments: ids(&[]) });
    let (run, _) = new_run(&["q"]).step(Event::Started);
    let (run, _) = run.step(Event::SnapshotLoaded(Some(previous)));
    let (run, _) = run.step(Event::PullRequestsListed(vec![issue(101, 7, "a"), issue(102, 8, "b")]));
    let (run, action) = run.step(Event::ActivityFetched(nothing()));
    assert_eq!(run.phase(), Phase::Fetching);
    match action {
        Action::FetchActivity { number, .. } => assert_eq!(number, 8),
        other => panic!("{:?}", other),
    }
    let (run, action) = run.step(Event::ActivityFetched(nothing()));
    assert_eq!(run.phase(), Phase::Done);
    assert!(matches!(action, Action::Finish { .. }));
}

#[test]
fn collaborator_error_gives_the_run_up() {
    let (run, _) = new_run(&["q"]).step(Event::Started);
    let (run, _) = run.step(Event::SnapshotLoaded(None));
    let (run, action) = run.step(Event::Failed);
    assert_eq!(run.phase(), Phase::Failed);
    assert!(matches!(action, Action::Abort(Abort::Collaborator)));

    let (run, action) = run.step(Event::PullRequestsListed(vec![]));
    assert_eq!(run.phase(), Phase::Failed);
    assert!(matches!(action, Action::Abort(Abort::Unexpected)));
}

#[test]
fn report_out_of_turn_gives_the_run_up() {
    let (run, action) = new_run(&["q"]).step(Event::NotificationSent);
    assert_eq!(run.phase(), Phase::Failed);
    assert!(matches!(action, Action::Abort(Abort::Unexpected)));

    let (run, _) = new_run(&["q"]).step(Event::Started);
    let (run, action) = run.step(Event::Started);
    assert_eq!(run.phase(), Phase::Failed);
    assert!(matches!(action, Action::Abort(Abort::Unexpected)));

    let (run, _) = new_run(&["q"]).step(Event::Started);
    let (run, _) = run.step(Event::SnapshotLoaded(None));
    let (run, action) = run.step(Event::ActivityFetched(nothing()));
    assert_eq!(run.phase(), Phase::Failed);
    assert!(matches!(action, Action::Abort(Abort::Unexpected)));
}

#[test]
fn pull_request_with_a_malformed_address_gives_the_run_up() {
    let mut broken = issue(101, 7, "Add widgets");
    broken.html_url = "https://git.example.com/not-a-pull-request".to_string();
    let (run, _) = new_run(&["q"]).step(Event::Started);
    let (run, _) = run.step(Event::SnapshotLoaded(None));
    let (run, action) = run.step(Event::PullRequestsListed(vec![broken]));
    assert_eq!(run.phase(), Phase::Failed);
    assert!(matches!(action, Action::Abort(Abort::Source(UrlError::InvalidUrl))));
}

#[test]
fn malformed_address_of_a_later_pull_request_keeps_the_earlier_messages() {
    let mut broken = issue(102, 8, "Remove gadgets");
    broken.html_url = "nowhere".to_string();
    let (run, _) = new_run(&["q"]).step(Event::Started);
    let (run, _) = run.step(Event::SnapshotLoaded(None));
    let (run, _) = run.step(Event::PullRequestsListed(vec![issue(101, 7, "Add widgets"), broken]));
    let (run, action) = run.step(Event::ActivityFetched(nothing()));
    assert!(matches!(action, Action::Notify(_)));
    let (run, action) = run.step(Event::NotificationSent);
    assert_eq!(run.phase(), Phase::Failed);
    assert!(matches!(action, Action::Abort(Abort::Source(UrlError::InvalidUrl))));
}

#[test]
fn machine_hands_out_what_a_whole_run_owes() {
    let listing = vec![issue(101, 7, "Add widgets"), issue(102, 8, "Remove gadgets")];
    let reports = || {
        vec![
            RemoteActivity {
                comments: vec![comment(6, "carol", "second"), comment(5, "bob", "first")],
                reviews: vec![
                    review(9, "dave", ReviewState::Approved, "fine"),
                    review(3, "erin", ReviewState::ChangesRequested, ""),
                ],
                review_comments: vec![],
            },
            RemoteActivity {
                comments: vec![comment(50, "bob", "hello")],
                reviews: vec![],
                review_comments: vec![],
            },
        ]
    };
    let snapshot = || {
        let mut previous: Data = HashMap::new();
        previous.insert(101, PullRequest { reviews: ids(&[9]), comments: ids(&[]) });
        previous
    };

    let fetched: Vec<Fetched> = listing
        .iter()
        .cloned()
        .zip(reports())
        .map(|(pull_request, remote)| Fetched { pull_request, remote })
        .collect();
    let patterns = ExcludePatterns::try_new(vec!["^bot:".to_string()]).unwrap();
    let owed = reconcile(&snapshot(), &fetched, &"me".to_string(), &patterns);

    let mut handed_out = vec![];
    let mut left = reports().into_iter();
    let (mut run, _) = new_run(&["q"]).step(Event::Started);
    let mut event = Event::SnapshotLoaded(Some(snapshot()));
    let new_data = loop {
        let (next, action) = run.step(event);
        run = next;
        event = match action {
            Action::ListPullRequests { .. } => Event::PullRequestsListed(listing.clone()),
            Action::FetchActivity { .. } => Event::ActivityFetched(left.next().unwrap()),
            Action::Notify(n) => {
                handed_out.push(n);
                Event::NotificationSent
            }
            Action::Finish { new_data } => break new_data,
            other => panic!("{:?}", other),
        };
    };

    let messages = |list: &Vec<Notification>| -> Vec<(String, String)> {
        list.iter().map(|n| (n.title.clone(), n.message.clone())).collect()
    };
    assert_eq!(messages(&handed_out), messages(&owed.notifications));
    assert_eq!(
        messages(&handed_out),
        vec![
            ("Add widgets".to_string(), "@bob commented:\n\nfirst".to_string()),
            ("Add widgets".to_string(), "@carol commented:\n\nsecond".to_string()),
            ("Add widgets".to_string(), "@erin requested changes:".to_string()),
            ("New Pull Request".to_string(), "@alice opened Remove gadgets".to_string()),
        ]
    );
    assert_eq!(new_data.len(), owed.new_data.len());
    for (id, entry) in &owed.new_data {
        assert_eq!(new_data[id].reviews, entry.reviews);
        assert_eq!(new_data[id].comments, entry.comments);
    }
}
