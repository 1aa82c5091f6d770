use prnotify::clients::github;
use prnotify::feedback::{Comment, Review, ReviewState};
use prnotify::text::{decimal_string, join};

fn s(text: &str) -> String {
    text.to_string()
}

#[test]
fn comment_message_names_the_author_and_quotes_the_text() {
    let c = Comment::new(s("alice"), s("Please rebase."), s("https://h/o/r/pull/1"), s("https://h/c/2"));
    assert_eq!(c.to_string(), "@alice commented:\n\nPlease rebase.");
    assert_eq!(c.pr_url, "https://h/o/r/pull/1");
    assert_eq!(c.url, "https://h/c/2");
    assert_eq!(c.pull_request_url(), "https://h/o/r/pull/1");
    assert_eq!(c.permalink(), "https://h/c/2");
}

#[test]
fn comment_message_keeps_an_empty_text() {
    let c = Comment::new(s("alice"), s(""), s("p"), s("u"));
    assert_eq!(c.to_string(), "@alice commented:\n\n");
}

#[test]
fn review_message_starts_with_the_verdict() {
    let approved = Review::new(s("bob"), ReviewState::Approved, s("ok"), s("p"), s("u"));
    let changes = Review::new(s("bob"), ReviewState::ChangesRequested, s("no"), s("p"), s("u"));
    let commented = Review::new(s("bob"), ReviewState::Commented, s("hm"), s("p"), s("u"));
    assert_eq!(approved.to_string(), "@bob approved:\n\nok");
    assert_eq!(changes.to_string(), "@bob requested changes:\n\nno");
    assert_eq!(commented.to_string(), "@bob commented:\n\nhm");
}

#[test]
fn review_without_summary_or_thread_is_its_first_line() {
    let r = Review::new(s("bob"), ReviewState::Approved, s(""), s("p"), s("u"));
    assert_eq!(r.to_string(), "@bob approved:");
}

#[test]
fn review_without_summary_shows_its_only_thread_comment() {
    let mut r = Review::new(s("bob"), ReviewState::Commented, s(""), s("p"), s("u"));
    r.add_comment(s("typo here"));
    assert_eq!(r.to_string(), "@bob commented:\n\ntypo here");
}

#[test]
fn review_with_summary_does_not_show_its_only_thread_comment() {
    let mut r = Review::new(s("bob"), ReviewState::Commented, s("overall fine"), s("p"), s("u"));
    r.add_comment(s("typo here"));
    assert_eq!(r.to_string(), "@bob commented:\n\noverall fine");
}

#[test]
fn review_counts_several_thread_comments() {
    let mut bare = Review::new(s("bob"), ReviewState::ChangesRequested, s(""), s("p"), s("u"));
    bare.add_comment(s("one"));
    bare.add_comment(s("two"));
    assert_eq!(bare.to_string(), "@bob requested changes:\n\n(+ 2 comments)");

    let mut full = Review::new(s("bob"), ReviewState::ChangesRequested, s("see below"), s("p"), s("u"));
    for i in 0..12 {
        full.add_comment(format!("remark {}", i));
    }
    assert_eq!(full.to_string(), "@bob requested changes:\n\nsee below\n\n(+ 12 comments)");
}

#[test]
fn review_keeps_its_addresses() {
    let r = Review::new(s("bob"), ReviewState::Approved, s("ok"), s("https://h/o/r/pull/1"), s("https://h/r/9"));
    assert_eq!(r.pr_url, "https://h/o/r/pull/1");
    assert_eq!(r.url, "https://h/r/9");
    assert_eq!(r.pull_request_url(), "https://h/o/r/pull/1");
    assert_eq!(r.permalink(), "https://h/r/9");
}

#[test]
fn pending_review_has_no_verdict() {
    assert_eq!(ReviewState::from_remote(github::ReviewState::Approved), Some(ReviewState::Approved));
    assert_eq!(
        ReviewState::from_remote(github::ReviewState::ChangesRequested),
        Some(ReviewState::ChangesRequested)
    );
    assert_eq!(ReviewState::from_remote(github::ReviewState::Commented), Some(ReviewState::Commented));
    assert_eq!(ReviewState::from_remote(github::ReviewState::Pending), None);
}

#[test]
fn numbers_are_written_in_decimal() {
    assert_eq!(decimal_string(0), "0");
    assert_eq!(decimal_string(7), "7");
    assert_eq!(decimal_string(10), "10");
    assert_eq!(decimal_string(109), "109");
    assert_eq!(decimal_string(12345), "12345");
    assert_eq!(decimal_string(usize::MAX), usize::MAX.to_string());
}

#[test]
fn parts_are_joined_with_the_separator_between_them() {
    assert_eq!(join(&vec![], ", "), "");
    assert_eq!(join(&vec![s("a")], ", "), "a");
    assert_eq!(join(&vec![s("a"), s("b"), s("c")], ", "), "a, b, c");
    assert_eq!(join(&vec![s(""), s("")], "-"), "-");
}
