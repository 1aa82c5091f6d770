use prnotify::clients::github::{Comment, Review, ReviewState, User};
use prnotify::filter::{
    is_comment_excluded, is_comment_filtered, is_review_excluded, ExcludePatterns,
};
use prnotify::settings::Github;

fn patterns(sources: &[&str]) -> ExcludePatterns {
    ExcludePatterns::try_new(sources.iter().map(|s| s.to_string()).collect()).unwrap()
}

fn comment(author: &str, body: &str) -> Comment {
    Comment {
        id: 1,
        body: body.to_string(),
        user: User { login: author.to_string() },
        html_url: "https://h/c/1".to_string(),
    }
}

fn review(author: &str, state: ReviewState, body: &str) -> Review {
    Review {
        id: 1,
        body: body.to_string(),
        state,
        user: User { login: author.to_string() },
        html_url: "https://h/r/1".to_string(),
    }
}

#[test]
fn no_pattern_filters_nothing() {
    assert!(!is_comment_filtered("anything", &patterns(&[])));
    assert!(!is_comment_filtered("", &patterns(&[])));
}

#[test]
fn any_matching_pattern_filters() {
    let p = patterns(&["^/retest", "(?i)coverage", r"\bbot\b"]);
    assert!(is_comment_filtered("/retest please", &p));
    assert!(is_comment_filtered("Total Coverage: 80%", &p));
    assert!(is_comment_filtered("I am a bot.", &p));
    assert!(!is_comment_filtered("please /retest", &p));
    assert!(!is_comment_filtered("robots", &p));
    assert!(p.matches_any("/retest"));
    assert!(!p.matches_any("nothing of the kind"));
}

#[test]
fn pattern_matches_anywhere_in_the_text() {
    let p = patterns(&["needle"]);
    assert!(is_comment_filtered("hay needle hay", &p));
    assert!(is_comment_filtered("line one\nline two with needle", &p));
    assert!(!is_comment_filtered("hay", &p));
}

#[test]
fn pattern_is_not_the_text_handed_back() {
    let p = patterns(&["a+b"]);
    assert!(is_comment_filtered("xaaab", &p));
    assert!(!is_comment_filtered("a+b", &p));
}

#[test]
fn first_bad_pattern_is_reported() {
    let sources = vec!["fine".to_string(), "(".to_string(), "[".to_string()];
    match ExcludePatterns::try_new(sources) {
        Ok(_) => panic!("an unclosed group was accepted"),
        Err(e) => {
            assert_eq!(e.index, 1);
            assert!(matches!(e.reason, regex::Error::Syntax(_)));
        }
    }
}

#[test]
fn pattern_too_big_to_compile_is_reported() {
    let sources = vec![r"\w{1000}".to_string()];
    match ExcludePatterns::try_new(sources) {
        Ok(_) => panic!("an oversized pattern was accepted"),
        Err(e) => assert_eq!(e.index, 0),
    }
}

#[test]
fn good_patterns_are_accepted() {
    assert!(ExcludePatterns::try_new(vec![]).is_ok());
    assert!(ExcludePatterns::try_new(vec!["^a$".to_string(), r"\d+".to_string()]).is_ok());
}

#[test]
fn own_comment_is_noise() {
    let me = "me".to_string();
    assert!(is_comment_excluded(&comment("me", "hello"), &me, &patterns(&[])));
    assert!(!is_comment_excluded(&comment("you", "hello"), &me, &patterns(&[])));
    assert!(!is_comment_excluded(&comment("Me", "hello"), &me, &patterns(&[])));
    assert!(!is_comment_excluded(&comment("me2", "hello"), &me, &patterns(&[])));
}

#[test]
fn comment_with_matching_text_is_noise() {
    let me = "me".to_string();
    let p = patterns(&["^hello"]);
    assert!(is_comment_excluded(&comment("you", "hello there"), &me, &p));
    assert!(!is_comment_excluded(&comment("you", "oh, hello"), &me, &p));
}

#[test]
fn pending_own_and_matching_reviews_are_noise() {
    let me = "me".to_string();
    let p = patterns(&["^hello"]);
    assert!(is_review_excluded(&review("you", ReviewState::Pending, "fine"), &me, &p));
    assert!(is_review_excluded(&review("me", ReviewState::Approved, "fine"), &me, &p));
    assert!(is_review_excluded(&review("you", ReviewState::Commented, "hello"), &me, &p));
    assert!(!is_review_excluded(&review("you", ReviewState::Approved, "fine"), &me, &p));
    assert!(!is_review_excluded(&review("you", ReviewState::ChangesRequested, ""), &me, &p));
}

#[test]
fn settings_yield_their_exclude_patterns() {
    let mut github = Github {
        personal_access_token: "t".to_string(),
        hostname: "git.example.com".to_string(),
        username: "me".to_string(),
        proxy_url: None,
        queries: vec![],
        exclude_comment_patterns: vec!["^skip".to_string()],
    };
    let p = github.exclude_patterns().unwrap();
    assert!(p.matches_any("skip this"));
    assert!(!p.matches_any("do not skip this"));

    github.exclude_comment_patterns.push("*".to_string());
    match github.exclude_patterns() {
        Ok(_) => panic!("a dangling repetition was accepted"),
        Err(e) => assert_eq!(e.index, 1),
    }
}
