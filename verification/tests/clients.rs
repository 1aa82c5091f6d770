use prnotify::clients::cache::{id_set, key_list, loaded_or_empty, CacheClient, Data, PullRequest};
use prnotify::clients::github::{
    api_base_url, bearer_value, endpoint_url, issue_comments_path, require_capture,
    review_comments_path, reviews_path, search_url, Issue, Pages, UrlError, User,
    INVALID_URL_MESSAGE, PER_PAGE,
};
use prnotify::clients::ntfy::{actions_header_value, topic_url};
use prnotify::settings::{DEFAULT_HOSTNAME, DEFAULT_QUERY};
use prnotify::util::{cookie_header, cookies_query};
use std::collections::{HashMap, HashSet};

fn issue(url: &str) -> Issue {
    Issue {
        id: 1,
        number: 2,
        title: "t".to_string(),
        user: User { login: "alice".to_string() },
        html_url: url.to_string(),
    }
}

#[test]
fn repository_is_read_from_the_address() {
    let pr = issue("https://git.example.com/acme/widgets/pull/42");
    assert_eq!(pr.repo_owner().unwrap(), "acme");
    assert_eq!(pr.repo_name().unwrap(), "widgets");
}

#[test]
fn repository_is_read_from_the_leftmost_match() {
    let pr = issue("see https://h/o1/n1/pull/1 and https://h/o2/n2/pull/2");
    assert_eq!(pr.repo_owner().unwrap(), "o1");
    assert_eq!(pr.repo_name().unwrap(), "n1");
}

#[test]
fn address_of_another_shape_is_refused() {
    for url in [
        "",
        "https://git.example.com/acme/widgets/issues/42",
        "https://git.example.com/acme/pull/42",
        "http://git.example.com/acme/widgets/pull/42",
        "https://git.example.com/acme/widgets/pull/",
        "https://git.example.com//widgets/pull/42",
    ] {
        assert!(matches!(issue(url).repo_owner(), Err(UrlError::InvalidUrl)), "{}", url);
        assert!(matches!(issue(url).repo_name(), Err(UrlError::InvalidUrl)), "{}", url);
    }
    assert_eq!(INVALID_URL_MESSAGE, "Invalid pull request url");
}

#[test]
fn missing_group_and_refused_pattern_become_errors() {
    assert_eq!(require_capture(Ok(Some("acme".to_string()))).unwrap(), "acme");
    assert!(matches!(require_capture(Ok(None)), Err(UrlError::InvalidUrl)));
    let reason = regex::Regex::new("(").unwrap_err();
    match require_capture(Err(reason.clone())) {
        Err(UrlError::Pattern(kept)) => assert_eq!(kept, reason),
        other => panic!("{:?}", other),
    }
}

#[test]
fn requests_are_addressed_by_repository_and_number() {
    assert_eq!(issue_comments_path("acme", "widgets", 42), "/repos/acme/widgets/issues/42/comments");
    assert_eq!(reviews_path("acme", "widgets", 42), "/repos/acme/widgets/pulls/42/reviews");
    assert_eq!(review_comments_path("acme", "widgets", 7), "/repos/acme/widgets/pulls/7/comments");
    assert_eq!(issue_comments_path("o", "n", 0), "/repos/o/n/issues/0/comments");
    assert_eq!(PER_PAGE, 100);
}

#[test]
fn service_addresses_are_built_from_the_host() {
    assert_eq!(api_base_url("git.example.com"), "https://git.example.com/api/v3");
    assert_eq!(api_base_url(DEFAULT_HOSTNAME), "https://api.github.com/api/v3");
    assert_eq!(search_url("https://h/api/v3"), "https://h/api/v3/search/issues");
    assert_eq!(endpoint_url("https://h/api/v3", "/repos/o/n/pulls/1/reviews"), "https://h/api/v3/repos/o/n/pulls/1/reviews");
    assert_eq!(bearer_value("t0ken"), "Bearer t0ken");
    assert_eq!(DEFAULT_QUERY, "is:open is:pr involves:@me");
}

#[test]
fn pages_are_read_until_one_is_empty() {
    let mut pages: Pages<u32> = Pages::new();
    assert_eq!(pages.next_page(), Some(1));
    pages.accept(vec![1, 2, 3]);
    assert_eq!(pages.next_page(), Some(2));
    pages.accept(vec![4]);
    assert_eq!(pages.next_page(), Some(3));
    pages.accept(vec![]);
    assert_eq!(pages.next_page(), None);
    pages.accept(vec![9]);
    assert_eq!(pages.next_page(), None);
    assert_eq!(pages.into_items(), vec![1, 2, 3, 4]);
}

#[test]
fn empty_first_page_ends_an_empty_list() {
    let mut pages: Pages<String> = Pages::new();
    pages.accept(vec![]);
    assert_eq!(pages.next_page(), None);
    assert!(pages.into_items().is_empty());
}

#[test]
fn links_are_written_one_after_the_other() {
    let actions = vec![
        ("Open PR".to_string(), "https://h/o/n/pull/1".to_string()),
        ("Open Comment".to_string(), "https://h/c/2".to_string()),
    ];
    assert_eq!(
        actions_header_value(&actions),
        "view, Open PR, https://h/o/n/pull/1; view, Open Comment, https://h/c/2;"
    );
    assert_eq!(actions_header_value(&actions[..1].to_vec()), "view, Open PR, https://h/o/n/pull/1;");
    assert_eq!(actions_header_value(&vec![]), "");
}

#[test]
fn messages_are_posted_to_the_topic() {
    assert_eq!(topic_url("https://ntfy.example.com", "reviews"), "https://ntfy.example.com/reviews");
}

#[test]
fn cookies_are_written_one_after_the_other() {
    let rows = vec![
        ("user_session".to_string(), "abc".to_string()),
        ("logged_in".to_string(), "yes".to_string()),
    ];
    assert_eq!(cookie_header(&rows), "user_session=abc; logged_in=yes;");
    assert_eq!(cookie_header(&vec![]), "");
}

#[test]
fn cookies_are_asked_for_the_host_and_its_subdomains() {
    assert_eq!(
        cookies_query("git.example.com"),
        "SELECT name, value FROM moz_cookies WHERE host = 'git.example.com' OR host = '.git.example.com'"
    );
}

#[test]
fn snapshot_that_could_not_be_loaded_is_empty() {
    assert!(loaded_or_empty(None).is_empty());
    let mut data: Data = HashMap::new();
    data.insert(7, PullRequest { reviews: HashSet::new(), comments: [1usize, 2].into_iter().collect() });
    let kept = loaded_or_empty(Some(data));
    assert_eq!(kept.len(), 1);
    assert_eq!(kept[&7].comments, [1usize, 2].into_iter().collect::<HashSet<usize>>());
}

#[test]
fn cache_client_keeps_its_file_name() {
    let client = CacheClient::new("/tmp/prnotify.json".to_string());
    assert_eq!(client.filename(), "/tmp/prnotify.json");
}

#[test]
fn keys_are_listed_each_once() {
    let mut map: HashMap<usize, &str> = HashMap::new();
    map.insert(3, "c");
    map.insert(1, "a");
    map.insert(2, "b");
    let mut keys = key_list(&map);
    keys.sort();
    assert_eq!(keys, vec![1, 2, 3]);
    assert!(key_list(&HashMap::<usize, u8>::new()).is_empty());
}

#[test]
fn identifiers_are_gathered_into_a_set() {
    let set = id_set(&vec![5, 3, 5, 9]);
    assert_eq!(set, [3usize, 5, 9].into_iter().collect::<HashSet<usize>>());
    assert!(id_set(&vec![]).is_empty());
}
