use feed_relay::config::{
    parse_visibility, ConfigFile, ContentWarning, MastodonConfig, Persistence, PostVisibility,
    RSSFeedConfig, RSSFilters,
};
use feed_relay::dedup::was_posted;
use feed_relay::hashtag::{apply_hashtags, hashtag_for};
use feed_relay::pattern::{find_in, replace_in, tag_pattern, trigger_pattern, RelayError};
use feed_relay::pipeline::{
    prepare_post, screen_item, FeedItem, SkipReason, MAX_DESCRIPTION_LENGTH,
};
use feed_relay::scanner::scan_for_triggers;
use feed_relay::text::{join_with, truncate};

fn rule(label: &str, phrases: &[&str]) -> ContentWarning {
    ContentWarning {
        label: label.to_string(),
        phrases: phrases.iter().map(|p| p.to_string()).collect(),
    }
}

fn config(rules: Vec<ContentWarning>, tags: &[&str]) -> ConfigFile {
    ConfigFile {
        mastodon: MastodonConfig {
            client_key: String::new(),
            client_secret: String::new(),
            client_token: String::new(),
            account_id: String::new(),
            api_url: String::new(),
            base_url: String::new(),
            redirect_url: String::new(),
            visibility: "public".to_string(),
        },
        feeds: vec![RSSFeedConfig { label: "feed".to_string(), url: "http://x/feed".to_string() }],
        content_warnings: rules,
        filters: RSSFilters { hashtags: tags.iter().map(|t| t.to_string()).collect() },
        persistence: Persistence { database_path: "posted.db".to_string() },
    }
}

fn item(title: Option<&str>, description: Option<&str>, link: Option<&str>) -> FeedItem {
    FeedItem {
        title: title.map(|t| t.to_string()),
        description: description.map(|d| d.to_string()),
        link: link.map(|l| l.to_string()),
    }
}

fn labels(r: Result<Option<Vec<String>>, RelayError>) -> Option<Vec<String>> {
    r.unwrap()
}

#[test]
fn truncate_shorter_text_is_unchanged() {
    assert_eq!(truncate("hello", 10), "hello");
    assert_eq!(truncate("hello", 5), "hello");
    assert_eq!(truncate("", 3), "");
}

#[test]
fn truncate_counts_characters_not_bytes() {
    assert_eq!(truncate("héllo wörld", 2), "hé");
    assert_eq!(truncate("日本語テキスト", 3), "日本語");
    assert_eq!(truncate("abc", 0), "");
    let long = "é".repeat(400);
    let cut = truncate(&long, MAX_DESCRIPTION_LENGTH);
    assert_eq!(cut.chars().count(), 300);
    assert_eq!(cut.len(), 600);
}

#[test]
fn join_with_puts_separator_between_parts() {
    let parts = vec!["a".to_string(), "b".to_string(), "c".to_string()];
    assert_eq!(join_with(&parts, "\n"), "a\nb\nc");
    assert_eq!(join_with(&vec!["only".to_string()], ","), "only");
    assert_eq!(join_with(&Vec::new(), ","), "");
}

#[test]
fn patterns_are_built_from_phrases_and_tags() {
    assert_eq!(trigger_pattern("virus"), r"(?i)\bviruss?\b");
    assert_eq!(tag_pattern("rust"), r"(?i)\b(?P<text>rust)\b");
}

#[test]
fn find_and_replace_use_the_regex_engine() {
    assert_eq!(find_in(r"\bcat\b", "a cat sat").unwrap(), true);
    assert_eq!(find_in(r"\bcat\b", "category").unwrap(), false);
    assert_eq!(replace_in("a", "banana", "o").unwrap(), "bonono");
    match replace_in("(", "text", "") {
        Err(RelayError::InvalidPattern(p)) => assert_eq!(p, "("),
        Ok(_) => panic!("an unbalanced group must be refused"),
    }
}

#[test]
fn scan_ignores_case() {
    let cfg = config(vec![rule("health", &["virus"])], &[]);
    let lower = labels(scan_for_triggers(&cfg, "virus", ""));
    let upper = labels(scan_for_triggers(&cfg, "VIRUS", ""));
    assert_eq!(lower, Some(vec!["health".to_string()]));
    assert_eq!(lower, upper);
    let cfg_upper = config(vec![rule("health", &["VIRUS"])], &[]);
    assert_eq!(labels(scan_for_triggers(&cfg_upper, "a virus", "")), Some(vec!["health".to_string()]));
}

#[test]
fn scan_accepts_plural_but_keeps_word_boundary() {
    let cfg = config(vec![rule("spiders", &["spider"])], &[]);
    assert_eq!(labels(scan_for_triggers(&cfg, "Giant spiders found", "")), Some(vec!["spiders".to_string()]));
    assert_eq!(labels(scan_for_triggers(&cfg, "A spidery feeling", "")), None);
    assert_eq!(labels(scan_for_triggers(&cfg, "", "one spider")), Some(vec!["spiders".to_string()]));
}

#[test]
fn scan_without_match_is_none() {
    let cfg = config(vec![rule("health", &["virus", "disease"])], &[]);
    assert_eq!(labels(scan_for_triggers(&cfg, "Sunny day", "Nothing here")), None);
    let empty = config(Vec::new(), &[]);
    assert_eq!(labels(scan_for_triggers(&empty, "virus", "virus")), None);
}

#[test]
fn scan_keeps_rule_order_and_each_label_once() {
    let cfg = config(
        vec![
            rule("violence", &["war"]),
            rule("health", &["virus"]),
            rule("violence", &["attack"]),
            rule("animals", &["cat"]),
        ],
        &[],
    );
    let found = labels(scan_for_triggers(&cfg, "War and attack", "virus"));
    assert_eq!(found, Some(vec!["violence".to_string(), "health".to_string()]));
    let later = labels(scan_for_triggers(&cfg, "an attack", "a cat"));
    assert_eq!(later, Some(vec!["violence".to_string(), "animals".to_string()]));
}

#[test]
fn scan_reports_refused_phrase() {
    let cfg = config(vec![rule("broken", &["("])], &[]);
    match scan_for_triggers(&cfg, "text", "text") {
        Err(RelayError::InvalidPattern(p)) => assert_eq!(p, r"(?i)\b(s?\b"),
        Ok(_) => panic!("an unbalanced phrase must be refused"),
    }
}

#[test]
fn hashtag_strips_non_word_characters() {
    assert_eq!(hashtag_for("open-source").unwrap(), "#opensource");
    assert_eq!(hashtag_for("rust").unwrap(), "#rust");
    let tags = vec!["open-source".to_string()];
    assert_eq!(apply_hashtags(&tags, "We love open-source code").unwrap(), "We love #opensource code");
}

#[test]
fn hashtags_replace_whole_words_in_any_case() {
    let tags = vec!["rust".to_string()];
    assert_eq!(apply_hashtags(&tags, "Rust and RUST, not rusty").unwrap(), "#rust and #rust, not rusty");
    assert_eq!(apply_hashtags(&Vec::new(), "unchanged").unwrap(), "unchanged");
}

#[test]
fn hashtags_apply_in_configured_order() {
    let tags = vec!["cat".to_string(), "category".to_string()];
    assert_eq!(apply_hashtags(&tags, "category").unwrap(), "#category");
    assert_eq!(apply_hashtags(&tags, "cat category").unwrap(), "#cat #category");
    let chained = vec!["big cat".to_string(), "bigcat".to_string()];
    assert_eq!(apply_hashtags(&chained, "a big cat").unwrap(), "a ##bigcat");
}

#[test]
fn screen_skips_in_order() {
    assert_eq!(screen_item(&item(Some("t"), Some("d"), None), 0), Some(SkipReason::MissingLink));
    assert_eq!(screen_item(&item(None, None, Some("http://x/1")), 1), Some(SkipReason::AlreadyPosted));
    assert_eq!(screen_item(&item(None, Some("d"), Some("http://x/1")), 0), Some(SkipReason::MissingTitle));
    assert_eq!(screen_item(&item(Some("t"), None, Some("http://x/1")), 0), Some(SkipReason::MissingDescription));
    assert_eq!(screen_item(&item(Some("t"), Some("d"), Some("http://x/1")), 0), None);
}

#[test]
fn was_posted_needs_a_record() {
    assert!(!was_posted(0));
    assert!(was_posted(1));
    assert!(was_posted(3));
}

#[test]
fn end_to_end_item_gets_content_warning() {
    let cfg = config(vec![rule("health", &["virus"])], &[]);
    let it = item(Some("Big Virus Outbreak"), Some("<p>A virus spreads</p>"), Some("http://x/1"));
    assert_eq!(screen_item(&it, 0), None);
    let fragments = vec!["A virus spreads".to_string()];
    let post = prepare_post(
        &cfg,
        "feed",
        "Big Virus Outbreak",
        "<p>A virus spreads</p>",
        &fragments,
        "http://x/1",
        MAX_DESCRIPTION_LENGTH,
    )
    .unwrap();
    assert_eq!(post.spoiler_text, Some("CW: health".to_string()));
    assert!(post.body.contains("A virus spreads"));
    assert!(!post.body.contains("<p>"));
    assert_eq!(post.body, "Source: feed\n\nBig Virus Outbreak\nA virus spreads\nhttp://x/1");
    assert!(!post.sensitive);
}

#[test]
fn second_pass_skips_posted_item() {
    let it = item(Some("Big Virus Outbreak"), Some("<p>A virus spreads</p>"), Some("http://x/1"));
    assert_eq!(screen_item(&it, 0), None);
    assert_eq!(screen_item(&it, 1), Some(SkipReason::AlreadyPosted));
}

#[test]
fn post_without_triggers_has_no_spoiler() {
    let cfg = config(vec![rule("health", &["virus"])], &["rust"]);
    let fragments = vec!["Learning".to_string(), "rust today".to_string()];
    let post = prepare_post(&cfg, "blog", "Rust news", "<p>Learning</p><p>rust today</p>", &fragments, "http://y/2", 12)
        .unwrap();
    assert_eq!(post.spoiler_text, None);
    assert_eq!(post.body, "Source: blog\n\n#rust news\nLearning\n#ru\nhttp://y/2");
    assert!(!post.sensitive);
}

#[test]
fn post_spoiler_joins_labels_with_commas() {
    let cfg = config(vec![rule("health", &["virus"]), rule("animals", &["bat"])], &[]);
    let fragments = vec!["Bats carry a virus".to_string()];
    let post = prepare_post(&cfg, "news", "Bats", "Bats carry a virus", &fragments, "http://z/3", 300).unwrap();
    assert_eq!(post.spoiler_text, Some("CW: health,animals".to_string()));
}

#[test]
fn visibility_setting_ignores_case() {
    assert_eq!(parse_visibility("public"), Some(PostVisibility::Public));
    assert_eq!(parse_visibility("Unlisted"), Some(PostVisibility::Unlisted));
    assert_eq!(parse_visibility("private"), None);
}
