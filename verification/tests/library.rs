use plegosa::config::{
    check_patterns, Config, ConfigError, DiscordConfig, FilterConfig, InstanceConfig,
    LoggerConfig, StdoutConfig, Timeline, TimelineConfig,
};
use plegosa::filter::{AuthorFilter, FilterResult, Filters, NormalFilter, RegexFilter};
use plegosa::logger::discord::{DiscordPayload, MAX_IMAGES};
use plegosa::logger::{DiscordLogger, Loggers, StdoutLogger};
use plegosa::normalize::{normalize, normalize_all};
use plegosa::observer::{dispose, Disposition};
use plegosa::pattern::{any_pattern_matches, first_invalid};
use plegosa::status::{Account, Attachment, AttachmentType, Status, StatusVisibility};
use plegosa::text::{
    any_term_occurs, chars_of, contains_chars, list_contains, replace_str, str_contains, str_eq,
    string_of,
};

fn account() -> Account {
    Account {
        acct: "alice@example.tld".to_owned(),
        display_name: "Alice".to_owned(),
        avatar: "https://example.tld/a.png".to_owned(),
    }
}

fn status(content: &str) -> Status {
    Status {
        uri: "https://example.tld/notice/1".to_owned(),
        account: account(),
        reblog: None,
        content: content.to_owned(),
        plain_content: None,
        created_at: "2025-01-01T00:00:00+00:00".to_owned(),
        visibility: StatusVisibility::Unlisted,
        media_attachments: Vec::new(),
        quote: false,
    }
}

fn strings(xs: &[&str]) -> Vec<String> {
    xs.iter().map(|x| x.to_string()).collect()
}

fn filter_config(terms: &[&str], unwanted: &[&str], users: &[&str], blocked: &[&str]) -> FilterConfig {
    FilterConfig {
        include_terms: strings(terms),
        exclude_terms: strings(unwanted),
        user_include: strings(users),
        user_exclude: strings(blocked),
        case_sensitive: true,
        use_regex: false,
    }
}

fn config(targets: Vec<Timeline>, token: Option<&str>, filter: FilterConfig, discord: DiscordConfig) -> Config {
    Config {
        instance: InstanceConfig {
            software: megalodon::SNS::Mastodon,
            url: url::Url::parse("https://example.tld").unwrap(),
            token: token.map(|t| t.to_owned()),
        },
        timeline: TimelineConfig { targets },
        filter,
        logger: LoggerConfig { stdout: StdoutConfig { enable: true }, discord },
    }
}

#[test]
fn text_contains_finds_substrings() {
    assert!(str_contains("hello world", "lo w"));
    assert!(str_contains("hello", ""));
    assert!(str_contains("", ""));
    assert!(!str_contains("hello", "hello!"));
    assert!(!str_contains("hello", "world"));
    assert!(str_contains("ababc", "abc"));
    let hay = chars_of("がぎぐげご");
    assert_eq!(hay.len(), 5);
    assert!(contains_chars(&hay, &chars_of("ぐげ")));
}

#[test]
fn text_replace_is_left_to_right() {
    assert_eq!(replace_str("[https://a.tld](https://a.tld)", "[https://", "["), "[a.tld](https://a.tld)");
    assert_eq!(replace_str("aaa", "aa", "b"), "ba");
    assert_eq!(replace_str("a\\#b\\#", "\\#", "#"), "a#b#");
    assert_eq!(replace_str("no match", "xyz", "!"), "no match");
    assert_eq!(replace_str("", "x", "y"), "");
}

#[test]
fn text_round_trip_and_equality() {
    assert_eq!(string_of(&chars_of("ガギ and ascii")), "ガギ and ascii");
    assert!(str_eq("abc", "abc"));
    assert!(!str_eq("abc", "abd"));
    assert!(!str_eq("abc", "ab"));
    let list = strings(&["alice", "bob"]);
    assert!(list_contains(&list, "bob"));
    assert!(!list_contains(&list, "carol"));
    assert!(any_term_occurs(&list, "hi bob!"));
    assert!(!any_term_occurs(&Vec::new(), "anything"));
}

#[test]
fn normalize_folds_case_and_kana() {
    assert_eq!(normalize("ABC", false), "abc");
    assert_eq!(normalize("ABC", true), "ABC");
    assert_eq!(normalize("カタカナ", false), "かたかな");
    assert_eq!(normalize("\u{30AB}\u{3099}", true), "\u{30AC}");
    assert_eq!(normalize("\u{FF76}", false), "か");
    assert_eq!(normalize_all(&strings(&["A", "カ"]), false), strings(&["a", "か"]));
}

#[test]
fn patterns_are_checked() {
    assert_eq!(first_invalid(&strings(&["a.*b"])), None);
    assert_eq!(first_invalid(&strings(&["("])), Some(0));
    assert_eq!(first_invalid(&strings(&["a", "(", "["])), Some(1));
    assert_eq!(first_invalid(&strings(&["a", "b"])), None);
    assert!(any_pattern_matches(&strings(&["^x", "b+c"]), "abbc"));
    assert!(!any_pattern_matches(&strings(&["^x"]), "abc"));
}

#[test]
fn author_exclusion_wins_over_inclusion() {
    let f = AuthorFilter::new(strings(&["alice@example.tld"]), strings(&["alice@example.tld"]));
    match f.filter(&status("x")) {
        FilterResult::Block(reason) => assert_eq!(reason, "The author is in user_exclude"),
        FilterResult::Pass => panic!("expected a block"),
    }
    let g = AuthorFilter::new(strings(&["bob"]), Vec::new());
    match g.filter(&status("x")) {
        FilterResult::Block(reason) => assert_eq!(reason, "The author is not in user_include"),
        FilterResult::Pass => panic!("expected a block"),
    }
    assert!(AuthorFilter::new(Vec::new(), Vec::new()).filter(&status("x")).passed());
}

#[test]
fn normal_filter_reasons() {
    let f = NormalFilter::new(&strings(&["cat"]), &strings(&["dog"]), true);
    assert!(f.filter(&status("a cat")).passed());
    match f.filter(&status("a cat and a dog")) {
        FilterResult::Block(reason) => assert_eq!(reason, "The status contains exclude"),
        FilterResult::Pass => panic!("expected a block"),
    }
    match f.filter(&status("a bird")) {
        FilterResult::Block(reason) => assert_eq!(reason, "The status does not contain include"),
        FilterResult::Pass => panic!("expected a block"),
    }
    assert!(NormalFilter::new(&[], &[], true).filter(&status("anything")).passed());
}

#[test]
fn regex_filter_try_new_refuses_bad_patterns() {
    assert!(RegexFilter::try_new(strings(&["("]), Vec::new(), true).is_none());
    assert!(RegexFilter::try_new(Vec::new(), strings(&["["]), true).is_none());
    let f = RegexFilter::try_new(strings(&["c.t"]), Vec::new(), true).unwrap();
    assert!(f.filter(&status("cat")).is_ok());
    assert_eq!(f.filter(&status("dog")), Err("The status does not contain include".to_owned()));
}

#[test]
fn filters_apply_in_turn() {
    let filters = Filters::new(filter_config(&["cat"], &[], &[], &["bob"]));
    assert!(filters.filter(&status("a cat")).passed());
    let mut repeat = status("a cat");
    repeat.reblog = Some(Box::new(status("a cat")));
    match filters.filter(&repeat) {
        FilterResult::Block(reason) => assert_eq!(reason, "The status is a repeat"),
        FilterResult::Pass => panic!("expected a block"),
    }
    let mut by_bob = status("a cat");
    by_bob.account.acct = "bob".to_owned();
    match filters.filter(&by_bob) {
        FilterResult::Block(reason) => assert_eq!(reason, "The author is in user_exclude"),
        FilterResult::Pass => panic!("expected a block"),
    }
    assert!(filters.filter(&status("a dog")).blocked());

    let mut regex_config = filter_config(&["^a c"], &[], &[], &[]);
    regex_config.use_regex = true;
    let regex_filters = Filters::new(regex_config);
    assert!(regex_filters.filter(&status("a cat")).passed());
    assert!(regex_filters.filter(&status("the cat")).blocked());

    let mut bad = filter_config(&["("], &[], &[], &[]);
    bad.use_regex = true;
    assert!(Filters::try_new(bad).is_none());
    assert!(Filters::try_new(filter_config(&["("], &[], &[], &[])).is_some());
}

#[test]
fn config_load_normalizes_terms() {
    let mut filter = filter_config(&["ABC", "カタ"], &["\u{FF76}"], &["Bob"], &[]);
    filter.case_sensitive = false;
    let loaded = Config::load(config(vec![Timeline::Local], None, filter, DiscordConfig::default()));
    assert_eq!(loaded.filter.include_terms, strings(&["abc", "かた"]));
    assert_eq!(loaded.filter.exclude_terms, strings(&["か"]));
    assert_eq!(loaded.filter.user_include, strings(&["Bob"]));
}

#[test]
fn config_validate_reports_in_order() {
    let home_without_token = config(vec![Timeline::Home], None, FilterConfig::default(), DiscordConfig::default());
    assert_eq!(home_without_token.validate(), Err(ConfigError::TokenMissing));
    let discord = DiscordConfig { enable: true, webhook: None, use_embed: true };
    let no_webhook = config(vec![Timeline::Home], Some("t"), FilterConfig::default(), discord);
    assert_eq!(no_webhook.validate(), Err(ConfigError::WebhookMissing));
    let mut bad = filter_config(&["ok", "("], &["["], &[], &[]);
    bad.use_regex = true;
    let bad_regex = config(vec![Timeline::Local], None, bad, DiscordConfig::default());
    assert_eq!(bad_regex.validate(), Err(ConfigError::InvalidRegex("(".to_owned())));
    let mut bad_unwanted = filter_config(&["ok"], &["["], &[], &[]);
    bad_unwanted.use_regex = true;
    assert_eq!(check_patterns(&bad_unwanted), Err(ConfigError::InvalidRegex("[".to_owned())));
    let fine = config(vec![Timeline::Public], None, filter_config(&["("], &[], &[], &[]), DiscordConfig::default());
    assert_eq!(fine.validate(), Ok(()));
}

#[test]
fn config_error_messages() {
    assert_eq!(
        ConfigError::WebhookMissing.message(),
        "logger.discord.enable is set, but logger.discord.webhook is not provided."
    );
    assert_eq!(
        ConfigError::TokenMissing.message(),
        "timelines.home is set, but instance.token is not provided. Generating new token..."
    );
    assert_eq!(ConfigError::InvalidRegex("(".to_owned()).message(), "invalid regular expression: (");
}

#[test]
fn local_stream_keeps_public_statuses() {
    let timeline = TimelineConfig { targets: vec![Timeline::Local] };
    let filters = Filters::new(filter_config(&["cat"], &[], &[], &[]));
    let mut public = status("a cat");
    public.visibility = StatusVisibility::Public;
    let dedup = timeline.dedup_for(Timeline::Local);
    assert!(matches!(dispose(&filters, &public, dedup), Disposition::Kept));
}

#[test]
fn config_defaults_and_dedup() {
    let t = TimelineConfig::default();
    assert_eq!(t.targets, vec![Timeline::Home]);
    assert!(!t.dedup_for(Timeline::Home));
    let both = TimelineConfig { targets: vec![Timeline::Home, Timeline::Local] };
    assert!(both.dedup_for(Timeline::Home));
    assert!(!both.dedup_for(Timeline::Local));
    let public_only = TimelineConfig { targets: vec![Timeline::Public] };
    assert!(!public_only.dedup_for(Timeline::Public));
    assert!(t.has(Timeline::Home));
    let f = FilterConfig::default();
    assert!(f.case_sensitive && !f.use_regex && f.include_terms.is_empty());
    assert!(StdoutConfig::default().enable);
    let d = DiscordConfig::default();
    assert!(!d.enable && d.webhook.is_none() && d.use_embed);
    let l = LoggerConfig::default();
    assert!(l.stdout.enable && !l.discord.enable);
}

#[test]
fn stdout_entry_lists_fields() {
    let mut s = status("<p>Hello</p>");
    s.plain_content = Some("Hello plain".to_owned());
    assert_eq!(
        StdoutLogger::new().log(&s),
        "==========\nName: Alice (alice@example.tld)\nContent:\nHello plain\nURL: https://example.tld/notice/1"
    );
    let html = StdoutLogger::new().log(&status("<p>Hello <b>there</b></p>"));
    assert!(html.contains("Hello"));
    assert!(html.contains("there"));
    assert!(!html.contains("<b>"));
}

#[test]
fn discord_payload_by_visibility() {
    let logger = DiscordLogger::new(DiscordConfig {
        enable: true,
        webhook: Some(url::Url::parse("https://discord.example/hook").unwrap()),
        use_embed: false,
    });
    match logger.log(&status("x")) {
        DiscordPayload::Link { content } => assert_eq!(content, "https://example.tld/notice/1"),
        _ => panic!("expected a link"),
    }
    let mut private = status("<p>secret_word</p>");
    private.visibility = StatusVisibility::Private;
    match logger.log(&private) {
        DiscordPayload::Embeds { username, description, image, more_images, title, .. } => {
            assert_eq!(username, "Alice");
            assert_eq!(title, "https://example.tld/notice/1");
            assert!(description.contains("secret_word"));
            assert!(!description.contains("<p>"));
            assert!(image.is_none());
            assert!(more_images.is_empty());
        }
        _ => panic!("expected embeds"),
    }
}

#[test]
fn discord_payload_limits_images() {
    let logger = DiscordLogger::new(DiscordConfig {
        enable: true,
        webhook: Some(url::Url::parse("https://discord.example/hook").unwrap()),
        use_embed: true,
    });
    let mut s = status("x");
    s.media_attachments.push(Attachment { kind: AttachmentType::Video, url: "v".to_owned() });
    for i in 0..12 {
        s.media_attachments.push(Attachment { kind: AttachmentType::Image, url: format!("i{i}") });
    }
    match logger.log(&s) {
        DiscordPayload::Embeds { image, more_images, .. } => {
            assert_eq!(image, Some("i0".to_owned()));
            assert_eq!(more_images.len(), MAX_IMAGES - 1);
            assert_eq!(more_images[0], "i1");
            assert_eq!(more_images[8], "i9");
        }
        _ => panic!("expected embeds"),
    }
}

#[test]
fn loggers_follow_config() {
    let l = Loggers::new(LoggerConfig::default());
    assert!(l.stdout.is_some() && l.discord.is_none());
    let l = Loggers::new(LoggerConfig {
        stdout: StdoutConfig { enable: false },
        discord: DiscordConfig {
            enable: true,
            webhook: Some(url::Url::parse("https://discord.example/hook").unwrap()),
            use_embed: true,
        },
    });
    assert!(l.stdout.is_none() && l.discord.is_some());
}

#[test]
fn dispose_dedups_then_filters() {
    let filters = Filters::new(filter_config(&["cat"], &[], &[], &[]));
    let mut public = status("a cat");
    public.visibility = StatusVisibility::Public;
    assert!(matches!(dispose(&filters, &public, true), Disposition::Duplicate));
    assert!(matches!(dispose(&filters, &public, false), Disposition::Kept));
    assert!(matches!(dispose(&filters, &status("a cat"), true), Disposition::Kept));
    match dispose(&filters, &status("a dog"), true) {
        Disposition::Blocked(reason) => assert_eq!(reason, "The status does not contain include"),
        _ => panic!("expected a block"),
    }
}

#[test]
fn empty_filter_config_keeps_all_but_repeats() {
    let filters = Filters::new(filter_config(&[], &[], &[], &[]));
    assert!(filters.filter(&status("anything at all")).passed());
    let mut quote = status("q");
    quote.reblog = Some(Box::new(status("r")));
    quote.quote = true;
    assert!(filters.filter(&quote).passed());
    quote.quote = false;
    assert!(filters.filter(&quote).blocked());
}

#[test]
fn equivalent_contents_get_the_same_verdict() {
    let composed = status("\u{30AC}\u{30AE}");
    let decomposed = status("\u{30AB}\u{3099}\u{30AD}\u{3099}");
    for terms in [&["\u{30AC}"][..], &["x"][..]] {
        let filters = Filters::new(filter_config(terms, &[], &[], &[]));
        assert_eq!(filters.filter(&composed).passed(), filters.filter(&decomposed).passed());
    }
}
