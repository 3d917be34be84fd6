//! The configuration: what to watch, what to keep, where to write it.
use crate::normalize::{normalize_all, normalized};
use crate::pattern::{all_valid, first_invalid, regex_valid};
use vstd::prelude::*;

verus! {

#[verifier::external_type_specification]
#[verifier::external_body]
pub struct ExSns(megalodon::SNS);

#[verifier::external_type_specification]
#[verifier::external_body]
pub struct ExUrl(url::Url);

/// A timeline that can be watched.
#[derive(PartialEq, Eq, Structural, Clone, Copy, Debug)]
pub enum Timeline {
    Home,
    Local,
    Public,
}

/// The whole configuration.
pub struct Config {
    pub instance: InstanceConfig,
    pub timeline: TimelineConfig,
    pub filter: FilterConfig,
    pub logger: LoggerConfig,
}

/// The server to connect to.
pub struct InstanceConfig {
    pub software: megalodon::SNS,
    pub url: url::Url,
    /// Access token; needed for the home timeline.
    pub token: Option<String>,
}

/// The timelines to watch.
pub struct TimelineConfig {
    pub targets: Vec<Timeline>,
}

/// Which statuses to keep.
pub struct FilterConfig {
    /// Terms (or patterns) of which a kept status must contain one; empty keeps all.
    pub include_terms: Vec<String>,
    /// Terms (or patterns) of which a kept status contains none.
    pub exclude_terms: Vec<String>,
    /// Authors of which a kept status must have one; empty keeps all.
    pub user_include: Vec<String>,
    /// Authors whose statuses are never kept.
    pub user_exclude: Vec<String>,
    /// Whether case, kana and compatibility variants are told apart.
    pub case_sensitive: bool,
    /// Whether `include_terms` and `exclude_terms` hold regular expressions.
    pub use_regex: bool,
}

/// Where kept statuses are written.
pub struct LoggerConfig {
    pub stdout: StdoutConfig,
    pub discord: DiscordConfig,
}

/// Writing to the standard output.
pub struct StdoutConfig {
    pub enable: bool,
}

/// Posting to a Discord webhook.
pub struct DiscordConfig {
    pub enable: bool,
    pub webhook: Option<url::Url>,
    pub use_embed: bool,
}

impl Default for TimelineConfig {
    fn default() -> (res: Self)
        ensures
            res.targets@ == seq![Timeline::Home],
    {
        let mut targets: Vec<Timeline> = Vec::new();
        targets.push(Timeline::Home);
        TimelineConfig { targets }
    }
}

impl Default for FilterConfig {
    fn default() -> (res: Self)
        ensures
            res.include_terms@.len() == 0,
            res.exclude_terms@.len() == 0,
            res.user_include@.len() == 0,
            res.user_exclude@.len() == 0,
            res.case_sensitive,
            !res.use_regex,
    {
        FilterConfig {
            include_terms: Vec::new(),
            exclude_terms: Vec::new(),
            user_include: Vec::new(),
            user_exclude: Vec::new(),
            case_sensitive: true,
            use_regex: false,
        }
    }
}

impl Default for StdoutConfig {
    fn default() -> (res: Self)
        ensures
            res.enable,
    {
        StdoutConfig { enable: true }
    }
}

impl Default for DiscordConfig {
    fn default() -> (res: Self)
        ensures
            !res.enable,
            res.webhook is None,
            res.use_embed,
    {
        DiscordConfig { enable: false, webhook: None, use_embed: true }
    }
}

impl Default for LoggerConfig {
    fn default() -> (res: Self)
        ensures
            res.stdout.enable,
            !res.discord.enable,
            res.discord.webhook is None,
            res.discord.use_embed,
    {
        LoggerConfig { stdout: StdoutConfig::default(), discord: DiscordConfig::default() }
    }
}

impl TimelineConfig {
    /// Whether `timeline` is among the targets.
    pub fn has(&self, timeline: Timeline) -> (res: bool)
        ensures
            res == self.targets@.contains(timeline),
    {
        let n = self.targets.len();
        let mut i: usize = 0;
        while i < n
            invariant
                n == self.targets@.len(),
                i <= n,
                forall|k: int| 0 <= k < i ==> self.targets@[k] != timeline,
            decreases n - i,
        {
            if self.targets[i] == timeline {
                assert(self.targets@[i as int] == timeline);
                return true;
            }
            i = i + 1;
        }
        false
    }

    /// Whether the stream of `timeline` leaves public statuses out: only the home
    /// stream does, and only when the local or public timeline is watched too,
    /// since public statuses reach those streams as well.
    pub fn dedup_for(&self, timeline: Timeline) -> (res: bool)
        ensures
            res == dedup_applies(self.targets@, timeline),
    {
        timeline == Timeline::Home && (self.has(Timeline::Local) || self.has(Timeline::Public))
    }
}

/// The stream of `timeline`, among the watched `targets`, leaves public statuses
/// out: it is the home stream, and the local or public timeline is watched too.
pub open spec fn dedup_applies(targets: Seq<Timeline>, timeline: Timeline) -> bool {
    timeline == Timeline::Home && (targets.contains(Timeline::Local) || targets.contains(
        Timeline::Public,
    ))
}

/// Why a configuration cannot be used as it stands.
#[derive(PartialEq, Eq, Debug)]
pub enum ConfigError {
    /// The home timeline is watched but no access token is given: one has to be generated.
    TokenMissing,
    /// The Discord logger is enabled but no webhook is given.
    WebhookMissing,
    /// Regular expressions are in use and this one does not compile.
    InvalidRegex(String),
}

impl ConfigError {
    /// The message under which the error is reported.
    pub fn message(&self) -> (res: String)
        ensures
            res@ == config_error_message(*self),
    {
        match self {
            ConfigError::TokenMissing => {
                "timelines.home is set, but instance.token is not provided. Generating new token...".to_owned()
            },
            ConfigError::WebhookMissing => {
                "logger.discord.enable is set, but logger.discord.webhook is not provided.".to_owned()
            },
            ConfigError::InvalidRegex(pattern) => {
                let mut res = String::from_str("invalid regular expression: ");
                res.append(pattern.as_str());
                res
            },
        }
    }
}

/// The message of each configuration error.
pub open spec fn config_error_message(err: ConfigError) -> Seq<char> {
    match err {
        ConfigError::TokenMissing => "timelines.home is set, but instance.token is not provided. Generating new token..."@,
        ConfigError::WebhookMissing => "logger.discord.enable is set, but logger.discord.webhook is not provided."@,
        ConfigError::InvalidRegex(pattern) => "invalid regular expression: "@ + pattern@,
    }
}

/// The error for a list of patterns of which `i` is the first invalid one.
pub open spec fn first_invalid_at(patterns: Seq<String>, i: int) -> bool {
    &&& 0 <= i < patterns.len()
    &&& !regex_valid(patterns[i]@)
    &&& all_valid(patterns.take(i))
}

/// `err` reports the first invalid pattern of `patterns`.
pub open spec fn reports_first_invalid(patterns: Seq<String>, err: ConfigError) -> bool {
    exists|i: int| #[trigger] first_invalid_at(patterns, i) && err == ConfigError::InvalidRegex(patterns[i])
}

/// The patterns of a filter configuration, when they are regular expressions, all compile.
pub open spec fn patterns_valid(filter: FilterConfig) -> bool {
    filter.use_regex ==> all_valid(filter.include_terms@) && all_valid(filter.exclude_terms@)
}

/// Checks the patterns of a filter configuration that uses regular expressions:
/// the first invalid one of `include_terms`, else of `exclude_terms`, is reported.
pub fn check_patterns(filter: &FilterConfig) -> (res: Result<(), ConfigError>)
    ensures
        res is Ok <==> patterns_valid(*filter),
        res matches Err(e) ==> filter.use_regex && (if all_valid(filter.include_terms@) {
            reports_first_invalid(filter.exclude_terms@, e)
        } else {
            reports_first_invalid(filter.include_terms@, e)
        }),
{
    if !filter.use_regex {
        return Ok(());
    }
    match first_invalid(&filter.include_terms) {
        Some(i) => {
            assert(first_invalid_at(filter.include_terms@, i as int));
            return Err(ConfigError::InvalidRegex(filter.include_terms[i].clone()));
        },
        None => {},
    }
    match first_invalid(&filter.exclude_terms) {
        Some(i) => {
            assert(first_invalid_at(filter.exclude_terms@, i as int));
            Err(ConfigError::InvalidRegex(filter.exclude_terms[i].clone()))
        },
        None => Ok(()),
    }
}

/// A configuration that can be used as it stands.
pub open spec fn config_valid(config: Config) -> bool {
    &&& !(config.timeline.targets@.contains(Timeline::Home) && config.instance.token is None)
    &&& !(config.logger.discord.enable && config.logger.discord.webhook is None)
    &&& patterns_valid(config.filter)
}

/// A configuration that passes validation is one from which the filters and the
/// loggers can be built.
pub proof fn lemma_valid_config_builds(config: Config)
    requires
        config_valid(config),
    ensures
        patterns_valid(config.filter),
        config.logger.discord.enable ==> config.logger.discord.webhook is Some,
{
}

impl Config {
    /// Prepares a configuration read from its file: each `include_terms` and `exclude_terms`
    /// term is normalized as texts are when matched.
    pub fn load(config: Config) -> (res: Config)
        ensures
            res.instance == config.instance,
            res.timeline == config.timeline,
            res.logger == config.logger,
            res.filter.user_include == config.filter.user_include,
            res.filter.user_exclude == config.filter.user_exclude,
            res.filter.case_sensitive == config.filter.case_sensitive,
            res.filter.use_regex == config.filter.use_regex,
            res.filter.include_terms@.len() == config.filter.include_terms@.len(),
            res.filter.exclude_terms@.len() == config.filter.exclude_terms@.len(),
            forall|i: int|
                0 <= i < config.filter.include_terms@.len() ==> #[trigger] res.filter.include_terms@[i]@
                    == normalized(config.filter.include_terms@[i]@, config.filter.case_sensitive),
            forall|i: int|
                0 <= i < config.filter.exclude_terms@.len() ==> #[trigger] res.filter.exclude_terms@[i]@
                    == normalized(config.filter.exclude_terms@[i]@, config.filter.case_sensitive),
    {
        let mut config = config;
        let included = normalize_all(&config.filter.include_terms, config.filter.case_sensitive);
        let excluded = normalize_all(&config.filter.exclude_terms, config.filter.case_sensitive);
        config.filter.include_terms = included;
        config.filter.exclude_terms = excluded;
        config
    }

    /// Checks a configuration before use.  In this order: a watched home timeline
    /// needs an access token; an enabled Discord logger needs a webhook; regular
    /// expressions, when in use, must compile.
    pub fn validate(&self) -> (res: Result<(), ConfigError>)
        ensures
            res is Ok <==> config_valid(*self),
            res == Err::<(), ConfigError>(ConfigError::TokenMissing) <==> self.timeline.targets@.contains(
                Timeline::Home,
            ) && self.instance.token is None,
            res == Err::<(), ConfigError>(ConfigError::WebhookMissing) <==> !(
            self.timeline.targets@.contains(Timeline::Home) && self.instance.token is None)
                && self.logger.discord.enable && self.logger.discord.webhook is None,
            res matches Err(ConfigError::InvalidRegex(p)) ==> !(self.timeline.targets@.contains(
                Timeline::Home,
            ) && self.instance.token is None) && !(self.logger.discord.enable
                && self.logger.discord.webhook is None) && self.filter.use_regex && (if all_valid(
                self.filter.include_terms@,
            ) {
                reports_first_invalid(self.filter.exclude_terms@, ConfigError::InvalidRegex(p))
            } else {
                reports_first_invalid(self.filter.include_terms@, ConfigError::InvalidRegex(p))
            }),
    {
        if self.timeline.has(Timeline::Home) && self.instance.token.is_none() {
            return Err(ConfigError::TokenMissing);
        }
        if self.logger.discord.enable && self.logger.discord.webhook.is_none() {
            return Err(ConfigError::WebhookMissing);
        }
        check_patterns(&self.filter)
    }
}

/// The home stream deduplicates when, and only when, the local or the public
/// timeline is watched too; no other stream ever does.
pub proof fn lemma_dedup_only_home_beside_others(targets: Seq<Timeline>, timeline: Timeline)
    ensures
        timeline != Timeline::Home ==> !dedup_applies(targets, timeline),
        dedup_applies(targets.push(Timeline::Local), Timeline::Home),
        dedup_applies(targets.push(Timeline::Public), Timeline::Home),
        dedup_applies(targets, Timeline::Home) ==> exists|i: int|
            0 <= i < targets.len() && (#[trigger] targets[i] == Timeline::Local || targets[i]
                == Timeline::Public),
        (exists|i: int| 0 <= i < targets.len() && #[trigger] targets[i] == Timeline::Public)
            ==> dedup_applies(targets, Timeline::Home),
{
    assert(targets.push(Timeline::Local)[targets.len() as int] == Timeline::Local);
    assert(targets.push(Timeline::Public)[targets.len() as int] == Timeline::Public);
}

} // verus!
