//! Which received statuses are kept.
use crate::config::{patterns_valid, FilterConfig};
use crate::normalize::normalized;
use crate::pattern::first_invalid;
use crate::status::Status;
use crate::text::views;
use vstd::prelude::*;

pub mod author;
pub mod normal;
pub mod reblog;
pub mod regex;

pub use author::AuthorFilter;
pub use normal::NormalFilter;
pub use reblog::ReblogFilter;
pub use self::regex::RegexFilter;

verus! {

/// The verdict of a filter on a status.
pub enum FilterResult {
    /// The status is kept.
    Pass,
    /// The status is left out, for the reason given.
    Block(String),
}

impl View for FilterResult {
    /// `None` when the status is kept, else the reason why it is not.
    type V = Option<Seq<char>>;

    open spec fn view(&self) -> Option<Seq<char>> {
        match self {
            FilterResult::Pass => None,
            FilterResult::Block(reason) => Some(reason@),
        }
    }
}

impl FilterResult {
    pub fn passed(&self) -> (res: bool)
        ensures
            res == (self@ is None),
    {
        match self {
            FilterResult::Pass => true,
            FilterResult::Block(_) => false,
        }
    }

    pub fn blocked(&self) -> (res: bool)
        ensures
            res == (self@ is Some),
    {
        match self {
            FilterResult::Pass => false,
            FilterResult::Block(_) => true,
        }
    }
}

pub open spec fn reason_repeat() -> Seq<char> {
    "The status is a repeat"@
}

pub open spec fn reason_author_not_included() -> Seq<char> {
    "The author is not in user_include"@
}

pub open spec fn reason_author_excluded() -> Seq<char> {
    "The author is in user_exclude"@
}

pub open spec fn reason_no_wanted_term() -> Seq<char> {
    "The status does not contain include"@
}

pub open spec fn reason_unwanted_term() -> Seq<char> {
    "The status contains exclude"@
}

/// The verdict of a term or pattern filter: with a non-empty wanted list, a status
/// that hits none of it is blocked; otherwise a status that hits an unwanted entry is.
pub open spec fn term_verdict(wanted_empty: bool, wanted_hit: bool, unwanted_hit: bool) -> Option<
    Seq<char>,
> {
    if !wanted_empty && !wanted_hit {
        Some(reason_no_wanted_term())
    } else if unwanted_hit {
        Some(reason_unwanted_term())
    } else {
        None
    }
}

/// All the filters of a configuration, applied in turn.
pub struct Filters {
    reblog: ReblogFilter,
    author: Option<AuthorFilter>,
    normal: Option<NormalFilter>,
    regex: Option<RegexFilter>,
}

impl Filters {
    /// The author filter, when the configuration names users.
    pub closed spec fn author_part(&self) -> Option<AuthorFilter> {
        self.author
    }

    /// The plain-term filter, when regular expressions are not in use.
    pub closed spec fn normal_part(&self) -> Option<NormalFilter> {
        self.normal
    }

    /// The regular-expression filter, when regular expressions are in use.
    pub closed spec fn regex_part(&self) -> Option<RegexFilter> {
        self.regex
    }

    /// The verdict on `status`: the first filter that blocks it gives the reason,
    /// in the order repeat, author, terms, patterns.
    pub open spec fn verdict(&self, status: Status) -> Option<Seq<char>> {
        if ReblogFilter::verdict(status) is Some {
            ReblogFilter::verdict(status)
        } else if self.author_part() is Some && self.author_part()->0.verdict(status) is Some {
            self.author_part()->0.verdict(status)
        } else if self.normal_part() is Some && self.normal_part()->0.verdict(status) is Some {
            self.normal_part()->0.verdict(status)
        } else if self.regex_part() is Some && self.regex_part()->0.verdict(status) is Some {
            self.regex_part()->0.verdict(status)
        } else {
            None
        }
    }

    /// These are the filters that `config` describes: the author filter is there only
    /// when a user list is non-empty; the term filter or the pattern filter, as
    /// `use_regex` says; terms are normalized, patterns kept as they are.
    pub open spec fn built_from(&self, config: FilterConfig) -> bool {
        &&& (self.author_part() is Some <==> config.user_include@.len() > 0
            || config.user_exclude@.len() > 0)
        &&& (self.author_part() matches Some(a) ==> a.include_users() == views(
            config.user_include@,
        ) && a.exclude_users() == views(config.user_exclude@))
        &&& (self.normal_part() is Some <==> !config.use_regex)
        &&& (self.regex_part() is Some <==> config.use_regex)
        &&& (self.normal_part() matches Some(n) ==> {
            &&& n.is_case_sensitive() == config.case_sensitive
            &&& n.wanted().len() == config.include_terms@.len()
            &&& n.unwanted().len() == config.exclude_terms@.len()
            &&& forall|i: int|
                0 <= i < config.include_terms@.len() ==> #[trigger] n.wanted()[i] == normalized(
                    config.include_terms@[i]@,
                    config.case_sensitive,
                )
            &&& forall|i: int|
                0 <= i < config.exclude_terms@.len() ==> #[trigger] n.unwanted()[i] == normalized(
                    config.exclude_terms@[i]@,
                    config.case_sensitive,
                )
        })
        &&& (self.regex_part() matches Some(r) ==> r.wanted() == config.include_terms@
            && r.unwanted() == config.exclude_terms@ && r.is_case_sensitive()
            == config.case_sensitive)
    }

    /// The filters that `config` describes.  The author filter is there only when a
    /// user list is non-empty; the term filter or the pattern filter, as `use_regex` says.
    pub fn new(config: FilterConfig) -> (res: Self)
        requires
            patterns_valid(config),
        ensures
            res.built_from(config),
    {
        let reblog = ReblogFilter::new();
        let author = if config.user_include.len() > 0 || config.user_exclude.len() > 0 {
            Some(AuthorFilter::new(config.user_include, config.user_exclude))
        } else {
            None
        };
        if config.use_regex {
            let regex = RegexFilter::new(
                config.include_terms,
                config.exclude_terms,
                config.case_sensitive,
            );
            Filters { reblog, author, normal: None, regex: Some(regex) }
        } else {
            let normal = NormalFilter::new(
                config.include_terms.as_slice(),
                config.exclude_terms.as_slice(),
                config.case_sensitive,
            );
            Filters { reblog, author, normal: Some(normal), regex: None }
        }
    }

    /// The filters that `config` describes, or `None` when it uses regular
    /// expressions of which one does not compile.
    pub fn try_new(config: FilterConfig) -> (res: Option<Self>)
        ensures
            res is Some <==> patterns_valid(config),
            res matches Some(f) ==> f.built_from(config),
    {
        if config.use_regex && !(first_invalid(&config.include_terms).is_none()
            && first_invalid(&config.exclude_terms).is_none()) {
            return None;
        }
        Some(Filters::new(config))
    }

    /// Applies the filters in turn; the first that blocks `status` gives the reason.
    pub fn filter(&self, status: &Status) -> (res: FilterResult)
        ensures
            res@ == self.verdict(*status),
    {
        let r = self.reblog.filter(status);
        if r.blocked() {
            return r;
        }
        match &self.author {
            Some(author) => {
                let a = author.filter(status);
                if a.blocked() {
                    return a;
                }
            },
            None => {},
        }
        match &self.normal {
            Some(normal) => {
                let n = normal.filter(status);
                if n.blocked() {
                    return n;
                }
            },
            None => {},
        }
        match &self.regex {
            Some(regex) => match regex.filter(status) {
                Ok(()) => {},
                Err(reason) => {
                    return FilterResult::Block(reason);
                },
            },
            None => {},
        }
        FilterResult::Pass
    }
}

/// A status is kept exactly when every filter in use keeps it.
pub proof fn lemma_kept_iff_every_filter_keeps(filters: Filters, status: Status)
    ensures
        filters.verdict(status) is None <==> {
            &&& ReblogFilter::verdict(status) is None
            &&& (filters.author_part() matches Some(a) ==> a.verdict(status) is None)
            &&& (filters.normal_part() matches Some(n) ==> n.verdict(status) is None)
            &&& (filters.regex_part() matches Some(r) ==> r.verdict(status) is None)
        },
{
}

/// The reason for which a status is left out is one of the filters' reasons.
pub proof fn lemma_block_reasons(filters: Filters, status: Status)
    ensures
        filters.verdict(status) matches Some(reason) ==> {
            ||| reason == reason_repeat()
            ||| reason == reason_author_not_included()
            ||| reason == reason_author_excluded()
            ||| reason == reason_no_wanted_term()
            ||| reason == reason_unwanted_term()
        },
{
}

/// With neither user lists nor terms, only repeats are left out.
pub proof fn lemma_empty_config_keeps_all_but_repeats(
    config: FilterConfig,
    filters: Filters,
    status: Status,
)
    requires
        filters.built_from(config),
        config.user_include@.len() == 0,
        config.user_exclude@.len() == 0,
        config.include_terms@.len() == 0,
        config.exclude_terms@.len() == 0,
    ensures
        filters.verdict(status) == ReblogFilter::verdict(status),
{
}

/// Two statuses by the same author, equally repeats or quotes, whose contents have
/// the same normalized forms, get the same verdict.
pub proof fn lemma_verdict_follows_normalized_content(filters: Filters, a: Status, b: Status)
    requires
        a.account.acct@ == b.account.acct@,
        (a.reblog is Some) == (b.reblog is Some),
        a.quote == b.quote,
        normalized(a.content@, true) == normalized(b.content@, true),
        normalized(a.content@, false) == normalized(b.content@, false),
    ensures
        filters.verdict(a) == filters.verdict(b),
{
    if let Some(n) = filters.normal_part() {
        assert(normalized(a.content@, n.is_case_sensitive()) == normalized(
            b.content@,
            n.is_case_sensitive(),
        ));
    }
    if let Some(r) = filters.regex_part() {
        assert(normalized(a.content@, r.is_case_sensitive()) == normalized(
            b.content@,
            r.is_case_sensitive(),
        ));
    }
}

/// Built from a configuration with a non-empty `user_include` list, the filters
/// leave out every status that is not a repeat and whose author is not on it.
pub proof fn lemma_user_include_alone_blocks_others(
    config: FilterConfig,
    filters: Filters,
    status: Status,
)
    requires
        filters.built_from(config),
        config.user_include@.len() > 0,
        forall|i: int|
            0 <= i < config.user_include@.len() ==> #[trigger] config.user_include@[i]@
                != status.account.acct@,
        status.reblog is None,
    ensures
        filters.verdict(status) == Some("The author is not in user_include"@),
{
    let a = filters.author_part()->0;
    assert(!a.include_users().contains(status.account.acct@)) by {
        if a.include_users().contains(status.account.acct@) {
            let k = choose|k: int| 0 <= k < a.include_users().len() && a.include_users()[k] == status.account.acct@;
            assert(views(config.user_include@)[k] == config.user_include@[k]@);
        }
    }
}

/// Built from a configuration whose `user_exclude` list names the author, the
/// filters leave out the status, whatever the other lists hold.
pub proof fn lemma_user_exclude_blocks(config: FilterConfig, filters: Filters, status: Status, i: int)
    requires
        filters.built_from(config),
        0 <= i < config.user_exclude@.len(),
        config.user_exclude@[i]@ == status.account.acct@,
    ensures
        filters.verdict(status) is Some,
{
    let a = filters.author_part()->0;
    assert(views(config.user_exclude@)[i] == config.user_exclude@[i]@);
    assert(a.exclude_users().contains(status.account.acct@));
}

} // verus!
