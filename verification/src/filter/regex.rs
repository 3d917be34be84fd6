//! Keeps or leaves out statuses by the regular expressions that their text matches.
use super::term_verdict;
use crate::normalize::{normalize, normalized};
use crate::pattern::{all_valid, any_matches, any_pattern_matches, first_invalid, regex_matches};
use crate::status::Status;
use vstd::prelude::*;

verus! {

/// Blocks statuses by regular expressions matched on normalized texts: statuses
/// that match none of a non-empty list of wanted patterns, and statuses that match
/// an unwanted pattern.  Every pattern is a valid regular expression.
pub struct RegexFilter {
    wanted: Vec<String>,
    unwanted: Vec<String>,
    case_sensitive: bool,
}

impl RegexFilter {
    #[verifier::type_invariant]
    spec fn patterns_compile(self) -> bool {
        all_valid(self.wanted@) && all_valid(self.unwanted@)
    }

    /// The patterns of which a kept status must match one (none: all are kept).
    pub closed spec fn wanted(&self) -> Seq<String> {
        self.wanted@
    }

    /// The patterns that a kept status does not match.
    pub closed spec fn unwanted(&self) -> Seq<String> {
        self.unwanted@
    }

    pub closed spec fn is_case_sensitive(&self) -> bool {
        self.case_sensitive
    }

    /// The verdict of this filter on `status`.
    pub open spec fn verdict(&self, status: Status) -> Option<Seq<char>> {
        let text = normalized(status.content@, self.is_case_sensitive());
        term_verdict(
            self.wanted().len() == 0,
            any_matches(self.wanted(), text),
            any_matches(self.unwanted(), text),
        )
    }

    /// A filter on the patterns `wanted` and `unwanted`, which must all be valid.
    pub fn new(wanted: Vec<String>, unwanted: Vec<String>, case_sensitive: bool) -> (res: Self)
        requires
            all_valid(wanted@),
            all_valid(unwanted@),
        ensures
            res.wanted() == wanted@,
            res.unwanted() == unwanted@,
            res.is_case_sensitive() == case_sensitive,
    {
        RegexFilter { wanted, unwanted, case_sensitive }
    }

    /// A filter on the patterns `wanted` and `unwanted`, or `None` when one of them
    /// is not a valid regular expression.
    pub fn try_new(wanted: Vec<String>, unwanted: Vec<String>, case_sensitive: bool) -> (res: Option<
        Self,
    >)
        ensures
            res is Some <==> all_valid(wanted@) && all_valid(unwanted@),
            res matches Some(f) ==> f.wanted() == wanted@ && f.unwanted() == unwanted@
                && f.is_case_sensitive() == case_sensitive,
    {
        if first_invalid(&wanted).is_some() || first_invalid(&unwanted).is_some() {
            return None;
        }
        Some(RegexFilter::new(wanted, unwanted, case_sensitive))
    }

    /// `Ok(())` when the status is kept, else the reason why it is not.
    pub fn filter(&self, status: &Status) -> (res: Result<(), String>)
        ensures
            res matches Ok(_) ==> self.verdict(*status) is None,
            res matches Err(reason) ==> self.verdict(*status) == Some(reason@),
    {
        proof {
            use_type_invariant(self);
        }
        let content = normalize(status.content.as_str(), self.case_sensitive);
        if self.wanted.len() > 0 && !any_pattern_matches(&self.wanted, content.as_str()) {
            return Err("The status does not contain include".to_owned());
        }
        if any_pattern_matches(&self.unwanted, content.as_str()) {
            return Err("The status contains exclude".to_owned());
        }
        Ok(())
    }
}

/// With no patterns at all, every status passes.
pub proof fn lemma_no_patterns_keep_all(filter: RegexFilter, status: Status)
    requires
        filter.wanted().len() == 0,
        filter.unwanted().len() == 0,
    ensures
        filter.verdict(status) is None,
{
}

/// A status whose normalized text matches an unwanted pattern is left out.
pub proof fn lemma_unwanted_pattern_wins(filter: RegexFilter, status: Status)
    requires
        any_matches(filter.unwanted(), normalized(status.content@, filter.is_case_sensitive())),
    ensures
        filter.verdict(status) is Some,
{
}

/// Statuses whose contents normalize alike get the same verdict.
pub proof fn lemma_pattern_verdict_follows_normalized_text(filter: RegexFilter, a: Status, b: Status)
    requires
        normalized(a.content@, filter.is_case_sensitive()) == normalized(
            b.content@,
            filter.is_case_sensitive(),
        ),
    ensures
        filter.verdict(a) == filter.verdict(b),
{
}

/// A status whose normalized text matches any one of the wanted patterns, at
/// whatever position in the list, and none of the unwanted ones, is kept.
pub proof fn lemma_any_wanted_pattern_keeps(filter: RegexFilter, status: Status, i: int)
    requires
        0 <= i < filter.wanted().len(),
        regex_matches(
            filter.wanted()[i]@,
            normalized(status.content@, filter.is_case_sensitive()),
        ),
        forall|j: int|
            0 <= j < filter.unwanted().len() ==> !regex_matches(
                #[trigger] filter.unwanted()[j]@,
                normalized(status.content@, filter.is_case_sensitive()),
            ),
    ensures
        filter.verdict(status) is None,
{
    assert(any_matches(filter.wanted(), normalized(status.content@, filter.is_case_sensitive())));
}

/// A status whose normalized text matches none of a non-empty list of wanted
/// patterns is left out for that reason.
pub proof fn lemma_no_wanted_pattern_blocks(filter: RegexFilter, status: Status)
    requires
        filter.wanted().len() > 0,
        forall|j: int|
            0 <= j < filter.wanted().len() ==> !regex_matches(
                #[trigger] filter.wanted()[j]@,
                normalized(status.content@, filter.is_case_sensitive()),
            ),
    ensures
        filter.verdict(status) == Some("The status does not contain include"@),
{
}

} // verus!
