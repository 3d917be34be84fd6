//! Keeps or leaves out statuses by the terms that their text contains.
use super::{term_verdict, FilterResult};
use crate::normalize::{normalize, normalize_all, normalized};
use crate::status::Status;
use crate::text::{any_occurs, any_term_occurs, views};
use vstd::prelude::*;

verus! {

/// Blocks statuses by plain terms, compared on normalized texts: statuses that
/// contain none of a non-empty list of wanted terms, and statuses that contain an
/// unwanted term.
pub struct NormalFilter {
    wanted: Vec<String>,
    unwanted: Vec<String>,
    case_sensitive: bool,
}

impl NormalFilter {
    /// The normalized terms of which a kept status must contain one (none: all are kept).
    pub closed spec fn wanted(&self) -> Seq<Seq<char>> {
        views(self.wanted@)
    }

    /// The normalized terms that a kept status does not contain.
    pub closed spec fn unwanted(&self) -> Seq<Seq<char>> {
        views(self.unwanted@)
    }

    pub closed spec fn is_case_sensitive(&self) -> bool {
        self.case_sensitive
    }

    /// The verdict of this filter on `status`.
    pub open spec fn verdict(&self, status: Status) -> Option<Seq<char>> {
        let text = normalized(status.content@, self.is_case_sensitive());
        term_verdict(
            self.wanted().len() == 0,
            any_occurs(self.wanted(), text),
            any_occurs(self.unwanted(), text),
        )
    }

    /// A filter on the terms `wanted` and `unwanted`, which are normalized here.
    pub fn new(wanted: &[String], unwanted: &[String], case_sensitive: bool) -> (res: Self)
        ensures
            res.is_case_sensitive() == case_sensitive,
            res.wanted().len() == wanted@.len(),
            res.unwanted().len() == unwanted@.len(),
            forall|i: int|
                0 <= i < wanted@.len() ==> #[trigger] res.wanted()[i] == normalized(
                    wanted@[i]@,
                    case_sensitive,
                ),
            forall|i: int|
                0 <= i < unwanted@.len() ==> #[trigger] res.unwanted()[i] == normalized(
                    unwanted@[i]@,
                    case_sensitive,
                ),
    {
        let w = slice_to_vec(wanted);
        let u = slice_to_vec(unwanted);
        let w = normalize_all(&w, case_sensitive);
        let u = normalize_all(&u, case_sensitive);
        let res = NormalFilter { wanted: w, unwanted: u, case_sensitive };
        assert(res.wanted().len() == wanted@.len());
        assert(res.unwanted().len() == unwanted@.len());
        res
    }

    pub fn filter(&self, status: &Status) -> (res: FilterResult)
        ensures
            res@ == self.verdict(*status),
    {
        let content = normalize(status.content.as_str(), self.case_sensitive);
        if self.wanted.len() > 0 && !any_term_occurs(&self.wanted, content.as_str()) {
            return FilterResult::Block("The status does not contain include".to_owned());
        }
        if any_term_occurs(&self.unwanted, content.as_str()) {
            return FilterResult::Block("The status contains exclude".to_owned());
        }
        FilterResult::Pass
    }
}

/// A copy of the strings of `s`.
fn slice_to_vec(s: &[String]) -> (res: Vec<String>)
    ensures
        res@.len() == s@.len(),
        forall|k: int| 0 <= k < s@.len() ==> #[trigger] res@[k]@ == s@[k]@,
{
    let mut res: Vec<String> = Vec::new();
    let n = s.len();
    for i in 0..n
        invariant
            n == s@.len(),
            res@.len() == i,
            forall|k: int| 0 <= k < i ==> #[trigger] res@[k]@ == s@[k]@,
    {
        res.push(s[i].clone());
    }
    res
}

/// With no terms at all, every status passes.
pub proof fn lemma_no_terms_keep_all(filter: NormalFilter, status: Status)
    requires
        filter.wanted().len() == 0,
        filter.unwanted().len() == 0,
    ensures
        filter.verdict(status) is None,
{
}

/// A status whose normalized text contains an unwanted term is left out, whatever
/// wanted terms it contains.
pub proof fn lemma_unwanted_term_wins(filter: NormalFilter, status: Status, i: int)
    requires
        0 <= i < filter.unwanted().len(),
        crate::text::contains_seq(
            normalized(status.content@, filter.is_case_sensitive()),
            filter.unwanted()[i],
        ),
    ensures
        filter.verdict(status) is Some,
{
}

/// A status whose normalized text contains a wanted term and no unwanted term passes.
pub proof fn lemma_wanted_term_keeps(filter: NormalFilter, status: Status, i: int)
    requires
        0 <= i < filter.wanted().len(),
        crate::text::contains_seq(
            normalized(status.content@, filter.is_case_sensitive()),
            filter.wanted()[i],
        ),
        !any_occurs(filter.unwanted(), normalized(status.content@, filter.is_case_sensitive())),
    ensures
        filter.verdict(status) is None,
{
}

/// Two statuses whose contents have the same normalized form get the same verdict.
pub proof fn lemma_verdict_follows_normalized_text(filter: NormalFilter, a: Status, b: Status)
    requires
        normalized(a.content@, filter.is_case_sensitive()) == normalized(
            b.content@,
            filter.is_case_sensitive(),
        ),
    ensures
        filter.verdict(a) == filter.verdict(b),
{
}

} // verus!
