//! Keeps or leaves out statuses by their author.
use super::{reason_author_excluded, reason_author_not_included, FilterResult};
use crate::status::Status;
use crate::text::{list_contains, views};
use vstd::prelude::*;

verus! {

/// Blocks statuses by author: authors outside a non-empty `user_include` list,
/// and authors on the `user_exclude` list.
pub struct AuthorFilter {
    include_users: Vec<String>,
    exclude_users: Vec<String>,
}

/// The verdict of an author filter with these lists on the author `acct`.
pub open spec fn author_verdict(
    include_users: Seq<Seq<char>>,
    exclude_users: Seq<Seq<char>>,
    acct: Seq<char>,
) -> Option<Seq<char>> {
    if include_users.len() > 0 && !include_users.contains(acct) {
        Some(reason_author_not_included())
    } else if exclude_users.contains(acct) {
        Some(reason_author_excluded())
    } else {
        None
    }
}

impl AuthorFilter {
    /// The authors of which a kept status must have one (none: all are kept).
    pub closed spec fn include_users(&self) -> Seq<Seq<char>> {
        views(self.include_users@)
    }

    /// The authors whose statuses are blocked.
    pub closed spec fn exclude_users(&self) -> Seq<Seq<char>> {
        views(self.exclude_users@)
    }

    /// The verdict of this filter on `status`.
    pub open spec fn verdict(&self, status: Status) -> Option<Seq<char>> {
        author_verdict(self.include_users(), self.exclude_users(), status.account.acct@)
    }

    pub fn new(include_users: Vec<String>, exclude_users: Vec<String>) -> (res: Self)
        ensures
            res.include_users() == views(include_users@),
            res.exclude_users() == views(exclude_users@),
    {
        AuthorFilter { include_users, exclude_users }
    }

    pub fn filter(&self, status: &Status) -> (res: FilterResult)
        ensures
            res@ == self.verdict(*status),
    {
        let acct = status.account.acct.as_str();
        if self.include_users.len() > 0 && !list_contains(&self.include_users, acct) {
            return FilterResult::Block("The author is not in user_include".to_owned());
        }
        if list_contains(&self.exclude_users, acct) {
            return FilterResult::Block("The author is in user_exclude".to_owned());
        }
        FilterResult::Pass
    }
}

/// A status passes the author filter exactly when its author is on the
/// `user_include` list or that list is empty, and is not on the `user_exclude` list.
pub proof fn lemma_author_kept_iff(filter: AuthorFilter, status: Status)
    ensures
        filter.verdict(status) is None <==> (filter.include_users().len() == 0
            || filter.include_users().contains(status.account.acct@))
            && !filter.exclude_users().contains(status.account.acct@),
{
}

/// An author on the `user_exclude` list is left out even when also on `user_include`.
pub proof fn lemma_author_exclusion_wins(filter: AuthorFilter, status: Status)
    requires
        filter.exclude_users().contains(status.account.acct@),
    ensures
        filter.verdict(status) is Some,
{
}

} // verus!
