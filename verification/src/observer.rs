//! What becomes of each status that a watched timeline delivers.
use crate::config::{dedup_applies, Timeline};
use crate::filter::{FilterResult, Filters};
use crate::status::{Status, StatusVisibility};
use vstd::prelude::*;

verus! {

/// What becomes of a delivered status.
pub enum Disposition {
    /// Left out because public statuses reach the local or public timeline anyway.
    Duplicate,
    /// Left out by a filter, for the reason given.
    Blocked(String),
    /// Written to the loggers.
    Kept,
}

/// `res` is what becomes of `status` with these filters, when deduplication is `dedup`.
pub open spec fn disposes(filters: Filters, status: Status, dedup: bool, res: Disposition) -> bool {
    if dedup && status.visibility == StatusVisibility::Public {
        res is Duplicate
    } else {
        match filters.verdict(status) {
            Some(reason) => res matches Disposition::Blocked(r) && r@ == reason,
            None => res is Kept,
        }
    }
}

/// Decides what becomes of `status`: with deduplication, public statuses are
/// left out; the others go through the filters, and those that pass are kept.
pub fn dispose(filters: &Filters, status: &Status, dedup: bool) -> (res: Disposition)
    ensures
        disposes(*filters, *status, dedup, res),
{
    if dedup && status.visibility == StatusVisibility::Public {
        return Disposition::Duplicate;
    }
    match filters.filter(status) {
        FilterResult::Block(reason) => Disposition::Blocked(reason),
        FilterResult::Pass => Disposition::Kept,
    }
}

/// Without deduplication, a status is kept exactly when the filters keep it.
pub proof fn lemma_kept_iff_filters_pass(filters: Filters, status: Status, res: Disposition)
    requires
        disposes(filters, status, false, res),
    ensures
        res is Kept <==> filters.verdict(status) is None,
{
}

/// With deduplication, a public status is never kept, whatever the filters say.
pub proof fn lemma_public_statuses_deduplicated(filters: Filters, status: Status, res: Disposition)
    requires
        disposes(filters, status, true, res),
        status.visibility == StatusVisibility::Public,
    ensures
        res is Duplicate,
{
}

/// On the local and public streams no status is left out as a duplicate: a status
/// is kept there exactly when the filters keep it, public or not.
pub proof fn lemma_other_streams_keep_what_filters_keep(
    targets: Seq<Timeline>,
    timeline: Timeline,
    filters: Filters,
    status: Status,
    res: Disposition,
)
    requires
        timeline != Timeline::Home,
        disposes(filters, status, dedup_applies(targets, timeline), res),
    ensures
        res is Kept <==> filters.verdict(status) is None,
{
}

/// Deduplication only ever leaves out public statuses: any other status is kept
/// exactly when the filters keep it, whatever `dedup` is.
pub proof fn lemma_only_public_statuses_deduplicated(
    filters: Filters,
    status: Status,
    dedup: bool,
    res: Disposition,
)
    requires
        status.visibility != StatusVisibility::Public,
        disposes(filters, status, dedup, res),
    ensures
        res is Kept <==> filters.verdict(status) is None,
        !(res is Duplicate),
{
}

/// Without deduplication nothing is left out as a duplicate.
pub proof fn lemma_no_duplicates_without_dedup(filters: Filters, status: Status, res: Disposition)
    requires
        disposes(filters, status, false, res),
    ensures
        !(res is Duplicate),
{
}

} // verus!
