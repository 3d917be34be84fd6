//! Leaves out repeats of other statuses.
use super::{reason_repeat, FilterResult};
use crate::status::Status;
use vstd::prelude::*;

verus! {

/// Blocks repeats (reblogs) that do not quote.
pub struct ReblogFilter {}

impl ReblogFilter {
    /// The verdict on `status`: a repeat that is not a quote is blocked.
    pub open spec fn verdict(status: Status) -> Option<Seq<char>> {
        if status.reblog is Some && !status.quote {
            Some(reason_repeat())
        } else {
            None
        }
    }

    pub fn new() -> (res: Self) {
        ReblogFilter {  }
    }

    pub fn filter(&self, status: &Status) -> (res: FilterResult)
        ensures
            res@ == Self::verdict(*status),
    {
        if status.reblog.is_some() && !status.quote {
            return FilterResult::Block("The status is a repeat".to_owned());
        }
        FilterResult::Pass
    }
}

/// Original statuses and quotes are kept; repeats that do not quote are left out.
pub proof fn lemma_only_plain_repeats_blocked(status: Status)
    ensures
        ReblogFilter::verdict(status) is None <==> (status.reblog is None || status.quote),
{
}

} // verus!
