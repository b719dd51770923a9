//! Requests the surrounding service hands to the model.

use vstd::prelude::*;

use crate::common::AdvanceSearchOptions;
use crate::common::UdiabDocAddress;

verus! {

/// Ask for key hints on a (partial) key.
pub struct KeyHintsRequest {
    pub key: String,
}

/// Ask for a page of ranked, highlighted results.
pub struct RetrievedInfoRequest {
    pub key: String,
    pub advanced_search_options: AdvanceSearchOptions,
    pub offset: usize,
    pub page_size: usize,
}

/// Ask for articles similar to the one at a prior address.
pub struct MoreLikeThisRequest {
    pub address: UdiabDocAddress,
    pub offset: usize,
    pub page_size: usize,
}

} // verus!
