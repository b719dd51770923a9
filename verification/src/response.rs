//! Responses the model's results are wrapped in, with the time a request
//! took.

use vstd::prelude::*;

use crate::common::MoreLikeThisArticleInfo;
use crate::common::SearchedArticleInfo;
use crate::common::TopArticleInfo;
use crate::highlight::Snippet;

verus! {

pub struct KeyHintsResponse {
    pub key_hints: Vec<Snippet>,
    /// In milli-seconds.
    pub duration: u128,
}

pub struct RetrievedInfoResponse {
    pub article_infos: Vec<SearchedArticleInfo>,
    /// In milli-seconds.
    pub duration: u128,
}

pub struct TopArticleInfoResponse {
    pub top_article_infos: Vec<TopArticleInfo>,
    /// In milli-seconds.
    pub duration: u128,
}

pub struct MoreLikeThisResponse {
    pub more_like_this_article_infos: Vec<MoreLikeThisArticleInfo>,
    /// In milli-seconds.
    pub duration: u128,
}

} // verus!
