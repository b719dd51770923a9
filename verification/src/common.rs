//! Request-level data model: search options, result records and errors.

use vstd::prelude::*;

use crate::highlight::Snippet;

verus! {

/// Max length of title and/or title snippet (in characters).
pub const MAX_TITLE_LENGTH: usize = 32;

/// Max length of body snippet (in characters).
pub const MAX_BODY_LENGTH: usize = 256;

/// Max length of code snippet (in characters).
pub const MAX_CODE_LENGTH: usize = 256;

/// Max count of key hints.
pub const MAX_KEY_HINTS_COUNT: usize = 8;

/// Max count of top articles.
pub const TOP_ARTICLE_INFOS_COUNT: usize = 10;

/// Address of a document within one index snapshot: a segment and a
/// document id local to it.  Never meaningful across snapshots.
#[derive(Clone, Copy, Debug, PartialEq, Eq, Structural)]
pub struct UdiabDocAddress {
    pub segment_ord: u32,
    pub doc_id: u32,
}

/// The search result is sorted by ...
#[derive(Clone, Copy, Debug, PartialEq, Eq, Structural)]
pub enum SearchSortBy {
    Time,
    Hot,
    Relevance,
}

impl SearchSortBy {
    /// Parse the request discriminant: `"0"` is `Time`, `"1"` is `Hot`,
    /// `"2"` is `Relevance`; anything else is a validation error.
    pub fn try_from(discriminant: &str) -> (r: Result<SearchSortBy, String>)
        ensures
            discriminant@.len() == 1 && discriminant@[0] == '0' ==> r == Ok::<SearchSortBy, String>(
                SearchSortBy::Time,
            ),
            discriminant@.len() == 1 && discriminant@[0] == '1' ==> r == Ok::<SearchSortBy, String>(
                SearchSortBy::Hot,
            ),
            discriminant@.len() == 1 && discriminant@[0] == '2' ==> r == Ok::<SearchSortBy, String>(
                SearchSortBy::Relevance,
            ),
            r is Err <==> !(discriminant@.len() == 1 && (discriminant@[0] == '0'
                || discriminant@[0] == '1' || discriminant@[0] == '2')),
    {
        if discriminant.unicode_len() == 1 {
            let code = discriminant.get_char(0);
            if code == '0' {
                return Ok(SearchSortBy::Time);
            }
            if code == '1' {
                return Ok(SearchSortBy::Hot);
            }
            if code == '2' {
                return Ok(SearchSortBy::Relevance);
            }
        }
        Err(String::from_str("Unknown discriminant for SearchSortBy: ").concat(discriminant).concat("."))
    }
}

/// Search field.
#[derive(Clone, Copy, Debug, PartialEq, Eq, Structural)]
pub enum SearchField {
    /// Only search title.
    Title,
    /// Only search code.
    Code,
    /// Search all fields: title, body, code.
    All,
}

impl SearchField {
    /// Parse the request discriminant: `"0"` is `Title`, `"1"` is `Code`,
    /// `"2"` is `All`; anything else is a validation error.
    pub fn try_from(discriminant: &str) -> (r: Result<SearchField, String>)
        ensures
            discriminant@.len() == 1 && discriminant@[0] == '0' ==> r == Ok::<SearchField, String>(
                SearchField::Title,
            ),
            discriminant@.len() == 1 && discriminant@[0] == '1' ==> r == Ok::<SearchField, String>(
                SearchField::Code,
            ),
            discriminant@.len() == 1 && discriminant@[0] == '2' ==> r == Ok::<SearchField, String>(
                SearchField::All,
            ),
            r is Err <==> !(discriminant@.len() == 1 && (discriminant@[0] == '0'
                || discriminant@[0] == '1' || discriminant@[0] == '2')),
    {
        if discriminant.unicode_len() == 1 {
            let code = discriminant.get_char(0);
            if code == '0' {
                return Ok(SearchField::Title);
            }
            if code == '1' {
                return Ok(SearchField::Code);
            }
            if code == '2' {
                return Ok(SearchField::All);
            }
        }
        Err(String::from_str("Unknown discriminant for SearchField: ").concat(discriminant).concat("."))
    }

    /// The collaborator field handles this field set selects.
    pub fn tantivy_fields(&self, project_document: crate::base::ProjectDocument) -> (fields: Vec<
        tantivy::schema::Field,
    >)
        ensures
            self is Title ==> fields@ =~= seq![project_document.title],
            self is Code ==> fields@ =~= seq![project_document.code],
            self is All ==> fields@ =~= seq![
                project_document.title,
                project_document.body,
                project_document.code,
            ],
    {
        match self {
            SearchField::Title => vec![project_document.title],
            SearchField::Code => vec![project_document.code],
            SearchField::All => vec![
                project_document.title,
                project_document.body,
                project_document.code,
            ],
        }
    }
}

/// Search method.
#[derive(Clone, Copy, Debug, PartialEq, Eq, Structural)]
pub enum SearchMethod {
    /// Naive search method.
    Naive,
    /// Complex search method.
    Complex,
    /// Regex search method.
    Regex,
}

impl SearchMethod {
    /// Parse the request discriminant: `"0"` is `Naive`, `"1"` is
    /// `Complex`, `"2"` is `Regex`; anything else is a validation error.
    pub fn try_from(discriminant: &str) -> (r: Result<SearchMethod, String>)
        ensures
            discriminant@.len() == 1 && discriminant@[0] == '0' ==> r == Ok::<SearchMethod, String>(
                SearchMethod::Naive,
            ),
            discriminant@.len() == 1 && discriminant@[0] == '1' ==> r == Ok::<SearchMethod, String>(
                SearchMethod::Complex,
            ),
            discriminant@.len() == 1 && discriminant@[0] == '2' ==> r == Ok::<SearchMethod, String>(
                SearchMethod::Regex,
            ),
            r is Err <==> !(discriminant@.len() == 1 && (discriminant@[0] == '0'
                || discriminant@[0] == '1' || discriminant@[0] == '2')),
    {
        if discriminant.unicode_len() == 1 {
            let code = discriminant.get_char(0);
            if code == '0' {
                return Ok(SearchMethod::Naive);
            }
            if code == '1' {
                return Ok(SearchMethod::Complex);
            }
            if code == '2' {
                return Ok(SearchMethod::Regex);
            }
        }
        Err(String::from_str("Unknown discriminant for SearchMethod: ").concat(discriminant).concat("."))
    }

    /// Only the complex method uses the delegated query grammar; the
    /// others take the token-contiguous simple construction.
    pub fn uses_parsed_grammar(&self) -> (r: bool)
        ensures
            r <==> self is Complex,
    {
        match self {
            SearchMethod::Complex => true,
            _ => false,
        }
    }
}

/// Options of an advanced search request.
#[derive(Clone, Copy, Debug)]
pub struct AdvanceSearchOptions {
    pub sort_by: SearchSortBy,
    pub search_field: SearchField,
    pub use_complex_search: bool,
}

/// Article structure used for searching.
#[derive(Clone, Debug)]
pub struct SearchedArticleInfo {
    /// URL of article.
    pub url: String,
    /// Snippet of title.
    ///
    /// If only other components are matched, and title has no snippet,
    /// this field is the whole title.
    pub title_snippet: Snippet,
    /// Snippet of body.
    pub body_snippet: Snippet,
    /// Snippet of code.
    ///
    /// If no code is matched, this field is None.
    pub code_snippet: Option<Snippet>,
    /// Number of likes.
    ///
    /// Used for hot scoring.
    pub likes: u64,
    /// Time of this article, in milliseconds in UTC.
    pub time: i64,
    /// Doc address.
    pub address: UdiabDocAddress,
}

/// Article structure used for today's top.
#[derive(Clone, Debug)]
pub struct TopArticleInfo {
    /// URL of article.
    pub url: String,
    /// Title of article.
    pub title: String,
    /// Number of likes.
    pub likes: u64,
}

/// Article structure used for more like this query.
#[derive(Clone, Debug)]
pub struct MoreLikeThisArticleInfo {
    /// URL of article.
    pub url: String,
    /// Title of article.
    pub title: String,
    /// Body of article.
    pub body: String,
    /// Number of likes.
    pub likes: u64,
    /// Time of this article, in milliseconds in UTC.
    pub time: i64,
}

/// Errors which will be sent to user.
#[derive(Debug)]
pub enum UserError {
    /// Any failure the index collaborator signalled, carried opaquely.
    UnexpectedTantivy { tantivy_error: tantivy::TantivyError },
    /// An internal invariant was broken: a mandatory stored field or a
    /// registered tokenizer is missing.
    Unexpected(String),
}

impl UserError {
    /// A readable message for the surrounding service to present.
    pub fn message(&self) -> String {
        match self {
            UserError::UnexpectedTantivy { tantivy_error } => crate::collab::error_text(
                tantivy_error,
            ),
            UserError::Unexpected(text) => String::from_str("Unexpected error: ").concat(
                text.as_str(),
            ),
        }
    }
}

} // verus!
