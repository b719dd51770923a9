//! Model for UDIAB project: the operations of the read path.
//!
//! Each operation takes its own snapshot of the index, builds a query,
//! has the collaborator execute it, and assembles the results with the
//! verified ranking and snippet rules.

use vstd::prelude::*;

use crate::base::ProjectDocument;
use crate::collab::Snapshot;
use crate::collab::addresses_in_snapshot;
use crate::collab::doc_text_field;
use crate::collab::doc_time_millis_field;
use crate::collab::doc_time_seconds_field;
use crate::collab::doc_u64_field;
use crate::collab::fetch_doc;
use crate::collab::get_tokenizer;
use crate::collab::make_snippet_generator;
use crate::collab::now_seconds;
use crate::collab::parse_user_query;
use crate::collab::render_snippet;
use crate::collab::search_more_like_this;
use crate::collab::search_top_by_field;
use crate::collab::search_top_relevance;
use crate::collab::search_window_top_by_field;
use crate::collab::searcher_of;
use crate::collab::segment_count;
use crate::collab::set_snippet_max_chars;
use crate::collab::snapshot_segments;
use crate::collab::subqueries_to_query;
use crate::collab::tokenize;
use crate::common::AdvanceSearchOptions;
use crate::common::MAX_BODY_LENGTH;
use crate::common::MAX_CODE_LENGTH;
use crate::common::MAX_KEY_HINTS_COUNT;
use crate::common::MAX_TITLE_LENGTH;
use crate::common::MoreLikeThisArticleInfo;
use crate::common::SearchField;
use crate::common::SearchSortBy;
use crate::common::SearchedArticleInfo;
use crate::common::TOP_ARTICLE_INFOS_COUNT;
use crate::common::TopArticleInfo;
use crate::common::UdiabDocAddress;
use crate::common::UserError;
use crate::highlight::Snippet;
use crate::highlight::code_snippet_option;
use crate::highlight::rendered_snippet;
use crate::highlight::snippet_inv;
use crate::highlight::title_snippet_choice;
use crate::query::Subquery;
use crate::query::subqueries_wf;
use crate::query::subquery_field;
use crate::query::subquery_for_field;
use crate::query::subquery_wf;
use crate::rank::lemma_ordered_nonincreasing;
use crate::rank::lemma_page_ordered;
use crate::rank::lemma_ranked_sort_contains;
use crate::rank::likes_nonincreasing;
use crate::rank::paginate;
use crate::rank::rank_articles;
use crate::rank::ranked_ordered;
use crate::rank::times_nonincreasing;
use crate::top::TopArticleCandidate;
use crate::top::WINDOW_SECONDS;
use crate::top::candidate_info;
use crate::top::info_of_candidate;
use crate::top::lemma_ordered_likes_nonincreasing;
use crate::top::select_top_window;

verus! {

/// Name under which the segmenting analyzer for title and body text is
/// registered with the collaborator.
pub const SEGMENTING_TOKENIZER: &'static str = "CANG_JIE";

/// Name under which the near-verbatim analyzer for code text is
/// registered with the collaborator.
pub const LITERAL_TOKENIZER: &'static str = "default";

/// Model for UDIAB project.
pub struct UdiabModel {
    /// Index reader; a snapshot is leased from it per operation.
    pub reader: tantivy::IndexReader,
    /// Field handles for each field in the schema, kept so that no
    /// lookup needs a string comparison.
    pub project_document: ProjectDocument,
}

/// What holds of every assembled article record: the snippets carry
/// merged, in-bounds highlight spans; each fragment keeps to its
/// character limit; and an absent code snippet stands for an empty
/// rendered code fragment, never the other way round.
pub open spec fn article_wf(info: SearchedArticleInfo) -> bool {
    &&& snippet_inv(info.title_snippet)
    &&& info.title_snippet.fragments@.len() <= MAX_TITLE_LENGTH
    &&& snippet_inv(info.body_snippet)
    &&& info.body_snippet.fragments@.len() <= MAX_BODY_LENGTH
    &&& info.code_snippet matches Some(code) ==> snippet_inv(code) && 0 < code.fragments@.len()
        <= MAX_CODE_LENGTH
}

/// Convert a document address into a full article record: fetch the
/// stored document, render and merge the three snippets, apply the title
/// fallback and the code omission rules, and read the stored fields.
fn article_from_address(
    searcher: &Snapshot,
    project_document: &ProjectDocument,
    title_snippet_generator: &tantivy::SnippetGenerator,
    body_snippet_generator: &tantivy::SnippetGenerator,
    code_snippet_generator: &tantivy::SnippetGenerator,
    segment_ord: u32,
    doc_id: u32,
) -> (r: Result<SearchedArticleInfo, UserError>)
    requires
        segment_ord < snapshot_segments(searcher),
    ensures
        r matches Ok(info) ==> article_wf(info) && info.address == (UdiabDocAddress {
            segment_ord,
            doc_id,
        }),
{
    let doc = match fetch_doc(searcher, segment_ord, doc_id) {
        Ok(doc) => doc,
        Err(tantivy_error) => {
            return Err(UserError::UnexpectedTantivy { tantivy_error });
        },
    };
    let (title_fragments, title_spans) = render_snippet(title_snippet_generator, &doc);
    // The fallback triggers exactly when the rendered fragment is empty.
    let title_snippet = match title_snippet_choice(
        title_fragments,
        title_spans,
        doc_text_field(&doc, project_document.title),
    ) {
        Ok(snippet) => snippet,
        Err(error) => {
            return Err(error);
        },
    };
    // An unmatched body keeps its empty fragment: no fallback to the raw body.
    let (body_fragments, body_spans) = render_snippet(body_snippet_generator, &doc);
    let body_snippet = rendered_snippet(body_fragments, body_spans, MAX_BODY_LENGTH);
    let (code_fragments, code_spans) = render_snippet(code_snippet_generator, &doc);
    let code_snippet = code_snippet_option(code_fragments, code_spans, MAX_CODE_LENGTH);
    let url = match doc_text_field(&doc, project_document.url) {
        Some(url) => url,
        None => {
            return Err(UserError::Unexpected(String::from_str("Can't find url field")));
        },
    };
    let likes = match doc_u64_field(&doc, project_document.likes) {
        Some(likes) => likes,
        None => {
            return Err(UserError::Unexpected(String::from_str("Can't find likes field")));
        },
    };
    let time = match doc_time_millis_field(&doc, project_document.time) {
        Some(time) => time,
        None => {
            return Err(UserError::Unexpected(String::from_str("Can't find time field")));
        },
    };
    Ok(
        SearchedArticleInfo {
            url,
            title_snippet,
            body_snippet,
            code_snippet,
            likes,
            time,
            address: UdiabDocAddress { segment_ord, doc_id },
        },
    )
}

/// Tokenize the key with the field's analyzer and add what the field
/// contributes: nothing without tokens, an exact term for one token, a
/// phrase for more.
fn push_contribution(
    subqueries: &mut Vec<Subquery>,
    field: tantivy::schema::Field,
    analyzer: &tantivy::tokenizer::TextAnalyzer,
    key: &str,
)
    ensures
        subqueries_wf(old(subqueries)@) ==> subqueries_wf(final(subqueries)@),
        final(subqueries)@ == old(subqueries)@ || (final(subqueries)@.len() == old(
            subqueries,
        )@.len() + 1 && final(subqueries)@.subrange(0, old(subqueries)@.len() as int) == old(
            subqueries,
        )@ && subquery_wf(final(subqueries)@.last()) && subquery_field(final(subqueries)@.last())
            == field),
{
    let tokens = tokenize(analyzer, key);
    match subquery_for_field(field, &tokens) {
        Some(subquery) => {
            assert(subquery_wf(subquery));
            assert(subquery_field(subquery) == field);
            subqueries.push(subquery);
            proof {
                assert(final(subqueries)@.subrange(0, old(subqueries)@.len() as int) =~= old(
                    subqueries,
                )@);
                assert(final(subqueries)@.last() == subquery);
            }
            assert forall|i: int|
                0 <= i < final(subqueries)@.len() && subqueries_wf(
                    old(subqueries)@,
                ) implies subquery_wf(#[trigger] final(subqueries)@[i]) by {
                if i < old(subqueries)@.len() {
                    assert(final(subqueries)@[i] == old(subqueries)@[i]);
                }
            }
        },
        None => {},
    }
}

impl UdiabModel {
    /// Get key hints.
    ///
    /// For now, we just start a query for title field.
    ///
    /// The returned snippets count will not exceed `MAX_KEY_HINTS_COUNT`;
    /// every snippet's highlighted positions are merged and within its
    /// fragment, and every fragment keeps to the title's character limit.
    pub fn get_key_hints(&self, key: String) -> (r: Result<Vec<Snippet>, UserError>)
        ensures
            r matches Ok(hints) ==> hints@.len() <= MAX_KEY_HINTS_COUNT && (forall|i: int|
                0 <= i < hints@.len() ==> snippet_inv(#[trigger] hints@[i])
                    && hints@[i].fragments@.len() <= MAX_TITLE_LENGTH),
    {
        let searcher = searcher_of(&self.reader);
        let fields = vec![self.project_document.title];
        let query = match parse_user_query(&searcher, &fields, key.as_str()) {
            Ok(query) => query,
            Err(tantivy_error) => {
                return Err(UserError::UnexpectedTantivy { tantivy_error });
            },
        };
        let mut snippet_generator = match make_snippet_generator(
            &searcher,
            &query,
            self.project_document.title,
        ) {
            Ok(generator) => generator,
            Err(tantivy_error) => {
                return Err(UserError::UnexpectedTantivy { tantivy_error });
            },
        };
        set_snippet_max_chars(&mut snippet_generator, MAX_TITLE_LENGTH);
        let addresses = match search_top_relevance(&searcher, &query, MAX_KEY_HINTS_COUNT, 0) {
            Ok(addresses) => addresses,
            Err(tantivy_error) => {
                return Err(UserError::UnexpectedTantivy { tantivy_error });
            },
        };
        let mut hints: Vec<Snippet> = Vec::new();
        let n = addresses.len();
        let mut i: usize = 0;
        while i < n
            invariant
                n == addresses@.len(),
                n <= MAX_KEY_HINTS_COUNT,
                0 <= i <= n,
                addresses_in_snapshot(addresses@, &searcher),
                hints@.len() == i,
                forall|k: int| 0 <= k < i ==> snippet_inv(#[trigger] hints@[k])
                    && hints@[k].fragments@.len() <= MAX_TITLE_LENGTH,
            decreases n - i,
        {
            let (segment_ord, doc_id) = addresses[i];
            assert(addresses@[i as int].0 < snapshot_segments(&searcher));
            let doc = match fetch_doc(&searcher, segment_ord, doc_id) {
                Ok(doc) => doc,
                Err(tantivy_error) => {
                    return Err(UserError::UnexpectedTantivy { tantivy_error });
                },
            };
            let (fragments, spans) = render_snippet(&snippet_generator, &doc);
            hints.push(rendered_snippet(fragments, spans, MAX_TITLE_LENGTH));
            i = i + 1;
        }
        Ok(hints)
    }

    /// Get searched article info: build the query in the requested mode,
    /// rank under the requested ordering, and assemble the page at
    /// `offset` of at most `page_size` records.
    ///
    /// Under `Time` and `Hot` the returned records themselves never let
    /// the sort value rise; relevance order is the collaborator's own.
    pub fn get_retrieved_info(
        &self,
        key: String,
        advanced_search_options: AdvanceSearchOptions,
        offset: usize,
        page_size: usize,
    ) -> (r: Result<Vec<SearchedArticleInfo>, UserError>)
        ensures
            r matches Ok(infos) ==> {
                &&& infos@.len() <= page_size
                &&& forall|i: int| 0 <= i < infos@.len() ==> article_wf(#[trigger] infos@[i])
                &&& !(advanced_search_options.sort_by is Relevance) ==> ranked_ordered(
                    advanced_search_options.sort_by,
                    infos@,
                )
                &&& advanced_search_options.sort_by is Time ==> times_nonincreasing(infos@)
                &&& advanced_search_options.sort_by is Hot ==> likes_nonincreasing(infos@)
            },
    {
        let project_document = self.project_document;
        let searcher = searcher_of(&self.reader);
        let searched_fields = advanced_search_options.search_field.tantivy_fields(
            project_document,
        );
        let query = if advanced_search_options.use_complex_search {
            // The delegated grammar, with no lenient correction: a
            // malformed expression surfaces the parse failure.
            match parse_user_query(&searcher, &searched_fields, key.as_str()) {
                Ok(query) => query,
                Err(tantivy_error) => {
                    return Err(UserError::UnexpectedTantivy { tantivy_error });
                },
            }
        } else {
            // Token-contiguous simple mode, built from the fields' own
            // token streams and combined by logical OR.
            let segmenting = match get_tokenizer(&searcher, SEGMENTING_TOKENIZER) {
                Some(analyzer) => analyzer,
                None => {
                    return Err(
                        UserError::Unexpected(
                            String::from_str("Unable to find CANG JIE tokenizer"),
                        ),
                    );
                },
            };
            let literal = match get_tokenizer(&searcher, LITERAL_TOKENIZER) {
                Some(analyzer) => analyzer,
                None => {
                    return Err(
                        UserError::Unexpected(
                            String::from_str("Unable to find default tokenizer"),
                        ),
                    );
                },
            };
            let mut subqueries: Vec<Subquery> = Vec::new();
            match advanced_search_options.search_field {
                SearchField::Title => {
                    push_contribution(
                        &mut subqueries,
                        project_document.title,
                        &segmenting,
                        key.as_str(),
                    );
                },
                SearchField::Code => {
                    push_contribution(
                        &mut subqueries,
                        project_document.code,
                        &literal,
                        key.as_str(),
                    );
                },
                SearchField::All => {
                    push_contribution(
                        &mut subqueries,
                        project_document.title,
                        &segmenting,
                        key.as_str(),
                    );
                    push_contribution(
                        &mut subqueries,
                        project_document.body,
                        &segmenting,
                        key.as_str(),
                    );
                    push_contribution(
                        &mut subqueries,
                        project_document.code,
                        &literal,
                        key.as_str(),
                    );
                },
            }
            subqueries_to_query(&subqueries)
        };
        let mut title_snippet_generator = match make_snippet_generator(
            &searcher,
            &query,
            project_document.title,
        ) {
            Ok(generator) => generator,
            Err(tantivy_error) => {
                return Err(UserError::UnexpectedTantivy { tantivy_error });
            },
        };
        set_snippet_max_chars(&mut title_snippet_generator, MAX_TITLE_LENGTH);
        let mut body_snippet_generator = match make_snippet_generator(
            &searcher,
            &query,
            project_document.body,
        ) {
            Ok(generator) => generator,
            Err(tantivy_error) => {
                return Err(UserError::UnexpectedTantivy { tantivy_error });
            },
        };
        set_snippet_max_chars(&mut body_snippet_generator, MAX_BODY_LENGTH);
        let mut code_snippet_generator = match make_snippet_generator(
            &searcher,
            &query,
            project_document.code,
        ) {
            Ok(generator) => generator,
            Err(tantivy_error) => {
                return Err(UserError::UnexpectedTantivy { tantivy_error });
            },
        };
        set_snippet_max_chars(&mut code_snippet_generator, MAX_CODE_LENGTH);
        match advanced_search_options.sort_by {
            SearchSortBy::Relevance => {
                // The collaborator's native relevance order, with the
                // offset skipped by its collector.
                if page_size == 0 {
                    return Ok(Vec::new());
                }
                let addresses = match search_top_relevance(&searcher, &query, page_size, offset) {
                    Ok(addresses) => addresses,
                    Err(tantivy_error) => {
                        return Err(UserError::UnexpectedTantivy { tantivy_error });
                    },
                };
                let mut infos: Vec<SearchedArticleInfo> = Vec::new();
                let n = addresses.len();
                let mut i: usize = 0;
                while i < n
                    invariant
                        n == addresses@.len(),
                        n <= page_size,
                        0 <= i <= n,
                        addresses_in_snapshot(addresses@, &searcher),
                        infos@.len() == i,
                        forall|k: int| 0 <= k < i ==> article_wf(#[trigger] infos@[k]),
                    decreases n - i,
                {
                    let (segment_ord, doc_id) = addresses[i];
                    assert(addresses@[i as int].0 < snapshot_segments(&searcher));
                    match article_from_address(
                        &searcher,
                        &project_document,
                        &title_snippet_generator,
                        &body_snippet_generator,
                        &code_snippet_generator,
                        segment_ord,
                        doc_id,
                    ) {
                        Ok(info) => infos.push(info),
                        Err(error) => {
                            return Err(error);
                        },
                    }
                    i = i + 1;
                }
                Ok(infos)
            },
            _ => {
                let sort_by = advanced_search_options.sort_by;
                assert(!(sort_by is Relevance));
                let order_field = match sort_by {
                    SearchSortBy::Time => project_document.time,
                    _ => project_document.likes,
                };
                // The collector materializes at most offset + page_size
                // matches; the page is cut after the verified ranking.
                let limit = if offset <= usize::MAX - page_size {
                    offset + page_size
                } else {
                    usize::MAX
                };
                if limit == 0 {
                    return Ok(Vec::new());
                }
                let addresses = match search_top_by_field(&searcher, &query, order_field, limit) {
                    Ok(addresses) => addresses,
                    Err(tantivy_error) => {
                        return Err(UserError::UnexpectedTantivy { tantivy_error });
                    },
                };
                let mut fetched: Vec<SearchedArticleInfo> = Vec::new();
                let n = addresses.len();
                let mut i: usize = 0;
                while i < n
                    invariant
                        n == addresses@.len(),
                        0 <= i <= n,
                        addresses_in_snapshot(addresses@, &searcher),
                        fetched@.len() == i,
                        forall|k: int| 0 <= k < i ==> article_wf(#[trigger] fetched@[k]),
                    decreases n - i,
                {
                    let (segment_ord, doc_id) = addresses[i];
                    assert(addresses@[i as int].0 < snapshot_segments(&searcher));
                    match article_from_address(
                        &searcher,
                        &project_document,
                        &title_snippet_generator,
                        &body_snippet_generator,
                        &code_snippet_generator,
                        segment_ord,
                        doc_id,
                    ) {
                        Ok(info) => fetched.push(info),
                        Err(error) => {
                            return Err(error);
                        },
                    }
                    i = i + 1;
                }
                let ghost fetched_seq = fetched@;
                let ranked = rank_articles(sort_by, fetched);
                let page = paginate(ranked, offset, page_size);
                proof {
                    lemma_page_ordered(sort_by, ranked@, offset as int, page_size as int);
                    lemma_ordered_nonincreasing(sort_by, page@);
                    let sorted = crate::rank::ranked_sort(sort_by, fetched_seq);
                    let lo = if offset <= sorted.len() {
                        offset as int
                    } else {
                        sorted.len() as int
                    };
                    assert forall|k: int| 0 <= k < page@.len() implies article_wf(
                        #[trigger] page@[k],
                    ) by {
                        assert(page@[k] == sorted[lo + k]);
                        assert(sorted.contains(page@[k]));
                        lemma_ranked_sort_contains(sort_by, fetched_seq, page@[k]);
                        let j = choose|j: int|
                            0 <= j < fetched_seq.len() && fetched_seq[j] == page@[k];
                        assert(article_wf(fetched_seq[j]));
                    }
                }
                Ok(page)
            },
        }
    }

    /// Get the top hot articles of the trailing day: every returned
    /// record came from a document whose time the verified selection saw
    /// inside `[now - 24h, now)`, there are at most ten, and their like
    /// counts never rise.
    pub fn get_top_info(&self) -> (r: Result<Vec<TopArticleInfo>, UserError>)
        ensures
            r matches Ok(infos) ==> infos@.len() <= TOP_ARTICLE_INFOS_COUNT && (forall|i: int|
                0 <= i < infos@.len() - 1 ==> (#[trigger] infos@[i]).likes >= infos@[i + 1].likes),
    {
        let project_document = self.project_document;
        let searcher = searcher_of(&self.reader);
        let now = now_seconds();
        let window_start = if now >= i64::MIN + WINDOW_SECONDS {
            now - WINDOW_SECONDS
        } else {
            i64::MIN
        };
        let addresses = match search_window_top_by_field(
            &searcher,
            project_document.time,
            project_document.likes,
            window_start,
            now,
            TOP_ARTICLE_INFOS_COUNT,
        ) {
            Ok(addresses) => addresses,
            Err(tantivy_error) => {
                return Err(UserError::UnexpectedTantivy { tantivy_error });
            },
        };
        let mut candidates: Vec<TopArticleCandidate> = Vec::new();
        let n = addresses.len();
        let mut i: usize = 0;
        while i < n
            invariant
                n == addresses@.len(),
                0 <= i <= n,
                addresses_in_snapshot(addresses@, &searcher),
            decreases n - i,
        {
            let (segment_ord, doc_id) = addresses[i];
            assert(addresses@[i as int].0 < snapshot_segments(&searcher));
            let doc = match fetch_doc(&searcher, segment_ord, doc_id) {
                Ok(doc) => doc,
                Err(tantivy_error) => {
                    return Err(UserError::UnexpectedTantivy { tantivy_error });
                },
            };
            let title = match doc_text_field(&doc, project_document.title) {
                Some(title) => title,
                None => {
                    return Err(UserError::Unexpected(String::from_str("Can't find title field")));
                },
            };
            let url = match doc_text_field(&doc, project_document.url) {
                Some(url) => url,
                None => {
                    return Err(UserError::Unexpected(String::from_str("Can't find url field")));
                },
            };
            let likes = match doc_u64_field(&doc, project_document.likes) {
                Some(likes) => likes,
                None => {
                    return Err(UserError::Unexpected(String::from_str("Can't find likes field")));
                },
            };
            let time = match doc_time_seconds_field(&doc, project_document.time) {
                Some(time) => time,
                None => {
                    return Err(UserError::Unexpected(String::from_str("Can't find time field")));
                },
            };
            candidates.push(
                TopArticleCandidate {
                    url,
                    title,
                    likes,
                    time,
                    address: UdiabDocAddress { segment_ord, doc_id },
                },
            );
            i = i + 1;
        }
        let selected = select_top_window(now, candidates);
        proof {
            lemma_ordered_likes_nonincreasing(selected@);
        }
        let ghost selected_seq = selected@;
        let mut selected = selected;
        let mut infos: Vec<TopArticleInfo> = Vec::new();
        while selected.len() > 0
            invariant
                infos@.len() + selected@.len() == selected_seq.len(),
                selected@ =~= selected_seq.skip(infos@.len() as int),
                forall|k: int| 0 <= k < infos@.len() ==> #[trigger] infos@[k] == info_of_candidate(
                    selected_seq[k],
                ),
            decreases selected@.len(),
        {
            let ghost done = infos@.len() as int;
            let candidate = selected.remove(0);
            proof {
                assert(selected_seq.skip(done)[0] == selected_seq[done]);
                assert(selected_seq.skip(done).remove(0) =~= selected_seq.skip(done + 1));
            }
            infos.push(candidate_info(candidate));
        }
        proof {
            assert(infos@.len() == selected_seq.len());
            assert forall|i: int| 0 <= i < infos@.len() - 1 implies (#[trigger] infos@[i]).likes
                >= infos@[i + 1].likes by {
                assert(infos@[i].likes == selected_seq[i].likes);
                assert(infos@[i + 1].likes == selected_seq[i + 1].likes);
                assert(crate::top::likes_nonincreasing(selected_seq));
            }
        }
        Ok(infos)
    }

    /// Get articles similar to the one at a prior address, fully
    /// delegated to the collaborator's similarity primitive.  An address
    /// naming a segment the snapshot does not have is rejected.
    pub fn get_more_like_this(
        &self,
        address: UdiabDocAddress,
        offset: usize,
        page_size: usize,
    ) -> (r: Result<Vec<MoreLikeThisArticleInfo>, UserError>)
        ensures
            r matches Ok(infos) ==> infos@.len() <= page_size,
            page_size == 0 ==> r is Ok,
    {
        let project_document = self.project_document;
        let searcher = searcher_of(&self.reader);
        if page_size == 0 {
            return Ok(Vec::new());
        }
        let segments = segment_count(&searcher);
        if !((address.segment_ord as usize) < segments) {
            return Err(UserError::Unexpected(String::from_str("Invalid document address")));
        }
        let addresses = match search_more_like_this(
            &searcher,
            address.segment_ord,
            address.doc_id,
            page_size,
            offset,
        ) {
            Ok(addresses) => addresses,
            Err(tantivy_error) => {
                return Err(UserError::UnexpectedTantivy { tantivy_error });
            },
        };
        let mut infos: Vec<MoreLikeThisArticleInfo> = Vec::new();
        let n = addresses.len();
        let mut i: usize = 0;
        while i < n
            invariant
                n == addresses@.len(),
                n <= page_size,
                0 <= i <= n,
                addresses_in_snapshot(addresses@, &searcher),
                infos@.len() == i,
            decreases n - i,
        {
            let (segment_ord, doc_id) = addresses[i];
            assert(addresses@[i as int].0 < snapshot_segments(&searcher));
            let doc = match fetch_doc(&searcher, segment_ord, doc_id) {
                Ok(doc) => doc,
                Err(tantivy_error) => {
                    return Err(UserError::UnexpectedTantivy { tantivy_error });
                },
            };
            let title = match doc_text_field(&doc, project_document.title) {
                Some(title) => title,
                None => {
                    return Err(UserError::Unexpected(String::from_str("Can't find title field")));
                },
            };
            let url = match doc_text_field(&doc, project_document.url) {
                Some(url) => url,
                None => {
                    return Err(UserError::Unexpected(String::from_str("Can't find url field")));
                },
            };
            let body = match doc_text_field(&doc, project_document.body) {
                Some(body) => body,
                None => {
                    return Err(UserError::Unexpected(String::from_str("Can't find body field")));
                },
            };
            let likes = match doc_u64_field(&doc, project_document.likes) {
                Some(likes) => likes,
                None => {
                    return Err(UserError::Unexpected(String::from_str("Can't find likes field")));
                },
            };
            let time = match doc_time_millis_field(&doc, project_document.time) {
                Some(time) => time,
                None => {
                    return Err(UserError::Unexpected(String::from_str("Can't find time field")));
                },
            };
            infos.push(MoreLikeThisArticleInfo { url, title, body, likes, time });
            i = i + 1;
        }
        Ok(infos)
    }
}

} // verus!
