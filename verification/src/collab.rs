//! Trusted boundary to the index collaborator (tantivy) and to the clock.
//!
//! Everything here is taken on trust: the type declarations make the
//! collaborator's values opaque carriers, and each wrapper states, over
//! plain values, what the one call in its body returns, as the
//! collaborator's source shows it.  All logic that reads these results
//! stands outside this module and is verified.

use vstd::prelude::*;

use crate::highlight::Span;
use crate::query::Subquery;
use crate::query::Token;

verus! {

#[verifier::external_type_specification]
#[verifier::external_body]
pub struct ExIndexReader(tantivy::IndexReader);

#[verifier::external_type_specification]
#[verifier::external_body]
pub struct ExSearcher(tantivy::Searcher);

#[verifier::external_type_specification]
#[verifier::external_body]
#[verifier::reject_recursive_types(T)]
pub struct ExLeasedItem<T>(tantivy::LeasedItem<T>);

/// A leased point-in-time snapshot of the index, as the reader pool hands
/// it out.
pub type Snapshot = tantivy::LeasedItem<tantivy::Searcher>;

#[verifier::external_type_specification]
#[verifier::external_body]
pub struct ExField(tantivy::schema::Field);

#[verifier::external_type_specification]
#[verifier::external_body]
pub struct ExTantivyError(tantivy::TantivyError);

#[verifier::external_type_specification]
#[verifier::external_body]
pub struct ExBooleanQuery(tantivy::query::BooleanQuery);

#[verifier::external_type_specification]
#[verifier::external_body]
pub struct ExSnippetGenerator(tantivy::SnippetGenerator);

#[verifier::external_type_specification]
#[verifier::external_body]
pub struct ExDocument(tantivy::Document);

#[verifier::external_type_specification]
#[verifier::external_body]
pub struct ExTextAnalyzer(tantivy::tokenizer::TextAnalyzer);

/// Number of segments a snapshot holds; `(segment, doc)` addresses are
/// only meaningful below this count.
pub uninterp spec fn snapshot_segments(searcher: &Snapshot) -> nat;

/// All addresses name a segment the snapshot has.
pub open spec fn addresses_in_snapshot(addrs: Seq<(u32, u32)>, searcher: &Snapshot) -> bool {
    forall|i: int| 0 <= i < addrs.len() ==> (#[trigger] addrs[i]).0 < snapshot_segments(searcher)
}

/// Relies on `tantivy::schema::Field: Clone` copying the field handle;
/// the derived clones of the query model call it.
pub assume_specification[ <tantivy::schema::Field as Clone>::clone ](
    field: &tantivy::schema::Field,
) -> (r: tantivy::schema::Field)
    ensures
        r == *field,
;

/// Relies on `IndexReader::searcher`: a point-in-time snapshot of the index.
#[verifier::external_body]
pub fn searcher_of(reader: &tantivy::IndexReader) -> (searcher: Snapshot) {
    reader.searcher()
}

/// Relies on `Searcher::segment_readers`: the snapshot's segment list.
#[verifier::external_body]
pub fn segment_count(searcher: &Snapshot) -> (n: usize)
    ensures
        n == snapshot_segments(searcher),
{
    searcher.segment_readers().len()
}

/// Relies on `Index::tokenizers` and `TokenizerManager::get`: the analyzer
/// registered under `name`, or `None` when none is.
#[verifier::external_body]
pub fn get_tokenizer(searcher: &Snapshot, name: &str) -> (t: Option<
    tantivy::tokenizer::TextAnalyzer,
>) {
    searcher.index().tokenizers().get(name)
}

/// Relies on `TextAnalyzer::token_stream`: the analyzer's ordered token
/// stream for `text`, each token with its position.
#[verifier::external_body]
pub fn tokenize(analyzer: &tantivy::tokenizer::TextAnalyzer, text: &str) -> (tokens: Vec<Token>) {
    let mut tokens = Vec::new();
    let mut stream = analyzer.token_stream(text);
    stream.process(&mut |token| {
        tokens.push(Token { position: token.position, text: token.text.clone() });
    });
    tokens
}

/// Relies on `QueryParser::for_index` and `QueryParser::parse_query`: the
/// delegated boolean mini-language over the given default fields, with no
/// lenient correction; `Err` exactly on a malformed expression.  The
/// parsed query is carried as a one-clause `BooleanQuery::union`, which
/// matches and scores as the clause itself does.
#[verifier::external_body]
pub fn parse_user_query(
    searcher: &Snapshot,
    fields: &Vec<tantivy::schema::Field>,
    text: &str,
) -> (r: Result<tantivy::query::BooleanQuery, tantivy::TantivyError>) {
    let parser = tantivy::query::QueryParser::for_index(searcher.index(), fields.clone());
    let parsed = parser.parse_query(text).map_err(tantivy::TantivyError::from)?;
    Ok(tantivy::query::BooleanQuery::union(vec![parsed]))
}

/// Relies on `BooleanQuery::union`, `TermQuery::new` and
/// `PhraseQuery::new_with_offset`: a document matches the union exactly
/// when some subquery matches; a phrase query wants two or more terms of
/// one field, which `subqueries_wf` guarantees.
#[verifier::external_body]
pub fn subqueries_to_query(subqueries: &Vec<Subquery>) -> (q: tantivy::query::BooleanQuery)
    requires
        crate::query::subqueries_wf(subqueries@),
{
    let parts = subqueries
        .iter()
        .map(|sub| match sub {
            Subquery::Term { field, text } => Box::new(tantivy::query::TermQuery::new(
                tantivy::Term::from_field_text(*field, text),
                tantivy::schema::IndexRecordOption::WithFreqs,
            )) as Box<dyn tantivy::query::Query>,
            Subquery::Phrase { field, terms } => Box::new(
                tantivy::query::PhraseQuery::new_with_offset(
                    terms.iter().map(|(p, t)| (*p, tantivy::Term::from_field_text(*field, t))).collect(),
                ),
            ) as Box<dyn tantivy::query::Query>,
        })
        .collect();
    tantivy::query::BooleanQuery::union(parts)
}

/// Relies on `SnippetGenerator::create`: a highlighter for `field` bound
/// to the query's terms in this snapshot.
#[verifier::external_body]
pub fn make_snippet_generator(
    searcher: &Snapshot,
    query: &tantivy::query::BooleanQuery,
    field: tantivy::schema::Field,
) -> (r: Result<tantivy::SnippetGenerator, tantivy::TantivyError>) {
    tantivy::SnippetGenerator::create(searcher, query, field)
}

/// Relies on `SnippetGenerator::set_max_num_chars`: bounds the fragment
/// the generator renders.
#[verifier::external_body]
pub fn set_snippet_max_chars(generator: &mut tantivy::SnippetGenerator, max_chars: usize) {
    generator.set_max_num_chars(max_chars);
}

/// Relies on `SnippetGenerator::snippet_from_doc`: a best-effort fragment
/// of the document's field value, with the matched byte ranges.  The
/// ranges are ascending, non-overlapping and within the fragment, as the
/// generator emits them in token order and tantivy's own rendering of
/// them assumes; this takes the field's analyzer to emit ascending,
/// non-overlapping token offsets, which every analyzer this system
/// registers does.  The fragment is empty when nothing matched the
/// field.  No length bound is stated: the generator aims for its
/// configured maximum but a single matched token longer than it escapes
/// the bound, so the callers cut the fragment themselves.
#[verifier::external_body]
pub fn render_snippet(
    generator: &tantivy::SnippetGenerator,
    doc: &tantivy::Document,
) -> (r: (String, Vec<Span>))
    ensures
        crate::highlight::appearance_ordered(r.1@),
        crate::highlight::spans_within(r.1@, crate::highlight::byte_len(r.0@)),
{
    let snippet = generator.snippet_from_doc(doc);
    let spans = snippet.highlighted().iter().map(|r| Span { start: r.start, end: r.end }).collect();
    (snippet.fragments().to_string(), spans)
}

/// Relies on `Searcher::search` with `TopDocs::with_limit` and
/// `and_offset`: at most `limit` addresses of matching documents, ranked
/// by the collaborator's native relevance score, the first `offset`
/// matches skipped.  `TopDocs::with_limit` panics on a zero limit.
#[verifier::external_body]
pub fn search_top_relevance(
    searcher: &Snapshot,
    query: &tantivy::query::BooleanQuery,
    limit: usize,
    offset: usize,
) -> (r: Result<Vec<(u32, u32)>, tantivy::TantivyError>)
    requires
        limit >= 1,
    ensures
        r matches Ok(addrs) ==> addrs@.len() <= limit && addresses_in_snapshot(addrs@, searcher),
{
    let collector = tantivy::collector::TopDocs::with_limit(limit).and_offset(offset);
    let hits = searcher.search(query, &collector)?;
    Ok(hits.into_iter().map(|(_, a)| (a.segment_ord, a.doc_id)).collect())
}

/// Relies on `Searcher::search` with `TopDocs::order_by_u64_field`: at
/// most `limit` addresses of matching documents, the greatest values of
/// the fast field `order_field` first.  `TopDocs::with_limit` panics on a
/// zero limit.
#[verifier::external_body]
pub fn search_top_by_field(
    searcher: &Snapshot,
    query: &tantivy::query::BooleanQuery,
    order_field: tantivy::schema::Field,
    limit: usize,
) -> (r: Result<Vec<(u32, u32)>, tantivy::TantivyError>)
    requires
        limit >= 1,
    ensures
        r matches Ok(addrs) ==> addrs@.len() <= limit && addresses_in_snapshot(addrs@, searcher),
{
    let collector = tantivy::collector::TopDocs::with_limit(limit).order_by_u64_field(order_field);
    let hits = searcher.search(query, &collector)?;
    Ok(hits.into_iter().map(|(_, a)| (a.segment_ord, a.doc_id)).collect())
}

/// Relies on `RangeQuery::new_term_bounds` over date terms (a date term
/// holds its timestamp in seconds, as `Term::from_field_date` writes it)
/// and `Searcher::search` with `TopDocs::order_by_u64_field`: at most
/// `limit` addresses of documents whose `time_field` value lies in
/// `[window_start, window_end)`, the most-liked first.
/// `TopDocs::with_limit` panics on a zero limit.
#[verifier::external_body]
pub fn search_window_top_by_field(
    searcher: &Snapshot,
    time_field: tantivy::schema::Field,
    order_field: tantivy::schema::Field,
    window_start: i64,
    window_end: i64,
    limit: usize,
) -> (r: Result<Vec<(u32, u32)>, tantivy::TantivyError>)
    requires
        limit >= 1,
    ensures
        r matches Ok(addrs) ==> addrs@.len() <= limit && addresses_in_snapshot(addrs@, searcher),
{
    let in_window = tantivy::query::RangeQuery::new_term_bounds(
        time_field,
        tantivy::schema::Type::Date,
        &std::ops::Bound::Included(tantivy::Term::from_field_i64(time_field, window_start)),
        &std::ops::Bound::Excluded(tantivy::Term::from_field_i64(time_field, window_end)),
    );
    let collector = tantivy::collector::TopDocs::with_limit(limit).order_by_u64_field(order_field);
    let hits = searcher.search(&in_window, &collector)?;
    Ok(hits.into_iter().map(|(_, a)| (a.segment_ord, a.doc_id)).collect())
}

/// Relies on `MoreLikeThisQuery` and `Searcher::search` with `TopDocs`:
/// at most `limit` addresses of documents similar to the one at the given
/// address, the first `offset` skipped.  The similarity query reads the
/// target document through `Searcher::doc`, which indexes the segment
/// list, so the segment must be the snapshot's.
#[verifier::external_body]
pub fn search_more_like_this(
    searcher: &Snapshot,
    segment_ord: u32,
    doc_id: u32,
    limit: usize,
    offset: usize,
) -> (r: Result<Vec<(u32, u32)>, tantivy::TantivyError>)
    requires
        limit >= 1,
        segment_ord < snapshot_segments(searcher),
    ensures
        r matches Ok(addrs) ==> addrs@.len() <= limit && addresses_in_snapshot(addrs@, searcher),
{
    let query = tantivy::query::MoreLikeThisQuery::builder()
        .with_document(tantivy::DocAddress { segment_ord, doc_id });
    let collector = tantivy::collector::TopDocs::with_limit(limit).and_offset(offset);
    let hits = searcher.search(&query, &collector)?;
    Ok(hits.into_iter().map(|(_, a)| (a.segment_ord, a.doc_id)).collect())
}

/// Relies on `Searcher::doc`: the stored form of the document at the
/// address; `Searcher::doc` indexes the segment list, so the segment must
/// be the snapshot's.
#[verifier::external_body]
pub fn fetch_doc(searcher: &Snapshot, segment_ord: u32, doc_id: u32) -> (r: Result<
    tantivy::Document,
    tantivy::TantivyError,
>)
    requires
        segment_ord < snapshot_segments(searcher),
{
    searcher.doc(tantivy::DocAddress { segment_ord, doc_id })
}

/// Relies on `Document::get_first` and `Value::text`: the document's
/// first stored text value of `field`, or `None` when it has none.
#[verifier::external_body]
pub fn doc_text_field(doc: &tantivy::Document, field: tantivy::schema::Field) -> (r: Option<
    String,
>) {
    doc.get_first(field).and_then(|value| value.text()).map(String::from)
}

/// Relies on `Document::get_first` and `Value::u64_value`: the document's
/// first stored numeric value of `field`, or `None` when it has none.
#[verifier::external_body]
pub fn doc_u64_field(doc: &tantivy::Document, field: tantivy::schema::Field) -> (r: Option<u64>) {
    doc.get_first(field).and_then(|value| value.u64_value())
}

/// Relies on `Document::get_first`, `Value::date_value` and chrono's
/// `DateTime::timestamp_millis`: the document's first stored timestamp of
/// `field` in UTC milliseconds, or `None` when it has none.  Chrono's
/// bounded date range keeps the milliseconds well inside `i64`, so the
/// conversion cannot overflow.
#[verifier::external_body]
pub fn doc_time_millis_field(doc: &tantivy::Document, field: tantivy::schema::Field) -> (r: Option<
    i64,
>) {
    doc.get_first(field).and_then(|value| value.date_value()).map(|date| date.timestamp_millis())
}

/// Relies on `Document::get_first`, `Value::date_value` and chrono's
/// `DateTime::timestamp`: the same stored timestamp in whole UTC seconds.
#[verifier::external_body]
pub fn doc_time_seconds_field(
    doc: &tantivy::Document,
    field: tantivy::schema::Field,
) -> (r: Option<i64>) {
    doc.get_first(field).and_then(|value| value.date_value()).map(|date| date.timestamp())
}

/// Relies on chrono's `Utc::now` and `DateTime::timestamp`: the wall
/// clock, in whole UTC seconds.  Nothing is promised of its value.
#[verifier::external_body]
pub fn now_seconds() -> (now: i64) {
    tantivy::chrono::Utc::now().timestamp()
}

/// Relies on `TantivyError`'s `Display` impl: a readable rendering of a
/// collaborator failure.
#[verifier::external_body]
pub fn error_text(error: &tantivy::TantivyError) -> (r: String) {
    format!("{}", error)
}

} // verus!
