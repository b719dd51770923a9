use std::sync::Arc;

use cang_jie::{CangJieTokenizer, TokenizerOption, CANG_JIE};
use jieba_rs::Jieba;
use tantivy::chrono::{TimeZone, Utc};
use tantivy::schema::{
    IndexRecordOption, Schema, TextFieldIndexing, TextOptions, FAST, INDEXED, STORED,
};
use tantivy::tokenizer::SimpleTokenizer;
use tantivy::Index;

use udiab_search::base::ProjectDocument;
use udiab_search::common::{AdvanceSearchOptions, SearchField, SearchSortBy, UdiabDocAddress};
use udiab_search::model::UdiabModel;

fn schema() -> (Schema, ProjectDocument) {
    let mut schema_builder = Schema::builder();
    let title = schema_builder.add_text_field(
        "title",
        TextOptions::default().set_stored().set_indexing_options(
            TextFieldIndexing::default()
                .set_tokenizer(CANG_JIE)
                .set_index_option(IndexRecordOption::WithFreqsAndPositions),
        ),
    );
    let body = schema_builder.add_text_field(
        "body",
        TextOptions::default().set_stored().set_indexing_options(
            TextFieldIndexing::default()
                .set_tokenizer(CANG_JIE)
                .set_index_option(IndexRecordOption::WithFreqsAndPositions),
        ),
    );
    let code = schema_builder.add_text_field(
        "code",
        TextOptions::default().set_stored().set_indexing_options(
            TextFieldIndexing::default()
                .set_tokenizer("naivetokenizer")
                .set_index_option(IndexRecordOption::WithFreqsAndPositions),
        ),
    );
    let url = schema_builder.add_text_field("url", TextOptions::default().set_stored());
    let time = schema_builder.add_date_field("time", INDEXED | STORED | FAST);
    let likes = schema_builder.add_u64_field("likes", FAST | STORED);
    let project_document = ProjectDocument {
        title,
        body,
        code,
        url,
        time,
        likes,
    };
    (schema_builder.build(), project_document)
}

fn index_with_documents(
    documents: &[(&str, &str, &str, &str, u64, i64)],
) -> (Index, ProjectDocument) {
    let (schema, project_document) = schema();
    let index = Index::create_in_ram(schema);
    index.tokenizers().register(
        CANG_JIE,
        CangJieTokenizer {
            worker: Arc::new(Jieba::new()),
            option: TokenizerOption::Unicode,
        },
    );
    index.tokenizers().register("naivetokenizer", SimpleTokenizer);
    let mut index_writer = index.writer(100_000_000).unwrap();
    for (url, title, body, code, likes, time_seconds) in documents {
        let mut doc = tantivy::Document::default();
        doc.add_text(project_document.url, url);
        doc.add_text(project_document.title, title);
        doc.add_text(project_document.body, body);
        doc.add_text(project_document.code, code);
        doc.add_u64(project_document.likes, *likes);
        doc.add_date(
            project_document.time,
            &Utc.timestamp_opt(*time_seconds, 0).unwrap(),
        );
        index_writer.add_document(doc);
    }
    index_writer.commit().unwrap();
    (index, project_document)
}

/// Three articles whose titles all contain the query term; url1 likes 5,
/// url2 likes 9, url3 likes 1; times newest-first url1, url2, url3.
fn create_data(manipulator: impl FnOnce(UdiabModel)) {
    let documents = [
        ("url1", "标题一二", "正文一", "fn one() {}", 5, 30_000),
        ("url2", "标题一二三四", "正文二", "fn two() {}", 9, 20_000),
        ("url3", "标题", "正文三", "fn three() {}", 1, 10_000),
    ];
    let (index, project_document) = index_with_documents(&documents);
    let udiab_model = UdiabModel {
        reader: index.reader().unwrap(),
        project_document,
    };
    manipulator(udiab_model);
}

#[test]
fn test_get_retrieved_info_by_relevance() {
    create_data(|udiab_model| {
        let got = udiab_model.get_retrieved_info(
            "标题".to_string(),
            AdvanceSearchOptions {
                search_field: SearchField::All,
                sort_by: SearchSortBy::Relevance,
                use_complex_search: true,
            },
            0,
            10,
        );
        assert!(got.is_ok());
        let got = got.unwrap();
        let got_url = got.into_iter().map(|info| info.url).collect::<Vec<_>>();
        let expect_url = vec!["url3".to_string(), "url1".to_string(), "url2".to_string()];
        assert_eq!(got_url, expect_url);
    });
}

#[test]
fn test_get_retrieved_info_by_time() {
    create_data(|udiab_model| {
        let got = udiab_model.get_retrieved_info(
            "标题".to_string(),
            AdvanceSearchOptions {
                search_field: SearchField::All,
                sort_by: SearchSortBy::Time,
                use_complex_search: true,
            },
            0,
            10,
        );
        assert!(got.is_ok());
        let got = got.unwrap();
        let got_url = got.into_iter().map(|info| info.url).collect::<Vec<_>>();
        let expect_url = vec!["url1".to_string(), "url2".to_string(), "url3".to_string()];
        assert_eq!(got_url, expect_url);
    });
}

#[test]
fn test_get_retrieved_info_by_hot() {
    create_data(|udiab_model| {
        let got = udiab_model.get_retrieved_info(
            "标题".to_string(),
            AdvanceSearchOptions {
                search_field: SearchField::All,
                sort_by: SearchSortBy::Hot,
                use_complex_search: true,
            },
            0,
            10,
        );
        assert!(got.is_ok());
        let got = got.unwrap();
        let got_url = got.into_iter().map(|info| info.url).collect::<Vec<_>>();
        let expect_url = vec!["url2".to_string(), "url1".to_string(), "url3".to_string()];
        assert_eq!(got_url, expect_url);
    });
}

#[test]
fn simple_mode_matches_contiguous_tokens() {
    create_data(|udiab_model| {
        let got = udiab_model
            .get_retrieved_info(
                "标题".to_string(),
                AdvanceSearchOptions {
                    search_field: SearchField::All,
                    sort_by: SearchSortBy::Hot,
                    use_complex_search: false,
                },
                0,
                10,
            )
            .unwrap();
        let got_url = got.into_iter().map(|info| info.url).collect::<Vec<_>>();
        assert_eq!(
            got_url,
            vec!["url2".to_string(), "url1".to_string(), "url3".to_string()]
        );
    });
}

#[test]
fn simple_mode_title_field_only() {
    create_data(|udiab_model| {
        // The body text of url1 is not in any title: searching titles
        // only must match nothing.
        let got = udiab_model
            .get_retrieved_info(
                "正文一".to_string(),
                AdvanceSearchOptions {
                    search_field: SearchField::Title,
                    sort_by: SearchSortBy::Hot,
                    use_complex_search: false,
                },
                0,
                10,
            )
            .unwrap();
        assert!(got.is_empty());
        // Searching all fields finds it through the body.
        let got = udiab_model
            .get_retrieved_info(
                "正文一".to_string(),
                AdvanceSearchOptions {
                    search_field: SearchField::All,
                    sort_by: SearchSortBy::Hot,
                    use_complex_search: false,
                },
                0,
                10,
            )
            .unwrap();
        let got_url = got.into_iter().map(|info| info.url).collect::<Vec<_>>();
        assert_eq!(got_url, vec!["url1".to_string()]);
    });
}

#[test]
fn pagination_pages_agree() {
    create_data(|udiab_model| {
        let options = |sort_by| AdvanceSearchOptions {
            search_field: SearchField::All,
            sort_by,
            use_complex_search: true,
        };
        let whole = udiab_model
            .get_retrieved_info("标题".to_string(), options(SearchSortBy::Hot), 0, 3)
            .unwrap();
        let tail = udiab_model
            .get_retrieved_info("标题".to_string(), options(SearchSortBy::Hot), 1, 2)
            .unwrap();
        let whole_urls = whole.into_iter().map(|info| info.url).collect::<Vec<_>>();
        let tail_urls = tail.into_iter().map(|info| info.url).collect::<Vec<_>>();
        assert_eq!(whole_urls[1..].to_vec(), tail_urls);
        assert_eq!(tail_urls.len(), 2);
    });
}

#[test]
fn title_snippet_falls_back_to_stored_title() {
    create_data(|udiab_model| {
        // The query matches codes only, so the rendered title fragment
        // is empty and the verbatim title is used with no highlights.
        let got = udiab_model
            .get_retrieved_info(
                "one".to_string(),
                AdvanceSearchOptions {
                    search_field: SearchField::All,
                    sort_by: SearchSortBy::Relevance,
                    use_complex_search: true,
                },
                0,
                10,
            )
            .unwrap();
        assert_eq!(got.len(), 1);
        assert_eq!(got[0].url, "url1");
        assert_eq!(got[0].title_snippet.fragments, "标题一二");
        assert!(got[0].title_snippet.highlighted_positions.is_empty());
        // The code matched, so the code snippet is present.
        let code = got[0].code_snippet.as_ref().unwrap();
        assert!(!code.fragments.is_empty());
        // The body matched nothing: empty fragment, no highlights, still present.
        assert!(got[0].body_snippet.fragments.is_empty());
        assert!(got[0].body_snippet.highlighted_positions.is_empty());
    });
}

#[test]
fn code_snippet_absent_when_unmatched() {
    create_data(|udiab_model| {
        // The query matches titles only: every code snippet is absent.
        let got = udiab_model
            .get_retrieved_info(
                "标题".to_string(),
                AdvanceSearchOptions {
                    search_field: SearchField::All,
                    sort_by: SearchSortBy::Hot,
                    use_complex_search: true,
                },
                0,
                10,
            )
            .unwrap();
        assert_eq!(got.len(), 3);
        for info in &got {
            assert!(info.code_snippet.is_none());
            assert!(!info.title_snippet.fragments.is_empty());
            assert!(!info.title_snippet.highlighted_positions.is_empty());
        }
    });
}

#[test]
fn key_hints_capped_and_highlighted() {
    create_data(|udiab_model| {
        let hints = udiab_model.get_key_hints("标题".to_string()).unwrap();
        assert_eq!(hints.len(), 3);
        assert!(hints.len() <= 8);
        for hint in &hints {
            assert!(!hint.fragments.is_empty());
            assert!(!hint.highlighted_positions.is_empty());
        }
    });
}

#[test]
fn key_hints_malformed_expression_fails() {
    create_data(|udiab_model| {
        let got = udiab_model.get_key_hints("\"unbalanced".to_string());
        assert!(got.is_err());
    });
}

#[test]
fn top_info_window_and_order() {
    let now = Utc::now().timestamp();
    let documents = [
        ("url1", "标题一二", "正文一", "", 5, now - 3_600),
        ("url2", "标题一二三四", "正文二", "", 9, now - 7_200),
        ("url3", "标题", "正文三", "", 1, now - 90_000),
    ];
    let (index, project_document) = index_with_documents(&documents);
    let udiab_model = UdiabModel {
        reader: index.reader().unwrap(),
        project_document,
    };
    let got = udiab_model.get_top_info().unwrap();
    // url3 is older than 24 hours and stays out; likes never rise.
    let got_url = got.iter().map(|info| info.url.clone()).collect::<Vec<_>>();
    assert_eq!(got_url, vec!["url2".to_string(), "url1".to_string()]);
    assert!(got.len() <= 10);
    for pair in got.windows(2) {
        assert!(pair[0].likes >= pair[1].likes);
    }
}

#[test]
fn more_like_this_rejects_foreign_address() {
    create_data(|udiab_model| {
        let got = udiab_model.get_more_like_this(
            UdiabDocAddress {
                segment_ord: 999,
                doc_id: 0,
            },
            0,
            10,
        );
        match got {
            Err(error) => {
                assert_eq!(error.message(), "Unexpected error: Invalid document address");
            }
            Ok(_) => panic!("a foreign address must be rejected"),
        }
    });
}

#[test]
fn more_like_this_bounded_by_page_size() {
    create_data(|udiab_model| {
        let seed = udiab_model
            .get_retrieved_info(
                "标题".to_string(),
                AdvanceSearchOptions {
                    search_field: SearchField::All,
                    sort_by: SearchSortBy::Hot,
                    use_complex_search: true,
                },
                0,
                1,
            )
            .unwrap();
        assert_eq!(seed.len(), 1);
        let address = UdiabDocAddress {
            segment_ord: seed[0].address.segment_ord,
            doc_id: seed[0].address.doc_id,
        };
        let got = udiab_model.get_more_like_this(address, 0, 2).unwrap();
        assert!(got.len() <= 2);
    });
}
