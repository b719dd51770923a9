use udiab_search::common::{SearchSortBy, SearchedArticleInfo, UdiabDocAddress};
use udiab_search::highlight::Snippet;
use udiab_search::query::{subquery_for_field, Subquery, Token};
use udiab_search::rank::{paginate, rank_articles};
use udiab_search::top::{select_top_window, TopArticleCandidate};

fn article(url: &str, likes: u64, time: i64, doc_id: u32) -> SearchedArticleInfo {
    SearchedArticleInfo {
        url: url.to_string(),
        title_snippet: Snippet::new(url.to_string(), vec![]),
        body_snippet: Snippet::new(String::new(), vec![]),
        code_snippet: None,
        likes,
        time,
        address: UdiabDocAddress {
            segment_ord: 0,
            doc_id,
        },
    }
}

fn urls(infos: &[SearchedArticleInfo]) -> Vec<String> {
    infos.iter().map(|info| info.url.clone()).collect()
}

#[test]
fn rank_by_hot_orders_descending_likes() {
    let articles = vec![
        article("url1", 5, 300, 1),
        article("url2", 9, 200, 2),
        article("url3", 1, 100, 3),
    ];
    let ranked = rank_articles(SearchSortBy::Hot, articles);
    assert_eq!(urls(&ranked), vec!["url2", "url1", "url3"]);
    for pair in ranked.windows(2) {
        assert!(pair[0].likes >= pair[1].likes);
    }
}

#[test]
fn rank_by_time_orders_descending_time() {
    let articles = vec![
        article("url1", 5, 300, 1),
        article("url2", 9, 200, 2),
        article("url3", 1, 100, 3),
    ];
    let ranked = rank_articles(SearchSortBy::Time, articles);
    assert_eq!(urls(&ranked), vec!["url1", "url2", "url3"]);
    for pair in ranked.windows(2) {
        assert!(pair[0].time >= pair[1].time);
    }
}

#[test]
fn rank_ties_break_by_address() {
    let articles = vec![
        article("b", 7, 0, 9),
        article("a", 7, 0, 2),
        article("c", 7, 0, 5),
    ];
    let ranked = rank_articles(SearchSortBy::Hot, articles);
    assert_eq!(urls(&ranked), vec!["a", "c", "b"]);
}

#[test]
fn pagination_skips_and_caps() {
    let articles = vec![
        article("u1", 50, 0, 1),
        article("u2", 40, 0, 2),
        article("u3", 30, 0, 3),
        article("u4", 20, 0, 4),
        article("u5", 10, 0, 5),
    ];
    let ranked = rank_articles(SearchSortBy::Hot, articles);
    let page = paginate(ranked, 1, 2);
    assert_eq!(urls(&page), vec!["u2", "u3"]);
}

#[test]
fn pagination_agrees_with_prefix() {
    let articles = vec![
        article("u1", 50, 0, 1),
        article("u2", 40, 0, 2),
        article("u3", 30, 0, 3),
        article("u4", 20, 0, 4),
        article("u5", 10, 0, 5),
    ];
    let offset = 2;
    let page_size = 2;
    let direct = paginate(
        rank_articles(SearchSortBy::Hot, articles.clone()),
        offset,
        page_size,
    );
    let prefix = paginate(
        rank_articles(SearchSortBy::Hot, articles),
        0,
        offset + page_size,
    );
    assert_eq!(urls(&direct), urls(&prefix)[offset..].to_vec());
}

#[test]
fn pagination_beyond_end_is_empty() {
    let articles = vec![article("u1", 50, 0, 1)];
    let ranked = rank_articles(SearchSortBy::Hot, articles);
    let page = paginate(ranked, 5, 3);
    assert!(page.is_empty());
}

fn token(position: usize, text: &str) -> Token {
    Token {
        position,
        text: text.to_string(),
    }
}

#[test]
fn no_tokens_contribute_nothing() {
    let field = tantivy::schema::Field::from_field_id(0);
    assert!(subquery_for_field(field, &vec![]).is_none());
}

#[test]
fn one_token_contributes_exact_term() {
    let field = tantivy::schema::Field::from_field_id(0);
    match subquery_for_field(field, &vec![token(0, "rust")]) {
        Some(Subquery::Term { text, .. }) => assert_eq!(text, "rust"),
        other => panic!("expected a term subquery, got {:?}", other),
    }
}

#[test]
fn many_tokens_contribute_phrase_in_order() {
    let field = tantivy::schema::Field::from_field_id(0);
    let tokens = vec![token(0, "full"), token(1, "text"), token(3, "search")];
    match subquery_for_field(field, &tokens) {
        Some(Subquery::Phrase { terms, .. }) => {
            let rendered: Vec<(usize, String)> = terms;
            assert_eq!(
                rendered,
                vec![
                    (0, "full".to_string()),
                    (1, "text".to_string()),
                    (3, "search".to_string())
                ]
            );
        }
        other => panic!("expected a phrase subquery, got {:?}", other),
    }
}

fn candidate(url: &str, likes: u64, time: i64, doc_id: u32) -> TopArticleCandidate {
    TopArticleCandidate {
        url: url.to_string(),
        title: url.to_string(),
        likes,
        time,
        address: UdiabDocAddress {
            segment_ord: 0,
            doc_id,
        },
    }
}

#[test]
fn top_window_filters_sorts_and_caps() {
    let now = 1_000_000;
    let mut candidates = Vec::new();
    // Twelve candidates inside the window with rising like counts, one
    // too old, one at `now` (the window is right-open).
    for i in 0..12u32 {
        candidates.push(candidate(
            &format!("in{}", i),
            i as u64,
            now - 1000 - i as i64,
            i,
        ));
    }
    candidates.push(candidate("too_old", 100, now - 86_400 - 1, 50));
    candidates.push(candidate("at_now", 100, now, 51));
    let selected = select_top_window(now, candidates);
    assert_eq!(selected.len(), 10);
    for c in &selected {
        assert!(now - 86_400 <= c.time && c.time < now);
        assert_ne!(c.url, "too_old");
        assert_ne!(c.url, "at_now");
    }
    for pair in selected.windows(2) {
        assert!(pair[0].likes >= pair[1].likes);
    }
    // The two least-liked in-window candidates fell off the cap.
    assert_eq!(selected[0].url, "in11");
    assert_eq!(selected[9].url, "in2");
}

#[test]
fn window_boundary_is_left_closed() {
    let now = 1_000_000;
    let candidates = vec![
        candidate("oldest_in", 1, now - 86_400, 1),
        candidate("just_out", 2, now - 86_401, 2),
    ];
    let selected = select_top_window(now, candidates);
    assert_eq!(selected.len(), 1);
    assert_eq!(selected[0].url, "oldest_in");
}
