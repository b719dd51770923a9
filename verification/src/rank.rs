//! Ranking and pagination of fetched article records.
//!
//! The `Time` and `Hot` orderings are total orders over article records:
//! descending by the stored timestamp or like count, ties broken
//! deterministically by ascending document address.  Ranking sorts under
//! the chosen order; a page then skips the first `offset` records and
//! keeps at most `page_size`.

use vstd::prelude::*;

use crate::common::SearchSortBy;
use crate::common::SearchedArticleInfo;
use crate::common::UdiabDocAddress;

verus! {

/// Deterministic address order: by segment, then by local document id.
pub open spec fn addr_le(a: UdiabDocAddress, b: UdiabDocAddress) -> bool {
    a.segment_ord < b.segment_ord || (a.segment_ord == b.segment_ord && a.doc_id <= b.doc_id)
}

/// `a` comes no later than `b` under the chosen ordering.  `Time` and
/// `Hot` order descending by the article's own stored value; relevance
/// order belongs to the collaborator and is not modelled here.
pub open spec fn ranked_le(
    sort_by: SearchSortBy,
    a: SearchedArticleInfo,
    b: SearchedArticleInfo,
) -> bool {
    match sort_by {
        SearchSortBy::Time => a.time > b.time || (a.time == b.time && addr_le(a.address, b.address)),
        SearchSortBy::Hot => a.likes > b.likes || (a.likes == b.likes && addr_le(
            a.address,
            b.address,
        )),
        SearchSortBy::Relevance => true,
    }
}

/// Every consecutive pair is in order.
pub open spec fn ranked_ordered(sort_by: SearchSortBy, s: Seq<SearchedArticleInfo>) -> bool {
    forall|i: int| 0 <= i < s.len() - 1 ==> ranked_le(sort_by, #[trigger] s[i], s[i + 1])
}

/// Insertion of `x` into `s` before the first record it precedes.
pub open spec fn insert_ranked(
    sort_by: SearchSortBy,
    x: SearchedArticleInfo,
    s: Seq<SearchedArticleInfo>,
) -> Seq<SearchedArticleInfo>
    decreases s.len(),
{
    if s.len() == 0 {
        seq![x]
    } else if ranked_le(sort_by, x, s[0]) {
        seq![x] + s
    } else {
        seq![s[0]] + insert_ranked(sort_by, x, s.drop_first())
    }
}

/// Insertion sort of `s` under the chosen ordering.
pub open spec fn ranked_sort(sort_by: SearchSortBy, s: Seq<SearchedArticleInfo>) -> Seq<
    SearchedArticleInfo,
>
    decreases s.len(),
{
    if s.len() == 0 {
        Seq::<SearchedArticleInfo>::empty()
    } else {
        insert_ranked(sort_by, s[0], ranked_sort(sort_by, s.drop_first()))
    }
}

/// The page at `offset` of at most `page_size` records, clipped to `s`.
pub open spec fn page_of(s: Seq<SearchedArticleInfo>, offset: int, page_size: int) -> Seq<
    SearchedArticleInfo,
> {
    let lo = if offset <= s.len() {
        offset
    } else {
        s.len() as int
    };
    let hi = if offset + page_size <= s.len() {
        offset + page_size
    } else {
        s.len() as int
    };
    if 0 <= lo <= hi {
        s.subrange(lo, hi)
    } else {
        Seq::<SearchedArticleInfo>::empty()
    }
}

proof fn lemma_insert_ranked_first(
    sort_by: SearchSortBy,
    x: SearchedArticleInfo,
    s: Seq<SearchedArticleInfo>,
)
    ensures
        insert_ranked(sort_by, x, s).len() == s.len() + 1,
        insert_ranked(sort_by, x, s)[0] == x || (s.len() > 0 && insert_ranked(sort_by, x, s)[0]
            == s[0]),
    decreases s.len(),
{
    if s.len() == 0 {
    } else if ranked_le(sort_by, x, s[0]) {
    } else {
        lemma_insert_ranked_first(sort_by, x, s.drop_first());
    }
}

proof fn lemma_insert_ranked_ordered(
    sort_by: SearchSortBy,
    x: SearchedArticleInfo,
    s: Seq<SearchedArticleInfo>,
)
    requires
        ranked_ordered(sort_by, s),
    ensures
        ranked_ordered(sort_by, insert_ranked(sort_by, x, s)),
    decreases s.len(),
{
    if s.len() == 0 {
    } else if ranked_le(sort_by, x, s[0]) {
        let out = seq![x] + s;
        assert forall|i: int| 0 <= i < out.len() - 1 implies ranked_le(
            sort_by,
            #[trigger] out[i],
            out[i + 1],
        ) by {
            if i == 0 {
            } else {
                assert(out[i] == s[i - 1] && out[i + 1] == s[i]);
            }
        }
    } else {
        let rest = s.drop_first();
        assert(ranked_ordered(sort_by, rest)) by {
            assert(forall|i: int| 0 <= i < rest.len() ==> #[trigger] rest[i] == s[i + 1]);
        }
        lemma_insert_ranked_ordered(sort_by, x, rest);
        lemma_insert_ranked_first(sort_by, x, rest);
        let tail = insert_ranked(sort_by, x, rest);
        let out = seq![s[0]] + tail;
        assert forall|i: int| 0 <= i < out.len() - 1 implies ranked_le(
            sort_by,
            #[trigger] out[i],
            out[i + 1],
        ) by {
            if i == 0 {
                assert(out[1] == tail[0]);
                if tail[0] == x {
                    assert(ranked_le(sort_by, s[0], x));
                } else {
                    assert(tail[0] == rest[0]);
                    assert(rest[0] == s[1]);
                }
            } else {
                assert(out[i] == tail[i - 1] && out[i + 1] == tail[i]);
            }
        }
    }
}

/// A ranked sort is ordered: consecutive records never rise under the
/// chosen ordering.
pub proof fn lemma_ranked_sort_ordered(sort_by: SearchSortBy, s: Seq<SearchedArticleInfo>)
    ensures
        ranked_ordered(sort_by, ranked_sort(sort_by, s)),
        ranked_sort(sort_by, s).len() == s.len(),
    decreases s.len(),
{
    if s.len() == 0 {
    } else {
        lemma_ranked_sort_ordered(sort_by, s.drop_first());
        lemma_insert_ranked_ordered(sort_by, s[0], ranked_sort(sort_by, s.drop_first()));
        lemma_insert_ranked_first(sort_by, s[0], ranked_sort(sort_by, s.drop_first()));
    }
}

/// A page of an ordered sequence is ordered.
pub proof fn lemma_page_ordered(
    sort_by: SearchSortBy,
    s: Seq<SearchedArticleInfo>,
    offset: int,
    page_size: int,
)
    requires
        ranked_ordered(sort_by, s),
    ensures
        ranked_ordered(sort_by, page_of(s, offset, page_size)),
        page_of(s, offset, page_size).len() <= page_size || page_size < 0,
{
    let page = page_of(s, offset, page_size);
    if 0 <= offset <= s.len() {
        assert forall|i: int| 0 <= i < page.len() - 1 implies ranked_le(
            sort_by,
            #[trigger] page[i],
            page[i + 1],
        ) by {
            assert(page[i] == s[offset + i] && page[i + 1] == s[offset + i + 1]);
        }
    }
}

proof fn lemma_insert_ranked_contains(
    sort_by: SearchSortBy,
    x: SearchedArticleInfo,
    s: Seq<SearchedArticleInfo>,
    y: SearchedArticleInfo,
)
    ensures
        insert_ranked(sort_by, x, s).contains(y) <==> (y == x || s.contains(y)),
    decreases s.len(),
{
    if s.len() == 0 {
        assert(insert_ranked(sort_by, x, s) =~= seq![x]);
        if insert_ranked(sort_by, x, s).contains(y) {
            let i = choose|i: int|
                0 <= i < insert_ranked(sort_by, x, s).len() && insert_ranked(sort_by, x, s)[i]
                    == y;
            assert(y == x);
        }
        if y == x {
            assert(insert_ranked(sort_by, x, s)[0] == y);
        }
    } else if ranked_le(sort_by, x, s[0]) {
        assert(insert_ranked(sort_by, x, s) == seq![x] + s);
        assert((seq![x] + s).contains(y) <==> (y == x || s.contains(y))) by {
            if (seq![x] + s).contains(y) {
                let i = choose|i: int| 0 <= i < (seq![x] + s).len() && (seq![x] + s)[i] == y;
                if i > 0 {
                    assert(s[i - 1] == y);
                }
            }
            if y == x {
                assert((seq![x] + s)[0] == y);
            }
            if s.contains(y) {
                let i = choose|i: int| 0 <= i < s.len() && s[i] == y;
                assert((seq![x] + s)[i + 1] == y);
            }
        }
    } else {
        let rest = s.drop_first();
        lemma_insert_ranked_contains(sort_by, x, rest, y);
        let tail = insert_ranked(sort_by, x, rest);
        let out = seq![s[0]] + tail;
        assert(out.contains(y) <==> (y == s[0] || tail.contains(y))) by {
            if out.contains(y) {
                let i = choose|i: int| 0 <= i < out.len() && out[i] == y;
                if i > 0 {
                    assert(tail[i - 1] == y);
                }
            }
            if y == s[0] {
                assert(out[0] == y);
            }
            if tail.contains(y) {
                let i = choose|i: int| 0 <= i < tail.len() && tail[i] == y;
                assert(out[i + 1] == y);
            }
        }
        assert(s.contains(y) <==> (y == s[0] || rest.contains(y))) by {
            if s.contains(y) {
                let i = choose|i: int| 0 <= i < s.len() && s[i] == y;
                if i > 0 {
                    assert(rest[i - 1] == y);
                }
            }
            if rest.contains(y) {
                let i = choose|i: int| 0 <= i < rest.len() && rest[i] == y;
                assert(s[i + 1] == y);
            }
        }
    }
}

/// A ranked sort keeps exactly the given records.
pub proof fn lemma_ranked_sort_contains(
    sort_by: SearchSortBy,
    s: Seq<SearchedArticleInfo>,
    y: SearchedArticleInfo,
)
    ensures
        ranked_sort(sort_by, s).contains(y) <==> s.contains(y),
    decreases s.len(),
{
    if s.len() == 0 {
    } else {
        let rest = s.drop_first();
        lemma_ranked_sort_contains(sort_by, rest, y);
        lemma_insert_ranked_contains(sort_by, s[0], ranked_sort(sort_by, rest), y);
        assert(s.contains(y) <==> (y == s[0] || rest.contains(y))) by {
            if s.contains(y) {
                let i = choose|i: int| 0 <= i < s.len() && s[i] == y;
                if i > 0 {
                    assert(rest[i - 1] == y);
                }
            }
            if y == s[0] {
                assert(s[0] == y);
            }
            if rest.contains(y) {
                let i = choose|i: int| 0 <= i < rest.len() && rest[i] == y;
                assert(s[i + 1] == y);
            }
        }
    }
}

/// Like counts never rise along the records.
pub open spec fn likes_nonincreasing(s: Seq<SearchedArticleInfo>) -> bool {
    forall|i: int| 0 <= i < s.len() - 1 ==> (#[trigger] s[i]).likes >= s[i + 1].likes
}

/// Timestamps never rise along the records.
pub open spec fn times_nonincreasing(s: Seq<SearchedArticleInfo>) -> bool {
    forall|i: int| 0 <= i < s.len() - 1 ==> (#[trigger] s[i]).time >= s[i + 1].time
}

/// An ordered result never lets its sort value rise: under `Time` the
/// timestamps are non-increasing, under `Hot` the like counts are.
pub proof fn lemma_ordered_nonincreasing(sort_by: SearchSortBy, s: Seq<SearchedArticleInfo>)
    requires
        ranked_ordered(sort_by, s),
    ensures
        sort_by is Time ==> times_nonincreasing(s),
        sort_by is Hot ==> likes_nonincreasing(s),
{
}

/// Pagination coherence: the page at `offset` is what remains of the
/// page at zero of `offset + page_size` records after skipping the first
/// `offset` of them.
pub proof fn lemma_rank_pagination(
    sort_by: SearchSortBy,
    articles: Seq<SearchedArticleInfo>,
    offset: int,
    page_size: int,
)
    requires
        0 <= offset,
        0 <= page_size,
    ensures
        page_of(ranked_sort(sort_by, articles), offset, page_size) == page_of(
            ranked_sort(sort_by, articles),
            0,
            offset + page_size,
        ).skip(
            if offset <= ranked_sort(sort_by, articles).len() {
                offset
            } else {
                ranked_sort(sort_by, articles).len() as int
            },
        ),
{
    let sorted = ranked_sort(sort_by, articles);
    let lo = if offset <= sorted.len() {
        offset
    } else {
        sorted.len() as int
    };
    let hi = if offset + page_size <= sorted.len() {
        offset + page_size
    } else {
        sorted.len() as int
    };
    assert(page_of(sorted, offset, page_size) =~= page_of(sorted, 0, offset + page_size).skip(lo));
}

/// Exact comparison under the chosen ordering; relevance has no
/// record-level order of its own.
fn ranked_before(sort_by: SearchSortBy, a: &SearchedArticleInfo, b: &SearchedArticleInfo) -> (r:
    bool)
    requires
        !(sort_by is Relevance),
    ensures
        r == ranked_le(sort_by, *a, *b),
{
    let key_order: bool = match sort_by {
        SearchSortBy::Time => a.time > b.time,
        SearchSortBy::Hot => a.likes > b.likes,
        SearchSortBy::Relevance => true,
    };
    let key_equal: bool = match sort_by {
        SearchSortBy::Time => a.time == b.time,
        SearchSortBy::Hot => a.likes == b.likes,
        SearchSortBy::Relevance => true,
    };
    key_order || (key_equal && (a.address.segment_ord < b.address.segment_ord
        || (a.address.segment_ord == b.address.segment_ord && a.address.doc_id
        <= b.address.doc_id)))
}

/// Sort the records under the chosen ordering, greatest first, ties by
/// ascending address.
pub fn rank_articles(sort_by: SearchSortBy, articles: Vec<SearchedArticleInfo>) -> (r: Vec<
    SearchedArticleInfo,
>)
    requires
        !(sort_by is Relevance),
    ensures
        r@ == ranked_sort(sort_by, articles@),
        ranked_ordered(sort_by, r@),
        r@.len() == articles@.len(),
{
    let ghost all = articles@;
    let mut articles = articles;
    let mut out: Vec<SearchedArticleInfo> = Vec::new();
    proof {
        assert(all.skip(all.len() as int) =~= Seq::<SearchedArticleInfo>::empty());
    }
    while articles.len() > 0
        invariant
            !(sort_by is Relevance),
            articles@.len() <= all.len(),
            articles@ == all.take(articles@.len() as int),
            out@ == ranked_sort(sort_by, all.skip(articles@.len() as int)),
            ranked_ordered(sort_by, out@),
        decreases articles@.len(),
    {
        let ghost i = articles@.len() - 1;
        let x = articles.pop().unwrap();
        proof {
            assert(all.take(i + 1).drop_last() =~= all.take(i));
            assert(x == all.take(i + 1)[i]);
            assert(x == all[i]);
        }
        let ghost prev = out@;
        let mut j: usize = 0;
        while j < out.len() && !ranked_before(sort_by, &x, &out[j])
            invariant
                !(sort_by is Relevance),
                out@ == prev,
                0 <= j <= prev.len(),
                forall|k: int| 0 <= k < j ==> !ranked_le(sort_by, x, #[trigger] prev[k]),
            decreases prev.len() - j,
        {
            j = j + 1;
        }
        proof {
            lemma_insert_ranked_at(sort_by, x, prev, j as int);
            lemma_insert_ranked_ordered(sort_by, x, prev);
        }
        out.insert(j, x);
        proof {
            assert(all.skip(i).drop_first() =~= all.skip(i + 1));
            assert(all.skip(i)[0] == all[i]);
        }
    }
    proof {
        assert(all.skip(0) =~= all);
        lemma_ranked_sort_ordered(sort_by, all);
    }
    out
}

proof fn lemma_insert_ranked_at(
    sort_by: SearchSortBy,
    x: SearchedArticleInfo,
    s: Seq<SearchedArticleInfo>,
    j: int,
)
    requires
        0 <= j <= s.len(),
        forall|k: int| 0 <= k < j ==> !ranked_le(sort_by, x, #[trigger] s[k]),
        j < s.len() ==> ranked_le(sort_by, x, s[j]),
    ensures
        insert_ranked(sort_by, x, s) == s.insert(j, x),
    decreases s.len(),
{
    if s.len() == 0 {
        assert(insert_ranked(sort_by, x, s) =~= s.insert(0, x));
    } else if j == 0 {
        assert(insert_ranked(sort_by, x, s) =~= s.insert(0, x));
    } else {
        let rest = s.drop_first();
        assert(forall|k: int| 0 <= k < j - 1 ==> !ranked_le(sort_by, x, #[trigger] rest[k]));
        lemma_insert_ranked_at(sort_by, x, rest, j - 1);
        assert(insert_ranked(sort_by, x, s) =~= s.insert(j, x)) by {
            assert(insert_ranked(sort_by, x, s) == seq![s[0]] + insert_ranked(sort_by, x, rest));
            assert(insert_ranked(sort_by, x, rest) == rest.insert(j - 1, x));
        }
    }
}

/// Keep the page at `offset` of at most `page_size` records.
pub fn paginate(
    articles: Vec<SearchedArticleInfo>,
    offset: usize,
    page_size: usize,
) -> (r: Vec<SearchedArticleInfo>)
    ensures
        r@ == page_of(articles@, offset as int, page_size as int),
        r@.len() <= page_size,
{
    let ghost orig = articles@;
    let mut articles = articles;
    let lo = if offset <= articles.len() {
        offset
    } else {
        articles.len()
    };
    let mut page = articles.split_off(lo);
    page.truncate(page_size);
    proof {
        assert(page@ =~= page_of(orig, offset as int, page_size as int));
    }
    page
}

} // verus!
