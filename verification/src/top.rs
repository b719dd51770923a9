//! The trailing-24-hour top view: candidates fetched for the window are
//! filtered against the wall-clock window, ordered by descending like
//! count with a deterministic address tie-break, and capped.

use vstd::prelude::*;

use crate::common::TOP_ARTICLE_INFOS_COUNT;
use crate::common::TopArticleInfo;
use crate::common::UdiabDocAddress;
use crate::rank::addr_le;

verus! {

/// Length of the window in seconds: one day.
pub const WINDOW_SECONDS: i64 = 86400;

/// A fetched candidate for the top view, with the stored values the
/// selection reads.
#[derive(Clone, Debug)]
pub struct TopArticleCandidate {
    /// URL of article.
    pub url: String,
    /// Title of article.
    pub title: String,
    /// Number of likes.
    pub likes: u64,
    /// Time of this article, in whole seconds in UTC.
    pub time: i64,
    /// Address within the snapshot the candidate came from.
    pub address: UdiabDocAddress,
}

/// Start of the window ending at `now`, clipped at the representable
/// minimum.
pub open spec fn window_start(now: int) -> int {
    if now - WINDOW_SECONDS >= i64::MIN {
        now - WINDOW_SECONDS
    } else {
        i64::MIN as int
    }
}

/// The candidate's time lies in `[now - 24h, now)`.
pub open spec fn in_window(now: int, time: int) -> bool {
    window_start(now) <= time < now
}

/// The candidates whose time lies in the window, in their given order.
pub open spec fn window_filter(now: int, s: Seq<TopArticleCandidate>) -> Seq<TopArticleCandidate>
    decreases s.len(),
{
    if s.len() == 0 {
        Seq::<TopArticleCandidate>::empty()
    } else if in_window(now, s[0].time as int) {
        seq![s[0]] + window_filter(now, s.drop_first())
    } else {
        window_filter(now, s.drop_first())
    }
}

/// `a` comes no later than `b`: more likes first, ties by ascending
/// address.
pub open spec fn candidate_le(a: TopArticleCandidate, b: TopArticleCandidate) -> bool {
    a.likes > b.likes || (a.likes == b.likes && addr_le(a.address, b.address))
}

/// Every consecutive pair is in order.
pub open spec fn candidates_ordered(s: Seq<TopArticleCandidate>) -> bool {
    forall|i: int| 0 <= i < s.len() - 1 ==> candidate_le(#[trigger] s[i], s[i + 1])
}

/// Insertion of `x` into `s` before the first candidate it precedes.
pub open spec fn insert_candidate(x: TopArticleCandidate, s: Seq<TopArticleCandidate>) -> Seq<
    TopArticleCandidate,
>
    decreases s.len(),
{
    if s.len() == 0 {
        seq![x]
    } else if candidate_le(x, s[0]) {
        seq![x] + s
    } else {
        seq![s[0]] + insert_candidate(x, s.drop_first())
    }
}

/// Insertion sort of the candidates, most liked first.
pub open spec fn candidate_sort(s: Seq<TopArticleCandidate>) -> Seq<TopArticleCandidate>
    decreases s.len(),
{
    if s.len() == 0 {
        Seq::<TopArticleCandidate>::empty()
    } else {
        insert_candidate(s[0], candidate_sort(s.drop_first()))
    }
}

/// The whole selection: filter to the window, order by likes, cap.
pub open spec fn top_window_spec(now: int, s: Seq<TopArticleCandidate>) -> Seq<
    TopArticleCandidate,
> {
    let ranked = candidate_sort(window_filter(now, s));
    if ranked.len() <= TOP_ARTICLE_INFOS_COUNT {
        ranked
    } else {
        ranked.take(TOP_ARTICLE_INFOS_COUNT as int)
    }
}

proof fn lemma_insert_candidate_first(x: TopArticleCandidate, s: Seq<TopArticleCandidate>)
    ensures
        insert_candidate(x, s).len() == s.len() + 1,
        insert_candidate(x, s)[0] == x || (s.len() > 0 && insert_candidate(x, s)[0] == s[0]),
    decreases s.len(),
{
    if s.len() == 0 {
    } else if candidate_le(x, s[0]) {
    } else {
        lemma_insert_candidate_first(x, s.drop_first());
    }
}

proof fn lemma_insert_candidate_ordered(x: TopArticleCandidate, s: Seq<TopArticleCandidate>)
    requires
        candidates_ordered(s),
    ensures
        candidates_ordered(insert_candidate(x, s)),
    decreases s.len(),
{
    if s.len() == 0 {
    } else if candidate_le(x, s[0]) {
        let out = seq![x] + s;
        assert forall|i: int| 0 <= i < out.len() - 1 implies candidate_le(
            #[trigger] out[i],
            out[i + 1],
        ) by {
            if i > 0 {
                assert(out[i] == s[i - 1] && out[i + 1] == s[i]);
            }
        }
    } else {
        let rest = s.drop_first();
        assert(candidates_ordered(rest)) by {
            assert(forall|i: int| 0 <= i < rest.len() ==> #[trigger] rest[i] == s[i + 1]);
        }
        lemma_insert_candidate_ordered(x, rest);
        lemma_insert_candidate_first(x, rest);
        let tail = insert_candidate(x, rest);
        let out = seq![s[0]] + tail;
        assert forall|i: int| 0 <= i < out.len() - 1 implies candidate_le(
            #[trigger] out[i],
            out[i + 1],
        ) by {
            if i == 0 {
                assert(out[1] == tail[0]);
                if tail[0] == x {
                    assert(candidate_le(s[0], x));
                } else {
                    assert(tail[0] == rest[0] && rest[0] == s[1]);
                }
            } else {
                assert(out[i] == tail[i - 1] && out[i + 1] == tail[i]);
            }
        }
    }
}

proof fn lemma_insert_candidate_contains(
    x: TopArticleCandidate,
    s: Seq<TopArticleCandidate>,
    y: TopArticleCandidate,
)
    ensures
        insert_candidate(x, s).contains(y) <==> (y == x || s.contains(y)),
    decreases s.len(),
{
    if s.len() == 0 {
        assert(insert_candidate(x, s) =~= seq![x]);
        if insert_candidate(x, s).contains(y) {
            let i = choose|i: int|
                0 <= i < insert_candidate(x, s).len() && insert_candidate(x, s)[i] == y;
            assert(y == x);
        }
        if y == x {
            assert(insert_candidate(x, s)[0] == y);
        }
    } else if candidate_le(x, s[0]) {
        assert(insert_candidate(x, s) == seq![x] + s);
        assert((seq![x] + s).contains(y) <==> (y == x || s.contains(y))) by {
            if (seq![x] + s).contains(y) {
                let i = choose|i: int| 0 <= i < (seq![x] + s).len() && (seq![x] + s)[i] == y;
                if i > 0 {
                    assert(s[i - 1] == y);
                }
            }
            if y == x {
                assert((seq![x] + s)[0] == y);
            }
            if s.contains(y) {
                let i = choose|i: int| 0 <= i < s.len() && s[i] == y;
                assert((seq![x] + s)[i + 1] == y);
            }
        }
    } else {
        let rest = s.drop_first();
        lemma_insert_candidate_contains(x, rest, y);
        let tail = insert_candidate(x, rest);
        let out = seq![s[0]] + tail;
        assert(out.contains(y) <==> (y == s[0] || tail.contains(y))) by {
            if out.contains(y) {
                let i = choose|i: int| 0 <= i < out.len() && out[i] == y;
                if i > 0 {
                    assert(tail[i - 1] == y);
                }
            }
            if y == s[0] {
                assert(out[0] == y);
            }
            if tail.contains(y) {
                let i = choose|i: int| 0 <= i < tail.len() && tail[i] == y;
                assert(out[i + 1] == y);
            }
        }
        assert(s.contains(y) <==> (y == s[0] || rest.contains(y))) by {
            if s.contains(y) {
                let i = choose|i: int| 0 <= i < s.len() && s[i] == y;
                if i > 0 {
                    assert(rest[i - 1] == y);
                }
            }
            if rest.contains(y) {
                let i = choose|i: int| 0 <= i < rest.len() && rest[i] == y;
                assert(s[i + 1] == y);
            }
        }
    }
}

proof fn lemma_candidate_sort_contains(s: Seq<TopArticleCandidate>, y: TopArticleCandidate)
    ensures
        candidate_sort(s).contains(y) <==> s.contains(y),
    decreases s.len(),
{
    if s.len() == 0 {
    } else {
        let rest = s.drop_first();
        lemma_candidate_sort_contains(rest, y);
        lemma_insert_candidate_contains(s[0], candidate_sort(rest), y);
        assert(s.contains(y) <==> (y == s[0] || rest.contains(y))) by {
            if s.contains(y) {
                let i = choose|i: int| 0 <= i < s.len() && s[i] == y;
                if i > 0 {
                    assert(rest[i - 1] == y);
                }
            }
            if y == s[0] {
                assert(s[0] == y);
            }
            if rest.contains(y) {
                let i = choose|i: int| 0 <= i < rest.len() && rest[i] == y;
                assert(s[i + 1] == y);
            }
        }
    }
}

proof fn lemma_window_filter_in_window(now: int, s: Seq<TopArticleCandidate>)
    ensures
        forall|i: int|
            0 <= i < window_filter(now, s).len() ==> in_window(
                now,
                (#[trigger] window_filter(now, s)[i]).time as int,
            ),
        forall|y: TopArticleCandidate| window_filter(now, s).contains(y) ==> s.contains(y),
    decreases s.len(),
{
    if s.len() == 0 {
    } else {
        let rest = s.drop_first();
        lemma_window_filter_in_window(now, rest);
        assert forall|y: TopArticleCandidate| rest.contains(y) implies s.contains(y) by {
            let i = choose|i: int| 0 <= i < rest.len() && rest[i] == y;
            assert(s[i + 1] == y);
        }
        if in_window(now, s[0].time as int) {
            let out = seq![s[0]] + window_filter(now, rest);
            assert forall|i: int| 0 <= i < out.len() implies in_window(
                now,
                (#[trigger] out[i]).time as int,
            ) by {
                if i > 0 {
                    assert(out[i] == window_filter(now, rest)[i - 1]);
                }
            }
            assert forall|y: TopArticleCandidate| out.contains(y) implies s.contains(y) by {
                let i = choose|i: int| 0 <= i < out.len() && out[i] == y;
                if i == 0 {
                    assert(s[0] == y);
                } else {
                    assert(window_filter(now, rest)[i - 1] == y);
                }
            }
        }
    }
}

/// Everything the top view promises of its selection: at most ten
/// candidates, every one inside the window ending at `now`, like counts
/// never rising, and each taken from the given candidates.
pub proof fn lemma_top_window_spec(now: int, s: Seq<TopArticleCandidate>)
    ensures
        top_window_spec(now, s).len() <= TOP_ARTICLE_INFOS_COUNT,
        forall|i: int|
            0 <= i < top_window_spec(now, s).len() ==> in_window(
                now,
                (#[trigger] top_window_spec(now, s)[i]).time as int,
            ),
        candidates_ordered(top_window_spec(now, s)),
        forall|y: TopArticleCandidate| top_window_spec(now, s).contains(y) ==> s.contains(y),
{
    let filtered = window_filter(now, s);
    let ranked = candidate_sort(filtered);
    let out = top_window_spec(now, s);
    lemma_window_filter_in_window(now, s);
    lemma_candidate_sort_ordered(filtered);
    assert forall|i: int| 0 <= i < out.len() implies in_window(
        now,
        (#[trigger] out[i]).time as int,
    ) by {
        assert(out[i] == ranked[i]);
        assert(ranked.contains(ranked[i]));
        lemma_candidate_sort_contains(filtered, ranked[i]);
        let j = choose|j: int| 0 <= j < filtered.len() && filtered[j] == ranked[i];
        assert(in_window(now, filtered[j].time as int));
    }
    assert(candidates_ordered(out)) by {
        assert(forall|i: int| 0 <= i < out.len() ==> #[trigger] out[i] == ranked[i]);
    }
    assert forall|y: TopArticleCandidate| out.contains(y) implies s.contains(y) by {
        let i = choose|i: int| 0 <= i < out.len() && out[i] == y;
        assert(ranked[i] == y);
        assert(ranked.contains(y));
        lemma_candidate_sort_contains(filtered, y);
        assert(filtered.contains(y));
    }
}

proof fn lemma_candidate_sort_ordered(s: Seq<TopArticleCandidate>)
    ensures
        candidates_ordered(candidate_sort(s)),
        candidate_sort(s).len() == s.len(),
    decreases s.len(),
{
    if s.len() == 0 {
    } else {
        lemma_candidate_sort_ordered(s.drop_first());
        lemma_insert_candidate_ordered(s[0], candidate_sort(s.drop_first()));
        lemma_insert_candidate_first(s[0], candidate_sort(s.drop_first()));
    }
}

proof fn lemma_insert_candidate_at(
    x: TopArticleCandidate,
    s: Seq<TopArticleCandidate>,
    j: int,
)
    requires
        0 <= j <= s.len(),
        forall|k: int| 0 <= k < j ==> !candidate_le(x, #[trigger] s[k]),
        j < s.len() ==> candidate_le(x, s[j]),
    ensures
        insert_candidate(x, s) == s.insert(j, x),
    decreases s.len(),
{
    if s.len() == 0 {
        assert(insert_candidate(x, s) =~= s.insert(0, x));
    } else if j == 0 {
        assert(insert_candidate(x, s) =~= s.insert(0, x));
    } else {
        let rest = s.drop_first();
        assert(forall|k: int| 0 <= k < j - 1 ==> !candidate_le(x, #[trigger] rest[k]));
        lemma_insert_candidate_at(x, rest, j - 1);
        assert(insert_candidate(x, s) =~= s.insert(j, x)) by {
            assert(insert_candidate(x, s) == seq![s[0]] + insert_candidate(x, rest));
            assert(insert_candidate(x, rest) == rest.insert(j - 1, x));
        }
    }
}

/// Exact comparison: more likes first, ties by ascending address.
fn candidate_before(a: &TopArticleCandidate, b: &TopArticleCandidate) -> (r: bool)
    ensures
        r == candidate_le(*a, *b),
{
    a.likes > b.likes || (a.likes == b.likes && (a.address.segment_ord < b.address.segment_ord
        || (a.address.segment_ord == b.address.segment_ord && a.address.doc_id
        <= b.address.doc_id)))
}

/// The candidate's time lies in `[now - 24h, now)`.
fn candidate_in_window(now: i64, candidate: &TopArticleCandidate) -> (r: bool)
    ensures
        r == in_window(now as int, candidate.time as int),
{
    let start = if now >= i64::MIN + WINDOW_SECONDS {
        now - WINDOW_SECONDS
    } else {
        i64::MIN
    };
    start <= candidate.time && candidate.time < now
}

/// Select the top of the window ending at `now`: drop candidates outside
/// the window, order the rest by descending like count with a
/// deterministic tie-break, and keep at most ten.
pub fn select_top_window(now: i64, candidates: Vec<TopArticleCandidate>) -> (r: Vec<
    TopArticleCandidate,
>)
    ensures
        r@ == top_window_spec(now as int, candidates@),
        r@.len() <= TOP_ARTICLE_INFOS_COUNT,
        forall|i: int| 0 <= i < r@.len() ==> in_window(now as int, (#[trigger] r@[i]).time as int),
        candidates_ordered(r@),
        forall|y: TopArticleCandidate| r@.contains(y) ==> candidates@.contains(y),
{
    proof {
        lemma_top_window_spec(now as int, candidates@);
    }
    let ghost all = candidates@;
    let mut candidates = candidates;
    let mut filtered: Vec<TopArticleCandidate> = Vec::new();
    proof {
        assert(window_filter(now as int, all) =~= filtered@ + window_filter(now as int, all));
    }
    while candidates.len() > 0
        invariant
            window_filter(now as int, all) == filtered@ + window_filter(now as int, candidates@),
        decreases candidates@.len(),
    {
        let ghost before = candidates@;
        let next = candidates.remove(0);
        proof {
            assert(before.remove(0) =~= before.drop_first());
        }
        if candidate_in_window(now, &next) {
            filtered.push(next);
            proof {
                assert(window_filter(now as int, before) =~= seq![next] + window_filter(
                    now as int,
                    candidates@,
                ));
                assert(filtered@ + window_filter(now as int, candidates@) =~= filtered@.drop_last()
                    + window_filter(now as int, before));
            }
        }
    }
    proof {
        assert(window_filter(now as int, candidates@) =~= Seq::<TopArticleCandidate>::empty());
        assert(filtered@ =~= window_filter(now as int, all));
    }
    let ghost fseq = filtered@;
    let mut ranked: Vec<TopArticleCandidate> = Vec::new();
    while filtered.len() > 0
        invariant
            filtered@.len() <= fseq.len(),
            filtered@ == fseq.take(filtered@.len() as int),
            ranked@ == candidate_sort(fseq.skip(filtered@.len() as int)),
        decreases filtered@.len(),
    {
        let ghost i = filtered@.len() - 1;
        let x = filtered.pop().unwrap();
        proof {
            assert(fseq.take(i + 1).drop_last() =~= fseq.take(i));
            assert(x == fseq.take(i + 1)[i]);
            assert(x == fseq[i]);
        }
        let ghost prev = ranked@;
        let mut j: usize = 0;
        while j < ranked.len() && !candidate_before(&x, &ranked[j])
            invariant
                ranked@ == prev,
                0 <= j <= prev.len(),
                forall|k: int| 0 <= k < j ==> !candidate_le(x, #[trigger] prev[k]),
            decreases prev.len() - j,
        {
            j = j + 1;
        }
        proof {
            lemma_insert_candidate_at(x, prev, j as int);
        }
        ranked.insert(j, x);
        proof {
            assert(fseq.skip(i).drop_first() =~= fseq.skip(i + 1));
            assert(fseq.skip(i)[0] == fseq[i]);
        }
    }
    proof {
        assert(fseq.skip(0) =~= fseq);
    }
    ranked.truncate(TOP_ARTICLE_INFOS_COUNT);
    proof {
        if candidate_sort(fseq).len() > TOP_ARTICLE_INFOS_COUNT {
            assert(ranked@ =~= candidate_sort(fseq).take(TOP_ARTICLE_INFOS_COUNT as int));
        }
    }
    ranked
}

/// The record the top view returns for a candidate: its url, title and
/// like count, the time and address left behind.
pub open spec fn info_of_candidate(c: TopArticleCandidate) -> TopArticleInfo {
    TopArticleInfo { url: c.url, title: c.title, likes: c.likes }
}

/// Project a candidate onto the returned record, field for field.
pub fn candidate_info(candidate: TopArticleCandidate) -> (r: TopArticleInfo)
    ensures
        r == info_of_candidate(candidate),
{
    TopArticleInfo { url: candidate.url, title: candidate.title, likes: candidate.likes }
}

/// Like counts never rise along the selection.
pub open spec fn likes_nonincreasing(s: Seq<TopArticleCandidate>) -> bool {
    forall|i: int| 0 <= i < s.len() - 1 ==> (#[trigger] s[i]).likes >= s[i + 1].likes
}

/// An ordered selection has non-rising like counts.
pub proof fn lemma_ordered_likes_nonincreasing(s: Seq<TopArticleCandidate>)
    requires
        candidates_ordered(s),
    ensures
        likes_nonincreasing(s),
{
}

} // verus!
