//! Highlighted spans of a snippet fragment and the rule that merges them.
//!
//! A span is a half-open byte range `[start, end)` over a snippet fragment.
//! The merge rule walks an appearance-ordered list keeping a running span:
//! a span whose start equals the running span's end extends it; any other
//! span makes the running span an output and becomes the new running span.

use vstd::prelude::*;

verus! {

/// Half-open byte range `[start, end)` into a snippet fragment.
#[derive(Clone, Copy, Debug, PartialEq, Eq, Structural)]
pub struct Span {
    pub start: usize,
    pub end: usize,
}

/// Merge of the remaining spans `rest`, with `cur` as the running span.
pub open spec fn merge_from(rest: Seq<Span>, cur: Span) -> Seq<Span>
    decreases rest.len(),
{
    if rest.len() == 0 {
        seq![cur]
    } else if cur.end == rest[0].start {
        merge_from(rest.drop_first(), Span { start: cur.start, end: rest[0].end })
    } else {
        seq![cur] + merge_from(rest.drop_first(), rest[0])
    }
}

/// The merged form of an appearance-ordered span list.
pub open spec fn merge_spans(spans: Seq<Span>) -> Seq<Span> {
    if spans.len() == 0 {
        Seq::<Span>::empty()
    } else {
        merge_from(spans.drop_first(), spans[0])
    }
}

/// No two consecutive spans touch end-to-start.
pub open spec fn no_touching(spans: Seq<Span>) -> bool {
    forall|i: int| 0 <= i < spans.len() - 1 ==> spans[i].end != spans[i + 1].start
}

/// Spans are in appearance order: each is well formed and none starts
/// before the previous one ends.
pub open spec fn appearance_ordered(spans: Seq<Span>) -> bool {
    &&& forall|i: int| 0 <= i < spans.len() ==> spans[i].start <= spans[i].end
    &&& forall|i: int| 0 <= i < spans.len() - 1 ==> spans[i].end <= spans[i + 1].start
}

/// All spans end at or before `bound`.
pub open spec fn spans_within(spans: Seq<Span>, bound: nat) -> bool {
    forall|i: int| 0 <= i < spans.len() ==> spans[i].end <= bound
}

/// Canonical form: sorted ascending, non-overlapping, no two spans
/// touching, every span well formed and ending at or before `bound`.
pub open spec fn canonical_spans(spans: Seq<Span>, bound: nat) -> bool {
    &&& forall|i: int| 0 <= i < spans.len() ==> (#[trigger] spans[i]).start <= spans[i].end
        <= bound
    &&& forall|i: int| 0 <= i < spans.len() - 1 ==> (#[trigger] spans[i]).end < spans[i + 1].start
}

proof fn lemma_merge_from_first(rest: Seq<Span>, cur: Span)
    ensures
        merge_from(rest, cur).len() > 0,
        merge_from(rest, cur)[0].start == cur.start,
    decreases rest.len(),
{
    if rest.len() == 0 {
    } else if cur.end == rest[0].start {
        lemma_merge_from_first(rest.drop_first(), Span { start: cur.start, end: rest[0].end });
    } else {
        lemma_merge_from_first(rest.drop_first(), rest[0]);
    }
}

proof fn lemma_merge_from_no_touching(rest: Seq<Span>, cur: Span)
    ensures
        no_touching(merge_from(rest, cur)),
    decreases rest.len(),
{
    if rest.len() == 0 {
    } else if cur.end == rest[0].start {
        lemma_merge_from_no_touching(
            rest.drop_first(),
            Span { start: cur.start, end: rest[0].end },
        );
    } else {
        let tail = merge_from(rest.drop_first(), rest[0]);
        lemma_merge_from_no_touching(rest.drop_first(), rest[0]);
        lemma_merge_from_first(rest.drop_first(), rest[0]);
        let out = seq![cur] + tail;
        assert(out[0] == cur);
        assert forall|i: int| 0 <= i < out.len() - 1 implies out[i].end != out[i + 1].start by {
            if i == 0 {
                assert(out[1] == tail[0]);
                assert(tail[0].start == rest[0].start);
            } else {
                assert(out[i] == tail[i - 1]);
                assert(out[i + 1] == tail[i]);
            }
        }
    }
}

proof fn lemma_merge_from_of_untouched(spans: Seq<Span>)
    requires
        no_touching(spans),
        spans.len() > 0,
    ensures
        merge_from(spans.drop_first(), spans[0]) == spans,
    decreases spans.len(),
{
    let rest = spans.drop_first();
    if rest.len() == 0 {
        assert(merge_from(rest, spans[0]) =~= spans);
    } else {
        assert(spans[0].end != spans[1].start);
        assert(rest[0] == spans[1]);
        assert(no_touching(rest)) by {
            assert(forall|i: int|
                0 <= i < rest.len() - 1 ==> #[trigger] rest[i] == spans[i + 1] && rest[i + 1]
                    == spans[i + 2]);
        }
        lemma_merge_from_of_untouched(rest);
        assert(rest.drop_first() == spans.drop_first().drop_first());
        assert(merge_from(rest, spans[0]) =~= seq![spans[0]] + merge_from(
            rest.drop_first(),
            rest[0],
        ));
        assert(seq![spans[0]] + rest =~= spans);
    }
}

/// Merging is idempotent: a merged list merges to itself.
pub proof fn lemma_merge_idempotent(spans: Seq<Span>)
    ensures
        merge_spans(merge_spans(spans)) == merge_spans(spans),
{
    if spans.len() == 0 {
    } else {
        let merged = merge_from(spans.drop_first(), spans[0]);
        lemma_merge_from_no_touching(spans.drop_first(), spans[0]);
        lemma_merge_from_first(spans.drop_first(), spans[0]);
        lemma_merge_from_of_untouched(merged);
    }
}

proof fn lemma_merge_from_canonical(rest: Seq<Span>, cur: Span, bound: nat)
    requires
        appearance_ordered(rest),
        spans_within(rest, bound),
        cur.start <= cur.end <= bound,
        rest.len() > 0 ==> cur.end <= rest[0].start,
    ensures
        canonical_spans(merge_from(rest, cur), bound),
    decreases rest.len(),
{
    if rest.len() == 0 {
    } else {
        let rest2 = rest.drop_first();
        assert(appearance_ordered(rest2) && spans_within(rest2, bound)) by {
            assert(forall|i: int|
                0 <= i < rest2.len() ==> rest2[i] == rest[i + 1]);
        }
        if cur.end == rest[0].start {
            lemma_merge_from_canonical(
                rest2,
                Span { start: cur.start, end: rest[0].end },
                bound,
            );
        } else {
            lemma_merge_from_canonical(rest2, rest[0], bound);
            lemma_merge_from_first(rest2, rest[0]);
            let tail = merge_from(rest2, rest[0]);
            let out = seq![cur] + tail;
            assert forall|i: int| 0 <= i < out.len() implies (#[trigger] out[i]).start <= out[i].end
                <= bound by {
                assert(forall|i: int| 1 <= i < out.len() ==> out[i] == tail[i - 1]);
            }
            assert forall|i: int| 0 <= i < out.len() - 1 implies out[i].end < out[i + 1].start by {
                if i == 0 {
                    assert(out[1] == tail[0]);
                    assert(tail[0].start == rest[0].start);
                } else {
                    assert(out[i] == tail[i - 1]);
                    assert(out[i + 1] == tail[i]);
                }
            }
        }
    }
}

/// An appearance-ordered, bounded span list merges to canonical form.
pub proof fn lemma_merge_canonical(spans: Seq<Span>, bound: nat)
    requires
        appearance_ordered(spans),
        spans_within(spans, bound),
    ensures
        canonical_spans(merge_spans(spans), bound),
{
    if spans.len() > 0 {
        let rest = spans.drop_first();
        assert(appearance_ordered(rest) && spans_within(rest, bound)) by {
            assert(forall|i: int| 0 <= i < rest.len() ==> rest[i] == spans[i + 1]);
        }
        lemma_merge_from_canonical(rest, spans[0], bound);
    }
}

/// Number of bytes of the UTF-8 encoding of a character sequence.
pub open spec fn byte_len(s: Seq<char>) -> nat {
    vstd::utf8::encode_utf8(s).len()
}

/// A snippet: a display fragment and the merged byte spans highlighted in it.
#[derive(Clone, Debug)]
pub struct Snippet {
    pub fragments: String,
    /// Positions of highlighted segments in `fragments`.
    ///
    /// Empty when nothing of the fragment matched.
    pub highlighted_positions: Vec<Span>,
}

/// Invariant of a snippet built from an appearance-ordered rendering:
/// its spans are in canonical merged form and stay within the fragment.
pub open spec fn snippet_inv(s: Snippet) -> bool {
    canonical_spans(s.highlighted_positions@, byte_len(s.fragments@))
}

impl Snippet {
    /// Build a snippet from a fragment and raw highlighted positions,
    /// merging touching positions: `1..2` and `2..3` become `1..3`.
    pub fn new(fragments: String, highlighted_positions: Vec<Span>) -> (s: Snippet)
        ensures
            s.fragments@ == fragments@,
            s.highlighted_positions@ == merge_spans(highlighted_positions@),
            appearance_ordered(highlighted_positions@) && spans_within(
                highlighted_positions@,
                byte_len(fragments@),
            ) ==> snippet_inv(s),
    {
        proof {
            if appearance_ordered(highlighted_positions@) && spans_within(
                highlighted_positions@,
                byte_len(fragments@),
            ) {
                lemma_merge_canonical(highlighted_positions@, byte_len(fragments@));
            }
        }
        let merged = merge_span_list(&highlighted_positions);
        Snippet { fragments, highlighted_positions: merged }
    }
}

/// The first `max` characters of `s`; `s` itself when it is shorter.
pub open spec fn truncated_chars(s: Seq<char>, max: nat) -> Seq<char> {
    if s.len() <= max {
        s
    } else {
        s.take(max as int)
    }
}

/// First `max` characters of `text`; `text` itself when it is shorter.
pub fn truncate_chars(text: &str, max: usize) -> (r: String)
    ensures
        r@ == truncated_chars(text@, max as nat),
        r@.len() <= max,
{
    if text.unicode_len() <= max {
        text.to_owned()
    } else {
        let cut = text.substring_char(0, max);
        cut.to_owned()
    }
}

/// The spans that still end inside a fragment of `bound` bytes, in their
/// given order.
pub open spec fn clip_spans(spans: Seq<Span>, bound: nat) -> Seq<Span>
    decreases spans.len(),
{
    if spans.len() == 0 {
        Seq::<Span>::empty()
    } else if spans[0].end <= bound {
        seq![spans[0]] + clip_spans(spans.drop_first(), bound)
    } else {
        clip_spans(spans.drop_first(), bound)
    }
}

proof fn lemma_clip_spans_within(spans: Seq<Span>, bound: nat)
    ensures
        spans_within(clip_spans(spans, bound), bound),
    decreases spans.len(),
{
    if spans.len() == 0 {
    } else {
        let rest = spans.drop_first();
        lemma_clip_spans_within(rest, bound);
        if spans[0].end <= bound {
            let out = seq![spans[0]] + clip_spans(rest, bound);
            assert(forall|i: int| 1 <= i < out.len() ==> out[i] == clip_spans(rest, bound)[i - 1]);
        }
    }
}

proof fn lemma_clip_spans_ordered(spans: Seq<Span>, bound: nat)
    requires
        appearance_ordered(spans),
    ensures
        appearance_ordered(clip_spans(spans, bound)),
        clip_spans(spans, bound).len() > 0 && spans.len() > 0 ==> spans[0].start <= clip_spans(
            spans,
            bound,
        )[0].start,
    decreases spans.len(),
{
    if spans.len() == 0 {
    } else {
        let rest = spans.drop_first();
        assert(appearance_ordered(rest)) by {
            assert(forall|i: int| 0 <= i < rest.len() ==> rest[i] == spans[i + 1]);
        }
        lemma_clip_spans_ordered(rest, bound);
        let tail = clip_spans(rest, bound);
        if spans[0].end <= bound {
            let out = seq![spans[0]] + tail;
            assert forall|i: int| 0 <= i < out.len() implies out[i].start <= out[i].end by {
                if i > 0 {
                    assert(out[i] == tail[i - 1]);
                }
            }
            assert forall|i: int| 0 <= i < out.len() - 1 implies out[i].end <= out[i + 1].start by {
                if i == 0 {
                    assert(out[1] == tail[0]);
                    if rest.len() > 0 {
                        assert(spans[0].end <= rest[0].start <= rest[0].end);
                    }
                } else {
                    assert(out[i] == tail[i - 1] && out[i + 1] == tail[i]);
                }
            }
        } else {
            if tail.len() > 0 && rest.len() > 0 {
                assert(spans[0].start <= spans[0].end <= rest[0].start <= tail[0].start);
            }
        }
    }
}

/// Keep the spans that end inside a fragment of `bound` bytes.
fn clamp_spans(spans: &Vec<Span>, bound: usize) -> (r: Vec<Span>)
    ensures
        r@ == clip_spans(spans@, bound as nat),
{
    let mut kept: Vec<Span> = Vec::new();
    let n = spans.len();
    let mut i: usize = 0;
    proof {
        assert(spans@.skip(0) =~= spans@);
        assert(kept@ + clip_spans(spans@, bound as nat) =~= clip_spans(spans@, bound as nat));
    }
    while i < n
        invariant
            n == spans@.len(),
            0 <= i <= n,
            clip_spans(spans@, bound as nat) == kept@ + clip_spans(
                spans@.skip(i as int),
                bound as nat,
            ),
        decreases n - i,
    {
        let next = spans[i];
        proof {
            assert(spans@.skip(i as int)[0] == spans@[i as int]);
            assert(spans@.skip(i as int).drop_first() =~= spans@.skip(i as int + 1));
        }
        if next.end <= bound {
            kept.push(next);
            proof {
                assert(kept@ + clip_spans(spans@.skip(i as int + 1), bound as nat)
                    =~= kept@.drop_last() + clip_spans(spans@.skip(i as int), bound as nat));
            }
        }
        i = i + 1;
    }
    proof {
        assert(spans@.skip(n as int) =~= Seq::<Span>::empty());
        assert(clip_spans(spans@, bound as nat) =~= kept@);
    }
    kept
}

/// A rendered snippet, held to its limit: the fragment cut to `max_chars`
/// characters, the spans that survive the cut merged.  The collaborator's
/// generator already aims for the limit; this makes it a proved bound.
pub fn rendered_snippet(fragments: String, highlighted_positions: Vec<Span>, max_chars: usize) -> (s:
    Snippet)
    ensures
        s.fragments@ == truncated_chars(fragments@, max_chars as nat),
        s.fragments@.len() <= max_chars,
        fragments@.len() > 0 && max_chars > 0 ==> s.fragments@.len() > 0,
        s.highlighted_positions@ == merge_spans(
            clip_spans(highlighted_positions@, byte_len(s.fragments@)),
        ),
        appearance_ordered(highlighted_positions@) ==> snippet_inv(s),
{
    let fragment = truncate_chars(fragments.as_str(), max_chars);
    let byte_bound = fragment.as_str().as_bytes().len();
    proof {
        assert(byte_bound == byte_len(fragment@));
    }
    let kept = clamp_spans(&highlighted_positions, byte_bound);
    proof {
        lemma_clip_spans_within(highlighted_positions@, byte_len(fragment@));
        if appearance_ordered(highlighted_positions@) {
            lemma_clip_spans_ordered(highlighted_positions@, byte_len(fragment@));
        }
    }
    Snippet::new(fragment, kept)
}

/// Title shown when the rendered title fragment is empty: the verbatim
/// stored title, cut to `MAX_TITLE_LENGTH` characters, with no highlights.
pub fn fallback_title_snippet(stored_title: &str) -> (s: Snippet)
    ensures
        s.fragments@ == truncated_chars(stored_title@, crate::common::MAX_TITLE_LENGTH as nat),
        s.fragments@.len() <= crate::common::MAX_TITLE_LENGTH,
        s.highlighted_positions@.len() == 0,
        snippet_inv(s),
{
    Snippet {
        fragments: truncate_chars(stored_title, crate::common::MAX_TITLE_LENGTH),
        highlighted_positions: Vec::new(),
    }
}

/// Title rule: the rendered snippet, held to the title limit, when the
/// rendered fragment is non-empty; exactly when it is empty, the verbatim
/// stored title instead, unhighlighted — and an error when that stored
/// title is missing.
pub fn title_snippet_choice(
    fragments: String,
    highlighted_positions: Vec<Span>,
    stored_title: Option<String>,
) -> (r: Result<Snippet, crate::common::UserError>)
    ensures
        fragments@.len() > 0 ==> (r matches Ok(s) && s.fragments@ == truncated_chars(
            fragments@,
            crate::common::MAX_TITLE_LENGTH as nat,
        ) && s.highlighted_positions@ == merge_spans(
            clip_spans(highlighted_positions@, byte_len(s.fragments@)),
        ) && s.fragments@.len() <= crate::common::MAX_TITLE_LENGTH && (appearance_ordered(
            highlighted_positions@,
        ) ==> snippet_inv(s))),
        fragments@.len() == 0 ==> (stored_title matches Some(title) ==> (r matches Ok(s)
            && s.fragments@ == truncated_chars(title@, crate::common::MAX_TITLE_LENGTH as nat)
            && s.highlighted_positions@.len() == 0 && s.fragments@.len()
            <= crate::common::MAX_TITLE_LENGTH && snippet_inv(s))),
        r is Err <==> (fragments@.len() == 0 && stored_title is None),
{
    if fragments.as_str().is_empty() {
        // The fallback triggers exactly here: the rendered fragment is
        // empty, whatever the raw highlight list held.
        match stored_title {
            Some(title) => Ok(fallback_title_snippet(title.as_str())),
            None => Err(
                crate::common::UserError::Unexpected(String::from_str("Can't find title field")),
            ),
        }
    } else {
        Ok(rendered_snippet(fragments, highlighted_positions, crate::common::MAX_TITLE_LENGTH))
    }
}

/// Code snippet rule: absent exactly when the rendered fragment is empty;
/// present, it is the rendered snippet held to `max_chars` characters.
pub fn code_snippet_option(
    fragments: String,
    highlighted_positions: Vec<Span>,
    max_chars: usize,
) -> (r: Option<Snippet>)
    ensures
        r is None <==> fragments@.len() == 0,
        r matches Some(s) ==> {
            &&& s.fragments@ == truncated_chars(fragments@, max_chars as nat)
            &&& s.fragments@.len() <= max_chars
            &&& max_chars > 0 ==> s.fragments@.len() > 0
            &&& s.highlighted_positions@ == merge_spans(
                clip_spans(highlighted_positions@, byte_len(s.fragments@)),
            )
            &&& appearance_ordered(highlighted_positions@) ==> snippet_inv(s)
        },
{
    if fragments.as_str().is_empty() {
        None
    } else {
        Some(rendered_snippet(fragments, highlighted_positions, max_chars))
    }
}

/// Merge an appearance-ordered list of spans, as the running-span rule says.
pub fn merge_span_list(spans: &Vec<Span>) -> (merged: Vec<Span>)
    ensures
        merged@ == merge_spans(spans@),
{
    let mut merged: Vec<Span> = Vec::new();
    let mut cur: Option<Span> = None;
    let n = spans.len();
    let mut i: usize = 0;
    while i < n
        invariant
            n == spans@.len(),
            0 <= i <= n,
            i == 0 ==> cur is None && merged@.len() == 0,
            i > 0 ==> cur is Some && merge_spans(spans@) == merged@ + merge_from(
                spans@.skip(i as int),
                cur->0,
            ),
        decreases n - i,
    {
        let next = spans[i];
        match cur {
            None => {
                cur = Some(next);
                assert(spans@.skip(1) =~= spans@.drop_first());
            },
            Some(running) => {
                proof {
                    assert(spans@.skip(i as int)[0] == spans@[i as int]);
                    assert(spans@.skip(i as int).drop_first() =~= spans@.skip(i as int + 1));
                }
                if running.end == next.start {
                    cur = Some(Span { start: running.start, end: next.end });
                } else {
                    merged.push(running);
                    cur = Some(next);
                }
            },
        }
        i = i + 1;
    }
    match cur {
        None => {
            assert(merge_spans(spans@) =~= merged@);
        },
        Some(running) => {
            proof {
                assert(spans@.skip(n as int) =~= Seq::<Span>::empty());
                assert(merge_from(spans@.skip(n as int), running) =~= seq![running]);
            }
            merged.push(running);
        },
    }
    merged
}

} // verus!
