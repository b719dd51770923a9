//! The matchable query model and its construction rules.
//!
//! A simple-mode query is built from per-field token streams: a field with
//! no tokens contributes nothing, one token gives an exact term subquery,
//! two or more give a phrase subquery keeping the tokens' order and
//! positions.  Contributing subqueries are combined by logical OR.  A
//! parsed-mode query forwards the raw string to the collaborator's own
//! boolean mini-language parser.

use vstd::prelude::*;

verus! {

/// One token of an analyzer's output: its position in the stream and its text.
#[derive(Clone, Debug)]
pub struct Token {
    pub position: usize,
    pub text: String,
}

/// What one field contributes to a simple-mode query.
#[derive(Clone, Debug)]
pub enum Subquery {
    /// Exact one-term match in `field`.
    Term { field: tantivy::schema::Field, text: String },
    /// Tokens required contiguously, in order and at their relative
    /// positions, in `field`; always two or more terms.
    Phrase { field: tantivy::schema::Field, terms: Vec<(usize, String)> },
}

/// The simple-mode contribution rule, for one field and its token stream.
pub fn subquery_for_field(field: tantivy::schema::Field, tokens: &Vec<Token>) -> (r: Option<
    Subquery,
>)
    ensures
        r is None <==> tokens@.len() == 0,
        tokens@.len() == 1 ==> (r matches Some(Subquery::Term { field: f, text }) && f == field
            && text@ == tokens@[0].text@),
        tokens@.len() >= 2 ==> (r matches Some(Subquery::Phrase { field: f, terms }) && f == field
            && terms@.len() == tokens@.len() && (forall|i: int|
            0 <= i < tokens@.len() ==> (#[trigger] terms@[i]).0 == tokens@[i].position
                && terms@[i].1@ == tokens@[i].text@)),
{
    if tokens.len() == 0 {
        None
    } else if tokens.len() == 1 {
        Some(Subquery::Term { field, text: tokens[0].text.clone() })
    } else {
        let mut terms: Vec<(usize, String)> = Vec::new();
        let n = tokens.len();
        let mut i: usize = 0;
        while i < n
            invariant
                n == tokens@.len(),
                0 <= i <= n,
                terms@.len() == i,
                forall|j: int| 0 <= j < i ==> (#[trigger] terms@[j]).0 == tokens@[j].position
                    && terms@[j].1@ == tokens@[j].text@,
            decreases n - i,
        {
            terms.push((tokens[i].position, tokens[i].text.clone()));
            i = i + 1;
        }
        Some(Subquery::Phrase { field, terms })
    }
}

/// The field a subquery speaks for.
pub open spec fn subquery_field(q: Subquery) -> tantivy::schema::Field {
    match q {
        Subquery::Term { field, text: _ } => field,
        Subquery::Phrase { field, terms: _ } => field,
    }
}

/// A phrase subquery always carries at least two terms; term subqueries
/// carry none.  This is what the collaborator's phrase query requires.
pub open spec fn subquery_wf(q: Subquery) -> bool {
    q matches Subquery::Phrase { field: _, terms } ==> terms@.len() >= 2
}

pub open spec fn subqueries_wf(qs: Seq<Subquery>) -> bool {
    forall|i: int| 0 <= i < qs.len() ==> subquery_wf(#[trigger] qs[i])
}

} // verus!
