//! The fixed six-field schema of the article index, as field handles.

use vstd::prelude::*;

verus! {

/// Field handles of the article schema, one per stored field.
///
/// Kept as handles so that lookups need no string comparison; they come
/// from the collaborator when the index is opened.
#[derive(Clone, Copy)]
pub struct ProjectDocument {
    pub title: tantivy::schema::Field,
    pub body: tantivy::schema::Field,
    pub code: tantivy::schema::Field,
    pub url: tantivy::schema::Field,
    pub time: tantivy::schema::Field,
    pub likes: tantivy::schema::Field,
}

} // verus!
