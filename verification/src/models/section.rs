//! A stored section: one row of the profile table.

use vstd::prelude::*;

verus! {

/// A section document with its key (`id`, `section_type`) and revision stamp.
#[derive(Debug, Clone)]
pub struct StoredSection<T> {
    pub id: i64,
    pub section_type: String,
    pub updated_at: i64,
    pub data: T,
}

} // verus!
