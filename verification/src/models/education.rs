//! The education section, listed by each item's `order`.

use vstd::prelude::*;
use crate::ordering::{has_key, key_class, stable_sort_by_key, stable_sort_of, SortKey};

verus! {

/// The education section.
#[derive(Debug, Clone)]
pub struct Education {
    pub items: Vec<EducationItem>,
}

/// One course of study.
#[derive(Debug, Clone)]
pub struct EducationItem {
    pub institution: String,
    pub institution_url: String,
    pub degree: String,
    pub field_of_study: String,
    pub start: String,
    pub end: Option<String>,
    pub current: bool,
    pub order: i32,
}

impl SortKey for EducationItem {
    open spec fn sort_key(&self) -> int {
        self.order as int
    }

    fn key(&self) -> (k: i64) {
        self.order as i64
    }
}

/// `order` never decreases along `s`.
pub open spec fn listed_by_order(s: Seq<EducationItem>) -> bool {
    forall|i: int, j: int| 0 <= i <= j < s.len() ==> s[i].order <= s[j].order
}

/// The items of `s` whose `order` is `k`, in their order in `s`.
pub open spec fn with_order(s: Seq<EducationItem>, k: int) -> Seq<EducationItem> {
    s.filter(|x: EducationItem| x.order == k)
}

/// Listing education stably by key lists it by `order`, lowest first, and
/// the items that share an `order` keep their stored order.
pub proof fn lemma_education_listing(listed: Seq<EducationItem>, stored: Seq<EducationItem>)
    requires
        stable_sort_of(listed, stored),
    ensures
        listed_by_order(listed),
        forall|k: int| #[trigger] with_order(listed, k) == with_order(stored, k),
{
    assert forall|k: int| #[trigger] with_order(listed, k) == with_order(stored, k) by {
        assert(has_key::<EducationItem>(k) =~= (|x: EducationItem| x.order == k));
        assert(key_class(listed, k) == key_class(stored, k));
    }
}

impl Education {
    /// Lists the items by `order`, keeping the stored order among equal ones.
    pub fn arrange(&mut self)
        ensures
            stable_sort_of(final(self).items@, old(self).items@),
            listed_by_order(final(self).items@),
            forall|k: int| #[trigger] with_order(final(self).items@, k) == with_order(old(self).items@, k),
    {
        let mut items: Vec<EducationItem> = Vec::new();
        std::mem::swap(&mut items, &mut self.items);
        self.items = stable_sort_by_key(items);
        proof { lemma_education_listing(self.items@, old(self).items@); }
    }
}

} // verus!
