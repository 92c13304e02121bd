//! The testimonials section, listed by each item's `order`.

use vstd::prelude::*;
use crate::ordering::{has_key, key_class, stable_sort_by_key, stable_sort_of, SortKey};

verus! {

/// The testimonials section.
#[derive(Debug, Clone)]
pub struct Testimonials {
    pub items: Vec<TestimonialItem>,
}

/// One quote with its author.
#[derive(Debug, Clone)]
pub struct TestimonialItem {
    pub order: i32,
    pub quote: String,
    pub author_name: String,
    pub author_role: String,
    pub initials: String,
    pub gradient_start: Option<String>,
    pub gradient_end: Option<String>,
    pub quote_color: Option<String>,
}

impl SortKey for TestimonialItem {
    open spec fn sort_key(&self) -> int {
        self.order as int
    }

    fn key(&self) -> (k: i64) {
        self.order as i64
    }
}

/// `order` never decreases along `s`.
pub open spec fn listed_by_order(s: Seq<TestimonialItem>) -> bool {
    forall|i: int, j: int| 0 <= i <= j < s.len() ==> s[i].order <= s[j].order
}

/// The items of `s` whose `order` is `k`, in their order in `s`.
pub open spec fn with_order(s: Seq<TestimonialItem>, k: int) -> Seq<TestimonialItem> {
    s.filter(|x: TestimonialItem| x.order == k)
}

/// Listing testimonials stably by key lists them by `order`, lowest first, and
/// the items that share an `order` keep their stored order.
pub proof fn lemma_testimonials_listing(listed: Seq<TestimonialItem>, stored: Seq<TestimonialItem>)
    requires
        stable_sort_of(listed, stored),
    ensures
        listed_by_order(listed),
        forall|k: int| #[trigger] with_order(listed, k) == with_order(stored, k),
{
    assert forall|k: int| #[trigger] with_order(listed, k) == with_order(stored, k) by {
        assert(has_key::<TestimonialItem>(k) =~= (|x: TestimonialItem| x.order == k));
        assert(key_class(listed, k) == key_class(stored, k));
    }
}

impl Testimonials {
    /// Lists the items by `order`, keeping the stored order among equal ones.
    pub fn arrange(&mut self)
        ensures
            stable_sort_of(final(self).items@, old(self).items@),
            listed_by_order(final(self).items@),
            forall|k: int| #[trigger] with_order(final(self).items@, k) == with_order(old(self).items@, k),
    {
        let mut items: Vec<TestimonialItem> = Vec::new();
        std::mem::swap(&mut items, &mut self.items);
        self.items = stable_sort_by_key(items);
        proof { lemma_testimonials_listing(self.items@, old(self).items@); }
    }
}

} // verus!
