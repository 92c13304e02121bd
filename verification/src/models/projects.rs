//! The projects section, listed by each item's `order`.

use vstd::prelude::*;
use crate::ordering::{has_key, key_class, stable_sort_by_key, stable_sort_of, SortKey};

verus! {

/// The projects section.
#[derive(Debug, Clone)]
pub struct Projects {
    pub items: Vec<ProjectItem>,
}

/// One project card.
#[derive(Debug, Clone)]
pub struct ProjectItem {
    pub order: i32,
    pub title: String,
    pub description: String,
    pub url: String,
    pub tags: Vec<String>,
    pub badge: Option<String>,
    pub badge_variant: Option<ProjectBadgeVariant>,
    pub preview_title: Option<String>,
    pub preview_lines: Vec<ProjectPreviewLine>,
    pub accent_color: Option<String>,
}

/// The colour scheme of a project's badge.
#[derive(Debug, Clone, Copy, PartialEq, Eq)]
pub enum ProjectBadgeVariant {
    Green,
    Neutral,
    Orange,
}

/// One line of a project's preview.
#[derive(Debug, Clone)]
pub struct ProjectPreviewLine {
    pub segments: Vec<ProjectPreviewSegment>,
}

/// A run of preview text, optionally coloured.
#[derive(Debug, Clone)]
pub struct ProjectPreviewSegment {
    pub text: String,
    pub color: Option<String>,
}

impl SortKey for ProjectItem {
    open spec fn sort_key(&self) -> int {
        self.order as int
    }

    fn key(&self) -> (k: i64) {
        self.order as i64
    }
}

/// `order` never decreases along `s`.
pub open spec fn listed_by_order(s: Seq<ProjectItem>) -> bool {
    forall|i: int, j: int| 0 <= i <= j < s.len() ==> s[i].order <= s[j].order
}

/// The items of `s` whose `order` is `k`, in their order in `s`.
pub open spec fn with_order(s: Seq<ProjectItem>, k: int) -> Seq<ProjectItem> {
    s.filter(|x: ProjectItem| x.order == k)
}

/// Listing projects stably by key lists them by `order`, lowest first, and
/// the items that share an `order` keep their stored order.
pub proof fn lemma_projects_listing(listed: Seq<ProjectItem>, stored: Seq<ProjectItem>)
    requires
        stable_sort_of(listed, stored),
    ensures
        listed_by_order(listed),
        forall|k: int| #[trigger] with_order(listed, k) == with_order(stored, k),
{
    assert forall|k: int| #[trigger] with_order(listed, k) == with_order(stored, k) by {
        assert(has_key::<ProjectItem>(k) =~= (|x: ProjectItem| x.order == k));
        assert(key_class(listed, k) == key_class(stored, k));
    }
}

impl Projects {
    /// Lists the items by `order`, keeping the stored order among equal ones.
    pub fn arrange(&mut self)
        ensures
            stable_sort_of(final(self).items@, old(self).items@),
            listed_by_order(final(self).items@),
            forall|k: int| #[trigger] with_order(final(self).items@, k) == with_order(old(self).items@, k),
    {
        let mut items: Vec<ProjectItem> = Vec::new();
        std::mem::swap(&mut items, &mut self.items);
        self.items = stable_sort_by_key(items);
        proof { lemma_projects_listing(self.items@, old(self).items@); }
    }
}

} // verus!
