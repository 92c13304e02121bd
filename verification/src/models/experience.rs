//! The experience section: employers listed by `order`, and each employer's
//! positions listed by their own `order`.

use vstd::prelude::*;
use crate::ordering::{has_key, key_class, stable_sort_by_key, stable_sort_of, SortKey};

verus! {

/// The experience section.
#[derive(Debug, Clone)]
pub struct Experience {
    pub items: Vec<ExperienceItem>,
}

/// One employer.
#[derive(Debug, Clone)]
pub struct ExperienceItem {
    pub company: String,
    pub company_url: String,
    pub start: String,
    pub end: Option<String>,
    pub current: bool,
    pub order: i32,
    pub career: Vec<ExperienceCareer>,
}

/// One position held at an employer.
#[derive(Debug, Clone)]
pub struct ExperienceCareer {
    pub position: String,
    pub location: String,
    pub start: String,
    pub end: Option<String>,
    pub current: bool,
    pub order: i32,
    pub description: Vec<String>,
}

impl SortKey for ExperienceItem {
    open spec fn sort_key(&self) -> int {
        self.order as int
    }

    fn key(&self) -> (k: i64) {
        self.order as i64
    }
}

impl SortKey for ExperienceCareer {
    open spec fn sort_key(&self) -> int {
        self.order as int
    }

    fn key(&self) -> (k: i64) {
        self.order as i64
    }
}

/// Employer `order` never decreases along `s`.
pub open spec fn employers_by_order(s: Seq<ExperienceItem>) -> bool {
    forall|i: int, j: int| 0 <= i <= j < s.len() ==> s[i].order <= s[j].order
}

/// The employers of `s` whose `order` is `k`, in their order in `s`.
pub open spec fn employers_with_order(s: Seq<ExperienceItem>, k: int) -> Seq<ExperienceItem> {
    s.filter(|x: ExperienceItem| x.order == k)
}

/// Position `order` never decreases along `s`.
pub open spec fn positions_by_order(s: Seq<ExperienceCareer>) -> bool {
    forall|i: int, j: int| 0 <= i <= j < s.len() ==> s[i].order <= s[j].order
}

/// The positions of `s` whose `order` is `k`, in their order in `s`.
pub open spec fn positions_with_order(s: Seq<ExperienceCareer>, k: int) -> Seq<ExperienceCareer> {
    s.filter(|x: ExperienceCareer| x.order == k)
}

/// Listing employers stably by key lists them by `order`, lowest first, and
/// employers that share an `order` keep their stored order.
pub proof fn lemma_employer_listing(listed: Seq<ExperienceItem>, stored: Seq<ExperienceItem>)
    requires
        stable_sort_of(listed, stored),
    ensures
        employers_by_order(listed),
        forall|k: int| #[trigger] employers_with_order(listed, k) == employers_with_order(stored, k),
{
    assert forall|k: int| #[trigger] employers_with_order(listed, k) == employers_with_order(stored, k) by {
        assert(has_key::<ExperienceItem>(k) =~= (|x: ExperienceItem| x.order == k));
        assert(key_class(listed, k) == key_class(stored, k));
    }
}

/// Listing positions stably by key lists them by `order`, lowest first, and
/// positions that share an `order` keep their stored order.
pub proof fn lemma_position_listing(listed: Seq<ExperienceCareer>, stored: Seq<ExperienceCareer>)
    requires
        stable_sort_of(listed, stored),
    ensures
        positions_by_order(listed),
        forall|k: int| #[trigger] positions_with_order(listed, k) == positions_with_order(stored, k),
{
    assert forall|k: int| #[trigger] positions_with_order(listed, k) == positions_with_order(stored, k) by {
        assert(has_key::<ExperienceCareer>(k) =~= (|x: ExperienceCareer| x.order == k));
        assert(key_class(listed, k) == key_class(stored, k));
    }
}

/// `a` is `b` with its positions listed stably by `order` (lowest first,
/// equal orders in stored order); every other field is the same.
pub open spec fn career_arranged(a: ExperienceItem, b: ExperienceItem) -> bool {
    &&& a.company == b.company
    &&& a.company_url == b.company_url
    &&& a.start == b.start
    &&& a.end == b.end
    &&& a.current == b.current
    &&& a.order == b.order
    &&& stable_sort_of(a.career@, b.career@)
    &&& positions_by_order(a.career@)
    &&& forall|k: int| #[trigger] positions_with_order(a.career@, k) == positions_with_order(b.career@, k)
}

impl Experience {
    /// Lists the employers by `order` and, within each, the positions by
    /// `order`; equal keys keep their stored order.
    pub fn arrange(&mut self)
        ensures
            exists|by_order: Seq<ExperienceItem>| {
                &&& stable_sort_of(by_order, old(self).items@)
                &&& employers_by_order(by_order)
                &&& forall|k: int| #[trigger] employers_with_order(by_order, k) == employers_with_order(old(self).items@, k)
                &&& final(self).items@.len() == by_order.len()
                &&& forall|i: int| 0 <= i < by_order.len() ==> career_arranged(#[trigger] final(self).items@[i], by_order[i])
            },
            employers_by_order(final(self).items@),
    {
        let mut items: Vec<ExperienceItem> = Vec::new();
        std::mem::swap(&mut items, &mut self.items);
        let mut sorted = stable_sort_by_key(items);
        let ghost by_order = sorted@;
        let mut arranged: Vec<ExperienceItem> = Vec::new();
        let n = sorted.len();
        let mut i: usize = 0;
        while i < n
            invariant
                n == by_order.len(),
                i <= n,
                sorted@ == by_order.skip(i as int),
                arranged@.len() == i,
                forall|j: int| 0 <= j < i ==> career_arranged(#[trigger] arranged@[j], by_order[j]),
            decreases n - i,
        {
            let ghost before = sorted@;
            let mut item = sorted.remove(0);
            assert(item == by_order[i as int]);
            let mut career: Vec<ExperienceCareer> = Vec::new();
            std::mem::swap(&mut career, &mut item.career);
            let ghost stored_career = career@;
            item.career = stable_sort_by_key(career);
            proof { lemma_position_listing(item.career@, stored_career); }
            arranged.push(item);
            assert(sorted@ =~= by_order.skip(i + 1));
            i = i + 1;
        }
        proof {
            lemma_employer_listing(by_order, old(self).items@);
            assert forall|a: int, b: int| 0 <= a <= b < arranged@.len() implies arranged@[a].order <= arranged@[b].order by {
                assert(career_arranged(arranged@[a], by_order[a]));
                assert(career_arranged(arranged@[b], by_order[b]));
            }
        }
        self.items = arranged;
    }
}

} // verus!
