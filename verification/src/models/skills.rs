//! The skills section: logos resolved against the asset CDN, skills listed
//! from the highest level down.

use vstd::prelude::*;
use vstd::string::*;
use crate::ordering::{has_key, key_class, stable_sort_by_key, stable_sort_of, SortKey};
use crate::text::{has_prefix, starts_with, trim_end_char, trim_leading, trim_start_char, trim_trailing};

verus! {

/// The skills section.
#[derive(Debug, Clone)]
pub struct Skills {
    pub items: Vec<SkillItem>,
}

/// One skill with its level and logo.
#[derive(Debug, Clone)]
pub struct SkillItem {
    pub name: String,
    pub level: i32,
    pub logo: String,
    pub logo_color: String,
    pub category: Option<String>,
}

/// Skills are listed from the highest level down.
impl SortKey for SkillItem {
    open spec fn sort_key(&self) -> int {
        -(self.level as int)
    }

    fn key(&self) -> (k: i64) {
        0 - (self.level as i64)
    }
}

/// Where a logo is served from: a logo that starts with `http` is already an
/// address and stays as it is; any other is a path under the CDN base
/// (without its trailing slashes), joined by one `/` to the path without its
/// leading slashes.
pub open spec fn logo_url(logo: Seq<char>, cdn_base_url: Seq<char>) -> Seq<char> {
    if has_prefix(logo, "http"@) {
        logo
    } else {
        trim_trailing(cdn_base_url, '/') + seq!['/'] + trim_leading(logo, '/')
    }
}

/// `a` is `b` with its logo resolved against `cdn_base_url`; every other
/// field is the same.
pub open spec fn logo_resolved(a: SkillItem, b: SkillItem, cdn_base_url: Seq<char>) -> bool {
    &&& a.name == b.name
    &&& a.level == b.level
    &&& a.logo_color == b.logo_color
    &&& a.category == b.category
    &&& a.logo@ == logo_url(b.logo@, cdn_base_url)
}

/// `level` never increases along `s`: highest level first.
pub open spec fn listed_by_level(s: Seq<SkillItem>) -> bool {
    forall|i: int, j: int| 0 <= i <= j < s.len() ==> s[i].level >= s[j].level
}

/// The skills of `s` whose `level` is `l`, in their order in `s`.
pub open spec fn with_level(s: Seq<SkillItem>, l: int) -> Seq<SkillItem> {
    s.filter(|x: SkillItem| x.level == l)
}

/// Listing skills stably by key lists them by `level`, highest first, and
/// skills that share a level keep their order.
pub proof fn lemma_skills_listing(listed: Seq<SkillItem>, stored: Seq<SkillItem>)
    requires
        stable_sort_of(listed, stored),
    ensures
        listed_by_level(listed),
        forall|l: int| #[trigger] with_level(listed, l) == with_level(stored, l),
{
    assert forall|l: int| #[trigger] with_level(listed, l) == with_level(stored, l) by {
        assert(has_key::<SkillItem>(-l) =~= (|x: SkillItem| x.level == l));
        assert(key_class(listed, -l) == key_class(stored, -l));
    }
}

fn join_logo(base: &str, logo: &str) -> (r: String)
    ensures
        r@ == base@ + seq!['/'] + trim_leading(logo@, '/'),
{
    let mut r = String::from_str(base);
    let slash = "/";
    proof { reveal_strlit("/"); }
    r.append(slash);
    r.append(trim_start_char(logo, '/'));
    r
}

impl Skills {
    /// Resolves every logo against `cdn_base_url`, then lists the skills by
    /// level, highest first, keeping the stored order among equal levels.
    pub fn arrange(&mut self, cdn_base_url: &str)
        ensures
            exists|resolved: Seq<SkillItem>| {
                &&& resolved.len() == old(self).items@.len()
                &&& forall|i: int| 0 <= i < resolved.len() ==> logo_resolved(#[trigger] resolved[i], old(self).items@[i], cdn_base_url@)
                &&& stable_sort_of(final(self).items@, resolved)
                &&& forall|l: int| #[trigger] with_level(final(self).items@, l) == with_level(resolved, l)
            },
            listed_by_level(final(self).items@),
    {
        let base = trim_end_char(cdn_base_url, '/');
        let mut items: Vec<SkillItem> = Vec::new();
        std::mem::swap(&mut items, &mut self.items);
        let ghost orig = items@;
        let n = items.len();
        let mut resolved: Vec<SkillItem> = Vec::new();
        let mut i: usize = 0;
        while i < n
            invariant
                n == orig.len(),
                i <= n,
                items@ == orig.skip(i as int),
                resolved@.len() == i,
                base@ == trim_trailing(cdn_base_url@, '/'),
                forall|j: int| 0 <= j < i ==> logo_resolved(#[trigger] resolved@[j], orig[j], cdn_base_url@),
            decreases n - i,
        {
            let mut skill = items.remove(0);
            assert(skill == orig[i as int]);
            if !starts_with(skill.logo.as_str(), "http") {
                let url = join_logo(base, skill.logo.as_str());
                skill.logo = url;
            }
            resolved.push(skill);
            assert(items@ =~= orig.skip(i + 1));
            i = i + 1;
        }
        let ghost prepared = resolved@;
        self.items = stable_sort_by_key(resolved);
        assert(forall|j: int| 0 <= j < prepared.len() ==> logo_resolved(#[trigger] prepared[j], orig[j], cdn_base_url@));
        assert(stable_sort_of(self.items@, prepared));
        proof { lemma_skills_listing(self.items@, prepared); }
    }
}

} // verus!
