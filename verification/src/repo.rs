//! Reading sections: the cache key of a section, the two steps around a
//! table read, the "not found" rule, and the assembly of the whole profile.

use vstd::prelude::*;
use vstd::string::*;
use crate::cache::{fresh_value, lemma_insert_keeps_other_keys, SectionCache};
use crate::error::ApiError;
use crate::json::{json_object_entries, json_object_insert, json_object_with_capacity};
use crate::models::StoredSection;
use crate::text::{append_decimal, decimal, lemma_decimal_facts};

verus! {

/// The key a section is cached under: the profile id in decimal, `:`, and
/// the section type.
pub open spec fn section_cache_key(id: int, section_type: Seq<char>) -> Seq<char> {
    decimal(id) + seq![':'] + section_type
}

/// The profile this deployment serves.
pub fn profile_id() -> (id: i64)
    ensures
        id == 1,
{
    1
}

/// The cache key of section `section_type` of profile `id`.
pub fn cache_key(id: i64, section_type: &str) -> (k: String)
    ensures
        k@ == section_cache_key(id as int, section_type@),
{
    let mut k = String::new();
    append_decimal(&mut k, id);
    let colon = ":";
    proof { reveal_strlit(":"); }
    k.append(colon);
    k.append(section_type);
    assert(k@ =~= section_cache_key(id as int, section_type@));
    k
}

/// Distinct sections never share a cache key.
pub proof fn lemma_cache_key_injective(id1: int, type1: Seq<char>, id2: int, type2: Seq<char>)
    requires
        section_cache_key(id1, type1) == section_cache_key(id2, type2),
    ensures
        id1 == id2,
        type1 == type2,
{
    lemma_decimal_facts(id1, id2);
    lemma_decimal_facts(id2, id1);
    let k = section_cache_key(id1, type1);
    let n1 = decimal(id1).len();
    let n2 = decimal(id2).len();
    if n1 < n2 {
        assert(k[n1 as int] == ':');
        assert(section_cache_key(id2, type2)[n1 as int] == decimal(id2)[n1 as int]);
    } else if n2 < n1 {
        assert(section_cache_key(id2, type2)[n2 as int] == ':');
        assert(k[n2 as int] == decimal(id1)[n2 as int]);
    } else {
        assert(decimal(id1) =~= k.take(n1 as int));
        assert(decimal(id2) =~= section_cache_key(id2, type2).take(n1 as int));
        assert(type1 =~= k.skip(n1 as int + 1));
        assert(type2 =~= section_cache_key(id2, type2).skip(n1 as int + 1));
    }
}

/// First step of reading a section at instant `now`: the cache key, and the
/// cached document if it is still fresh. When nothing comes back the table
/// is read.
pub fn cached_section_at(cache: &SectionCache, id: i64, section_type: &str, now: u128) -> (r: (
    String,
    Option<serde_json::Value>,
))
    ensures
        r.0@ == section_cache_key(id as int, section_type@),
        r.1 == fresh_value(cache.contents(), cache.ttl(), r.0@, now),
{
    let key = cache_key(id, section_type);
    let hit = cache.get_at(key.as_str(), now);
    (key, hit)
}

/// First step of reading a section now: the cache key, and the cached
/// document if the cache still serves it.
pub fn cached_section(cache: &SectionCache, id: i64, section_type: &str) -> (r: (
    String,
    Option<serde_json::Value>,
))
    ensures
        r.0@ == section_cache_key(id as int, section_type@),
        exists|now: u128| r.1 == fresh_value(cache.contents(), cache.ttl(), r.0@, now),
        r.1 matches Some(v) ==> cache.contents().contains_key(r.0@) && cache.contents()[r.0@].0 == v,
{
    let key = cache_key(id, section_type);
    let hit = cache.get(key.as_str());
    (key, hit)
}

/// Second step of reading a section, after the table was read at instant
/// `now`: a found document is cached under `key` and handed back; a missing
/// one leaves the cache as it was.
pub fn record_fetched_section_at(
    cache: &mut SectionCache,
    key: String,
    fetched: Option<serde_json::Value>,
    now: u128,
) -> (r: Option<serde_json::Value>)
    ensures
        r == fetched,
        final(cache).ttl() == old(cache).ttl(),
        final(cache).contents() == match fetched {
            Some(v) => old(cache).contents().insert(key@, (v, now)),
            None => old(cache).contents(),
        },
{
    match fetched {
        Some(v) => {
            cache.insert_at(key, v.clone(), now);
            Some(v)
        },
        None => None,
    }
}

/// Second step of reading a section, after the table was read: a found
/// document is cached under `key`, stamped now, and handed back.
pub fn record_fetched_section(cache: &mut SectionCache, key: String, fetched: Option<serde_json::Value>) -> (r: Option<serde_json::Value>)
    ensures
        r == fetched,
        final(cache).ttl() == old(cache).ttl(),
        fetched is None ==> final(cache).contents() == old(cache).contents(),
        fetched matches Some(v) ==> exists|now: u128| final(cache).contents() == old(cache).contents().insert(key@, (v, now)),
{
    match fetched {
        Some(v) => {
            cache.insert(key, v.clone());
            Some(v)
        },
        None => None,
    }
}

/// A section that must exist: a missing one is `SectionNotFound` naming its type.
pub fn require_section<T>(section: Option<T>, section_type: &'static str) -> (r: Result<T, ApiError>)
    ensures
        match section {
            Some(s) => r == Ok::<T, ApiError>(s),
            None => r matches Err(ApiError::SectionNotFound(t)) && t@ == section_type@,
        },
{
    match section {
        Some(s) => Ok(s),
        None => Err(ApiError::SectionNotFound(section_type)),
    }
}

/// The profile object built from `(type, data)` pairs in order: each type
/// maps to its data, a later pair of the same type replacing an earlier one.
pub open spec fn profile_entries(s: Seq<(Seq<char>, serde_json::Value)>) -> Map<Seq<char>, serde_json::Value>
    decreases s.len(),
{
    if s.len() == 0 {
        Map::empty()
    } else {
        profile_entries(s.drop_last()).insert(s.last().0, s.last().1)
    }
}

/// The `(type, data)` pairs of a list of sections.
pub open spec fn typed_data(s: Seq<StoredSection<serde_json::Value>>) -> Seq<(Seq<char>, serde_json::Value)> {
    s.map_values(|x: StoredSection<serde_json::Value>| (x.section_type@, x.data))
}

/// The whole profile as one JSON object: each section's data under its type.
pub fn profile_response(sections: Vec<StoredSection<serde_json::Value>>) -> (r: serde_json::Map<String, serde_json::Value>)
    ensures
        json_object_entries(r) == profile_entries(typed_data(sections@)),
{
    let ghost orig = sections@;
    let n = sections.len();
    let mut rest = sections;
    let mut response = json_object_with_capacity(n);
    let mut i: usize = 0;
    assert(typed_data(orig).take(0) =~= Seq::<(Seq<char>, serde_json::Value)>::empty());
    while i < n
        invariant
            n == orig.len(),
            i <= n,
            rest@ == orig.skip(i as int),
            json_object_entries(response) == profile_entries(typed_data(orig).take(i as int)),
        decreases n - i,
    {
        let section = rest.remove(0);
        assert(section == orig[i as int]);
        let ghost prefix = typed_data(orig).take(i + 1);
        assert(prefix.drop_last() =~= typed_data(orig).take(i as int));
        json_object_insert(&mut response, section.section_type, section.data);
        assert(rest@ =~= orig.skip(i + 1));
        i = i + 1;
    }
    assert(typed_data(orig).take(n as int) =~= typed_data(orig));
    response
}

/// In the profile object a type maps to the data of the last section of that
/// type, and types that no section has are absent.
pub proof fn lemma_profile_last_wins(s: Seq<(Seq<char>, serde_json::Value)>, t: Seq<char>)
    ensures
        (exists|i: int| 0 <= i < s.len() && s[i].0 == t) == profile_entries(s).contains_key(t),
        forall|i: int| 0 <= i < s.len() && s[i].0 == t && (forall|j: int| i < j < s.len() ==> s[j].0 != t)
            ==> profile_entries(s)[t] == #[trigger] s[i].1,
    decreases s.len(),
{
    if s.len() > 0 {
        let u = s.drop_last();
        lemma_profile_last_wins(u, t);
        if exists|i: int| 0 <= i < s.len() && s[i].0 == t {
            if s.last().0 != t {
                let i = choose|i: int| 0 <= i < s.len() && s[i].0 == t;
                assert(u[i].0 == t);
            }
        }
        if profile_entries(s).contains_key(t) && s.last().0 != t {
            let i = choose|i: int| 0 <= i < u.len() && u[i].0 == t;
            assert(s[i].0 == t);
        }
        assert forall|i: int| 0 <= i < s.len() && s[i].0 == t && (forall|j: int| i < j < s.len() ==> s[j].0 != t)
            implies profile_entries(s)[t] == #[trigger] s[i].1 by {
            if i < s.len() - 1 {
                assert(s[s.len() - 1].0 != t);
                assert(u[i] == s[i]);
                assert(forall|j: int| i < j < u.len() ==> u[j] == s[j]);
            }
        }
    }
}


/// Recording a fetched section never changes what is served for any other
/// section, of this profile or another.
pub proof fn lemma_recording_keeps_other_sections(
    contents: Map<Seq<char>, (serde_json::Value, u128)>,
    ttl: u128,
    id: int,
    section_type: Seq<char>,
    value: serde_json::Value,
    stored_at: u128,
    other_id: int,
    other_type: Seq<char>,
    now: u128,
)
    requires
        id != other_id || section_type != other_type,
    ensures
        fresh_value(
            contents.insert(section_cache_key(id, section_type), (value, stored_at)),
            ttl,
            section_cache_key(other_id, other_type),
            now,
        ) == fresh_value(contents, ttl, section_cache_key(other_id, other_type), now),
{
    if section_cache_key(id, section_type) == section_cache_key(other_id, other_type) {
        lemma_cache_key_injective(id, section_type, other_id, other_type);
    }
    lemma_insert_keeps_other_keys(
        contents,
        ttl,
        section_cache_key(id, section_type),
        value,
        stored_at,
        section_cache_key(other_id, other_type),
        now,
    );
}

} // verus!
