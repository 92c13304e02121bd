use portfolio_api::cache::SectionCache;
use portfolio_api::models::StoredSection;
use portfolio_api::repo::{
    cache_key, cached_section, cached_section_at, profile_id, profile_response, record_fetched_section,
    record_fetched_section_at, require_section,
};
use portfolio_api::error::ApiError;

fn doc(n: i64) -> serde_json::Value {
    serde_json::Value::from(n)
}

#[test]
fn cache_serves_fresh_entries_only() {
    let mut cache = SectionCache::new(10);
    cache.insert_at("1:ABOUT".to_string(), doc(1), 100);
    assert_eq!(cache.get_at("1:ABOUT", 100), Some(doc(1)));
    assert_eq!(cache.get_at("1:ABOUT", 109), Some(doc(1)));
    assert_eq!(cache.get_at("1:ABOUT", 110), None);
    assert_eq!(cache.get_at("1:ABOUT", 500), None);
    // A clock reading earlier than the stamp counts as no time elapsed.
    assert_eq!(cache.get_at("1:ABOUT", 50), Some(doc(1)));
    assert_eq!(cache.get_at("1:SKILLS", 100), None);
}

#[test]
fn cache_insert_replaces_and_keeps_other_keys() {
    let mut cache = SectionCache::new(10);
    cache.insert_at("a".to_string(), doc(1), 0);
    cache.insert_at("b".to_string(), doc(2), 5);
    cache.insert_at("a".to_string(), doc(3), 20);
    assert_eq!(cache.get_at("a", 25), Some(doc(3)));
    assert_eq!(cache.get_at("b", 14), Some(doc(2)));
    assert_eq!(cache.get_at("b", 25), None);
}

#[test]
fn zero_ttl_serves_nothing() {
    let mut cache = SectionCache::new(0);
    cache.insert_at("k".to_string(), doc(1), 0);
    assert_eq!(cache.get_at("k", 0), None);
}

#[test]
fn clock_based_cache_serves_recent_insert() {
    let mut cache = SectionCache::new(60_000_000_000);
    cache.insert("k".to_string(), doc(9));
    assert_eq!(cache.get("k"), Some(doc(9)));
    assert_eq!(cache.get("other"), None);
}

#[test]
fn cache_keys() {
    assert_eq!(cache_key(1, "ABOUT"), "1:ABOUT");
    assert_eq!(cache_key(-12, "A:B"), "-12:A:B");
    assert_eq!(cache_key(0, ""), "0:");
    assert_eq!(profile_id(), 1);
    assert_eq!(cache_key(profile_id(), "SKILLS"), "1:SKILLS");
}

#[test]
fn section_read_steps() {
    let mut cache = SectionCache::new(10);
    let (key, hit) = cached_section_at(&cache, 1, "ABOUT", 0);
    assert_eq!(key, "1:ABOUT");
    assert_eq!(hit, None);
    let served = record_fetched_section_at(&mut cache, key.clone(), Some(doc(7)), 3);
    assert_eq!(served, Some(doc(7)));
    let (_, hit) = cached_section_at(&cache, 1, "ABOUT", 12);
    assert_eq!(hit, Some(doc(7)));
    let (_, hit) = cached_section_at(&cache, 1, "ABOUT", 13);
    assert_eq!(hit, None);
    // A section the table does not have is not cached.
    let served = record_fetched_section_at(&mut cache, "1:NONE".to_string(), None, 3);
    assert_eq!(served, None);
    assert_eq!(cache.get_at("1:NONE", 3), None);
}

#[test]
fn section_read_steps_with_clock() {
    let mut cache = SectionCache::new(60_000_000_000);
    let (key, hit) = cached_section(&cache, 1, "EDUCATION");
    assert_eq!(hit, None);
    assert_eq!(record_fetched_section(&mut cache, key, Some(doc(4))), Some(doc(4)));
    assert_eq!(cached_section(&cache, 1, "EDUCATION").1, Some(doc(4)));
    assert_eq!(cached_section(&cache, 2, "EDUCATION").1, None);
}

#[test]
fn missing_section_is_not_found() {
    match require_section::<i32>(None, "ABOUT") {
        Err(ApiError::SectionNotFound(t)) => assert_eq!(t, "ABOUT"),
        other => panic!("unexpected {other:?}"),
    }
    assert!(matches!(require_section(Some(5), "ABOUT"), Ok(5)));
}

fn section(t: &str, n: i64) -> StoredSection<serde_json::Value> {
    StoredSection { id: 1, section_type: t.to_string(), updated_at: 0, data: doc(n) }
}

#[test]
fn profile_maps_types_to_data_last_wins() {
    let m = profile_response(vec![section("ABOUT", 1), section("SKILLS", 2), section("ABOUT", 3)]);
    assert_eq!(m.len(), 2);
    assert_eq!(m.get("ABOUT"), Some(&doc(3)));
    assert_eq!(m.get("SKILLS"), Some(&doc(2)));
    assert!(profile_response(Vec::new()).is_empty());
}

#[test]
fn distinct_sections_have_distinct_keys() {
    assert_ne!(cache_key(1, "2:X"), cache_key(12, ":X"));
    assert_ne!(cache_key(-1, "A"), cache_key(1, "A"));
    assert_ne!(cache_key(1, "A"), cache_key(1, "a"));
    assert_eq!(cache_key(12, ":X"), "12::X");
}

#[test]
fn recording_one_section_keeps_others() {
    let mut cache = SectionCache::new(100);
    let (k1, _) = cached_section_at(&cache, 1, "ABOUT", 0);
    let (k2, _) = cached_section_at(&cache, 2, "ABOUT", 0);
    record_fetched_section_at(&mut cache, k2, Some(doc(2)), 0);
    record_fetched_section_at(&mut cache, k1, Some(doc(1)), 1);
    assert_eq!(cached_section_at(&cache, 2, "ABOUT", 5).1, Some(doc(2)));
    assert_eq!(cached_section_at(&cache, 1, "ABOUT", 5).1, Some(doc(1)));
}
