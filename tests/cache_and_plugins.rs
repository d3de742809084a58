use sandyloader::cache::EntityCache;
use sandyloader::item_mod::{generate_random_string, SimpleItemMod};
use sandyloader::mod_api::SandyMod;
use sandyloader::utility_mod::SimpleUtilityMod;

#[test]
fn get_after_clear_is_none() {
    let mut cache = EntityCache::new();
    cache.set("e", "k", "v");
    cache.set("e", "other", "w");
    cache.set("f", "k", "x");
    cache.clear("e");
    assert_eq!(cache.get("e", "k"), None);
    assert_eq!(cache.get("e", "other"), None);
    assert_eq!(cache.get("f", "k"), Some("x".to_string()));
    cache.clear("e");
    cache.clear("absent");
    assert_eq!(cache.get("f", "k"), Some("x".to_string()));
}

#[test]
fn two_writes_to_one_entity_both_visible() {
    let mut cache = EntityCache::new();
    cache.set("e", "k1", "v1");
    cache.set("e", "k2", "v2");
    assert_eq!(cache.get("e", "k1"), Some("v1".to_string()));
    assert_eq!(cache.get("e", "k2"), Some("v2".to_string()));
    cache.set("e", "k1", "v3");
    assert_eq!(cache.get("e", "k1"), Some("v3".to_string()));
    assert_eq!(cache.get("e", "k2"), Some("v2".to_string()));
    assert_eq!(cache.get("missing", "k1"), None);
    assert_eq!(cache.get("e", "missing"), None);
}

#[test]
fn clear_all_empties_cache() {
    let mut cache = EntityCache::new();
    cache.set("a", "k", "1");
    cache.set("b", "k", "2");
    cache.clear_all();
    assert_eq!(cache.get("a", "k"), None);
    assert_eq!(cache.get("b", "k"), None);
}

#[test]
fn utility_mod_unload_drops_player_data() {
    let mut m = SimpleUtilityMod::new();
    assert_eq!(m.id(), "simple_utility_mod");
    assert!(m.initialize().is_ok());
    assert!(m.on_load().is_ok());
    m.store_player_data("p", "k", "v");
    assert!(m.on_unload().is_ok());
    assert_eq!(m.get_player_data("p", "k"), None);
    let info = m.info();
    assert_eq!(info.name, "Simple Utility Mod");
    assert_eq!(info.version, "1.0.0");
}

#[test]
fn random_strings_are_lowercase_and_sized() {
    let s = generate_random_string(200);
    assert_eq!(s.len(), 200);
    assert!(s.chars().all(|c| c.is_ascii_lowercase()));
    assert!(s.chars().any(|c| c != 'a'));
    assert_eq!(generate_random_string(0), "");
}

#[test]
fn item_mod_initialize_fills_and_unload_frees() {
    let mut m = SimpleItemMod::new();
    assert!(m.initialize().is_ok());
    assert!(m.on_unload().is_ok());
    let info = m.info();
    assert_eq!(info.id, "simple_item_mod");
    assert_eq!(
        info.description,
        "A simple test mod that adds an item and consumes memory"
    );
}
