use sandyloader::bridge::register_native_method;
use sandyloader::item_mod::SimpleItemMod;
use sandyloader::memory::MemoryManager;
use sandyloader::mod_api::SandyMod;
use sandyloader::utility_mod::SimpleUtilityMod;
use sandyloader::version;

#[test]
fn test_bridge() {
    register_native_method();
    assert!(true);
}

#[test]
fn test_create_memory_manager() {
    let mut manager = MemoryManager::new();
    assert!(manager.track_mod_memory("test-mod").is_ok());
}

struct TestMod {
    id: String,
}

impl TestMod {
    fn new() -> Self {
        Self {
            id: "test-mod".to_string(),
        }
    }
}

impl SandyMod for TestMod {
    fn id(&self) -> &str {
        &self.id
    }

    fn initialize(&mut self) -> Result<(), String> {
        Ok(())
    }

    fn on_load(&mut self) -> Result<(), String> {
        Ok(())
    }

    fn on_unload(&mut self) -> Result<(), String> {
        Ok(())
    }
}

#[test]
fn test_mod_trait() {
    let mut test_mod = TestMod::new();
    assert_eq!(test_mod.id(), "test-mod");
    assert!(test_mod.initialize().is_ok());
}

#[test]
fn test_version() {
    assert!(!version().is_empty());
}

#[test]
fn test_mod_creation() {
    let mod_instance = SimpleItemMod::new();
    assert_eq!(mod_instance.id(), "simple_item_mod");
    assert_eq!(mod_instance.name, "Simple Item Mod");
}

#[test]
fn test_player_data() {
    let mut mod_instance = SimpleUtilityMod::new();

    let player_uuid = "test-uuid-123";
    let key = "test-key";
    let value = "test-value";

    // Initially no data
    assert_eq!(mod_instance.get_player_data(player_uuid, key), None);

    // Store data
    mod_instance.store_player_data(player_uuid, key, value);

    // Retrieve data
    assert_eq!(
        mod_instance.get_player_data(player_uuid, key),
        Some(value.to_string())
    );

    // Clear data
    mod_instance.clear_player_data(player_uuid);

    // Data should be gone
    assert_eq!(mod_instance.get_player_data(player_uuid, key), None);
}

#[test]
fn status_text_names_the_config_path() {
    assert_eq!(
        sandyloader::initialization_status("/etc/sandy.toml"),
        "SandyLoader initialized with config at: /etc/sandy.toml"
    );
}

#[test]
fn bundled_plugin_ids_are_stable() {
    let mut u = SimpleUtilityMod::new();
    assert_eq!(u.id(), "simple_utility_mod");
    assert!(u.initialize().is_ok());
    assert!(u.on_load().is_ok());
    assert!(u.on_unload().is_ok());
    assert_eq!(u.id(), "simple_utility_mod");
    let mut i = SimpleItemMod::new();
    assert!(i.on_load().is_ok());
    assert_eq!(i.id(), "simple_item_mod");
}
