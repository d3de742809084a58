//! A utility plugin that keeps per-player data in a cache and drops it when
//! the player leaves or the plugin unloads.

use vstd::prelude::*;
use crate::cache::{cache_clear, cache_get, cache_set, CacheModel, EntityCache};
use crate::mod_api::{ModInfo, SandyMod};

verus! {

pub struct SimpleUtilityMod {
    pub name: String,
    pub version: String,
    pub description: String,
    player_data_cache: EntityCache,
}

impl SimpleUtilityMod {
    pub closed spec fn wf(&self) -> bool {
        self.player_data_cache.wf()
    }

    /// The model of the player cache.
    pub closed spec fn cache(&self) -> CacheModel {
        self.player_data_cache@
    }

    pub closed spec fn spec_name(&self) -> Seq<char> {
        self.name@
    }

    pub closed spec fn spec_version(&self) -> Seq<char> {
        self.version@
    }

    pub closed spec fn spec_description(&self) -> Seq<char> {
        self.description@
    }

    pub fn new() -> (r: Self)
        ensures
            r.wf(),
            r.cache() == CacheModel::empty(),
            r.spec_id() == "simple_utility_mod"@,
            r.spec_name() == "Simple Utility Mod"@,
            r.spec_version() == "1.0.0"@,
            r.spec_description() == "A simple utility mod that provides useful functions"@,
    {
        SimpleUtilityMod {
            name: String::from_str("Simple Utility Mod"),
            version: String::from_str("1.0.0"),
            description: String::from_str("A simple utility mod that provides useful functions"),
            player_data_cache: EntityCache::new(),
        }
    }

    /// The plugin's descriptor.
    pub fn info(&self) -> (r: ModInfo)
        ensures
            r.id@ == self.spec_id(),
            r.name@ == self.spec_name(),
            r.version@ == self.spec_version(),
            r.description@ == self.spec_description(),
    {
        ModInfo {
            id: String::from_str("simple_utility_mod"),
            name: self.name.clone(),
            version: self.version.clone(),
            description: self.description.clone(),
        }
    }

    /// Stores `value` under `key` for the player.
    pub fn store_player_data(&mut self, player_uuid: &str, key: &str, value: &str)
        requires
            old(self).wf(),
        ensures
            final(self).wf(),
            final(self).cache() == cache_set(old(self).cache(), player_uuid@, key@, value@),
    {
        self.player_data_cache.set(player_uuid, key, value);
    }

    /// The value stored under `key` for the player, if any.
    pub fn get_player_data(&self, player_uuid: &str, key: &str) -> (r: Option<String>)
        requires
            self.wf(),
        ensures
            r.is_some() == cache_get(self.cache(), player_uuid@, key@).is_some(),
            r.is_some() ==> r.unwrap()@ == cache_get(self.cache(), player_uuid@, key@).unwrap(),
    {
        self.player_data_cache.get(player_uuid, key)
    }

    /// Drops everything stored for the player, as when they log out.
    pub fn clear_player_data(&mut self, player_uuid: &str)
        requires
            old(self).wf(),
        ensures
            final(self).wf(),
            final(self).cache() == cache_clear(old(self).cache(), player_uuid@),
    {
        self.player_data_cache.clear(player_uuid);
    }

    /// Command registration is the host runtime's; this plugin adds none.
    fn register_commands(&self) {
    }
}

impl SandyMod for SimpleUtilityMod {
    open spec fn spec_id(&self) -> Seq<char> {
        "simple_utility_mod"@
    }

    fn id(&self) -> (r: &str) {
        proof {
            reveal_strlit("simple_utility_mod");
        }
        "simple_utility_mod"
    }

    /// Registers the plugin's commands; never fails and changes nothing.
    fn initialize(&mut self) -> (r: Result<(), String>)
        ensures
            r is Ok,
            *final(self) == *old(self),
    {
        self.register_commands();
        Ok(())
    }

    fn on_load(&mut self) -> (r: Result<(), String>)
        ensures
            r is Ok,
            *final(self) == *old(self),
    {
        Ok(())
    }

    /// Drops the data of every player; never fails.
    fn on_unload(&mut self) -> (r: Result<(), String>)
        ensures
            r is Ok,
            final(self).wf(),
            final(self).cache() == CacheModel::empty(),
            final(self).spec_name() == old(self).spec_name(),
            final(self).spec_version() == old(self).spec_version(),
            final(self).spec_description() == old(self).spec_description(),
    {
        self.player_data_cache = EntityCache::new();
        Ok(())
    }
}

} // verus!
