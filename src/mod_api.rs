//! The contract every plugin implements, and the plugin descriptor.

use vstd::prelude::*;

verus! {

/// The capability set of a plugin. The host drives an instance through
/// `initialize`, `on_load` and `on_unload`, and depends on nothing else of it.
pub trait SandyMod {
    /// The plugin's id as a value. Every plugin of this library defines it;
    /// the empty default admits no `id` that meets the contract below.
    closed spec fn spec_id(&self) -> Seq<char> {
        Seq::empty()
    }

    /// The plugin's id: non-empty, and kept by every lifecycle call.
    fn id(&self) -> (r: &str)
        ensures
            r@ == self.spec_id(),
            r@.len() > 0;

    /// Prepares the plugin; an error keeps it from being registered.
    fn initialize(&mut self) -> (r: Result<(), String>)
        ensures
            final(self).spec_id() == old(self).spec_id();

    /// Called when the plugin is activated.
    fn on_load(&mut self) -> (r: Result<(), String>)
        ensures
            final(self).spec_id() == old(self).spec_id();

    /// Called when the plugin is deactivated; teardown goes on after an error.
    fn on_unload(&mut self) -> (r: Result<(), String>)
        ensures
            final(self).spec_id() == old(self).spec_id();
}

/// Describes a plugin.
#[derive(Debug, Clone)]
pub struct ModInfo {
    /// Unique id among the loaded plugins.
    pub id: String,
    /// Human-readable name.
    pub name: String,
    /// Version text.
    pub version: String,
    /// What the plugin does.
    pub description: String,
}

} // verus!
