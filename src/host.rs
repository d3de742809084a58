//! The plugin host: owns every loaded plugin together with the library it
//! came from, and drives each through its lifecycle
//! `Unloaded -> Initialized -> Active -> Unloading -> (destroyed)`.
//!
//! A plugin call that panics unwinds while the plugin's handle is out of the
//! table: the handle is then dropped, instance before library, and the plugin
//! is no longer registered. Catching the panic is the caller's boundary.

use vstd::prelude::*;
use crate::mod_api::SandyMod;
use crate::table::StringTable;

verus! {

#[derive(PartialEq, Eq, Structural, Clone, Copy, Debug)]
pub enum LifecycleState {
    Unloaded,
    Initialized,
    Active,
    Unloading,
}

#[derive(Debug, Clone)]
pub enum HostError {
    /// The library could not be opened, its entry point is missing, or the
    /// entry point produced no instance.
    LoadError(String),
    /// A plugin with this id is already registered.
    DuplicatePluginId(String),
    /// `initialize` failed; the plugin was torn down at once.
    InitializationFailed { plugin_id: String, cause: String },
    /// `on_load` failed; the plugin stays loaded and may be activated again.
    ActivationFailed { plugin_id: String, cause: String },
    /// `on_unload` failed; the plugin moved to `Unloading` all the same.
    DeactivationFailed { plugin_id: String, cause: String },
    /// No plugin with this id is registered.
    UnknownPlugin(String),
    /// The operation is not allowed from the plugin's current state.
    InvalidTransition { plugin_id: String, from: LifecycleState },
}

/// The model of a host: registered plugin id to its lifecycle state.
pub type HostModel = Map<Seq<char>, LifecycleState>;

/// The state of `id` in `h`; a plugin that is not registered is `Unloaded`.
pub open spec fn state_in(h: HostModel, id: Seq<char>) -> LifecycleState {
    if h.contains_key(id) { h[id] } else { LifecycleState::Unloaded }
}

/// The transitions of the lifecycle: each state to the next one only.
pub open spec fn adjacent(from: LifecycleState, to: LifecycleState) -> bool {
    match (from, to) {
        (LifecycleState::Unloaded, LifecycleState::Initialized) => true,
        (LifecycleState::Initialized, LifecycleState::Active) => true,
        (LifecycleState::Active, LifecycleState::Unloading) => true,
        (LifecycleState::Unloading, LifecycleState::Unloaded) => true,
        _ => false,
    }
}

/// The model after loading a plugin with `id` whose `initialize` succeeded
/// (`init_ok`) or failed.
pub open spec fn after_load(h: HostModel, id: Seq<char>, init_ok: bool) -> HostModel {
    if h.contains_key(id) || !init_ok { h } else { h.insert(id, LifecycleState::Initialized) }
}

/// The model after activating `id` whose `on_load` succeeded (`ok`) or failed.
pub open spec fn after_activate(h: HostModel, id: Seq<char>, ok: bool) -> HostModel {
    if state_in(h, id) == LifecycleState::Initialized && ok {
        h.insert(id, LifecycleState::Active)
    } else {
        h
    }
}

/// The model after deactivating `id`, whatever `on_unload` returned.
pub open spec fn after_deactivate(h: HostModel, id: Seq<char>) -> HostModel {
    if state_in(h, id) == LifecycleState::Active { h.insert(id, LifecycleState::Unloading) } else { h }
}

/// The model after finalizing `id`.
pub open spec fn after_finalize(h: HostModel, id: Seq<char>) -> HostModel {
    if state_in(h, id) == LifecycleState::Unloading { h.remove(id) } else { h }
}

/// A loaded plugin. Fields drop in declaration order, so dropping a handle
/// drops the instance before the library whose code it runs.
pub struct PluginHandle<M, L> {
    plugin: M,
    library: L,
    state: LifecycleState,
}

/// Disposes of a handle: the instance first, then its library.
fn discard<M, L>(handle: PluginHandle<M, L>) {
}

/// The registry of loaded plugins, keyed by plugin id.
pub struct PluginHost<M, L> {
    handles: StringTable<PluginHandle<M, L>>,
}

impl<M: SandyMod, L> View for PluginHost<M, L> {
    type V = HostModel;

    closed spec fn view(&self) -> HostModel {
        self.handles@.map_values(|h: PluginHandle<M, L>| h.state)
    }
}

impl<M: SandyMod, L> PluginHost<M, L> {
    pub closed spec fn wf(&self) -> bool {
        self.handles.wf()
    }

    pub fn new() -> (r: Self)
        ensures
            r.wf(),
            r@ == HostModel::empty(),
    {
        let r = PluginHost { handles: StringTable::new() };
        assert(r@ =~= HostModel::empty());
        r
    }

    /// Registers the instance that `library`'s entry point produced, under
    /// the plugin's own id, once its `initialize` succeeds. A plugin whose id
    /// is taken is refused before any of its code runs.
    pub fn load(&mut self, plugin: M, library: L) -> (r: Result<String, HostError>)
        requires
            old(self).wf(),
        ensures
            final(self).wf(),
            (r matches Err(HostError::DuplicatePluginId(_))) <==> old(self)@.contains_key(plugin.spec_id()),
            match r {
                Ok(id) => id@ == plugin.spec_id() && !old(self)@.contains_key(id@)
                    && final(self)@ == old(self)@.insert(id@, LifecycleState::Initialized)
                    && final(self)@ == after_load(old(self)@, id@, true),
                Err(HostError::DuplicatePluginId(id)) => id@ == plugin.spec_id()
                    && final(self)@ == old(self)@,
                Err(HostError::InitializationFailed { plugin_id, .. }) => plugin_id@ == plugin.spec_id()
                    && !old(self)@.contains_key(plugin_id@) && final(self)@ == old(self)@
                    && final(self)@ == after_load(old(self)@, plugin_id@, false),
                Err(_) => false,
            },
    {
        let mut plugin = plugin;
        let id = plugin.id().to_owned();
        if self.handles.contains_key(id.as_str()) {
            discard(PluginHandle { plugin, library, state: LifecycleState::Unloaded });
            return Err(HostError::DuplicatePluginId(id));
        }
        let outcome = plugin.initialize();
        self.finish_load(id, plugin, library, outcome)
    }

    /// Completes a load once `initialize` has returned `outcome`: registers
    /// the plugin as `Initialized` on success; on failure disposes of it,
    /// instance before library, and reports `initialize`'s error.
    pub fn finish_load(&mut self, id: String, plugin: M, library: L, outcome: Result<(), String>) -> (r: Result<String, HostError>)
        requires
            old(self).wf(),
            !old(self)@.contains_key(id@),
        ensures
            final(self).wf(),
            final(self)@ == after_load(old(self)@, id@, outcome is Ok),
            outcome is Ok ==> (r matches Ok(i) && i@ == id@
                && final(self)@ == old(self)@.insert(id@, LifecycleState::Initialized)),
            outcome matches Err(e) ==> (r matches Err(HostError::InitializationFailed { plugin_id, cause })
                && plugin_id@ == id@ && cause@ == e@ && final(self)@ == old(self)@),
    {
        let handle = PluginHandle { plugin, library, state: LifecycleState::Initialized };
        match outcome {
            Ok(()) => {
                self.handles.insert(id.clone(), handle);
                assert(self@ =~= old(self)@.insert(id@, LifecycleState::Initialized));
                Ok(id)
            },
            Err(cause) => {
                discard(handle);
                Err(HostError::InitializationFailed { plugin_id: id, cause })
            },
        }
    }

    /// Moves an `Initialized` plugin to `Active` when its `on_load` succeeds;
    /// on failure it stays `Initialized` and may be activated again.
    pub fn activate(&mut self, id: &str) -> (r: Result<(), HostError>)
        requires
            old(self).wf(),
        ensures
            final(self).wf(),
            match r {
                Ok(()) => state_in(old(self)@, id@) == LifecycleState::Initialized
                    && final(self)@ == after_activate(old(self)@, id@, true),
                Err(HostError::ActivationFailed { plugin_id, .. }) => plugin_id@ == id@
                    && state_in(old(self)@, id@) == LifecycleState::Initialized
                    && final(self)@ == after_activate(old(self)@, id@, false),
                Err(HostError::UnknownPlugin(p)) => p@ == id@ && !old(self)@.contains_key(id@)
                    && final(self)@ == old(self)@,
                Err(HostError::InvalidTransition { plugin_id, from }) => plugin_id@ == id@
                    && old(self)@.contains_key(id@) && from == old(self)@[id@]
                    && from != LifecycleState::Initialized && final(self)@ == old(self)@,
                Err(_) => false,
            },
    {
        let mut handle = match self.handles.remove(id) {
            Some(h) => h,
            None => return Err(HostError::UnknownPlugin(id.to_owned())),
        };
        match handle.state {
            LifecycleState::Initialized => {},
            _ => {
                let from = handle.state;
                self.handles.insert(id.to_owned(), handle);
                assert(self@ =~= old(self)@);
                return Err(HostError::InvalidTransition { plugin_id: id.to_owned(), from });
            },
        }
        let outcome = handle.plugin.on_load();
        self.handles.insert(id.to_owned(), handle);
        assert(self@ =~= old(self)@);
        self.finish_activate(id, outcome)
    }

    /// Completes an activation once `on_load` has returned `outcome`.
    pub fn finish_activate(&mut self, id: &str, outcome: Result<(), String>) -> (r: Result<(), HostError>)
        requires
            old(self).wf(),
            state_in(old(self)@, id@) == LifecycleState::Initialized,
        ensures
            final(self).wf(),
            outcome is Ok ==> r is Ok && final(self)@ == old(self)@.insert(id@, LifecycleState::Active),
            outcome matches Err(e) ==> (r matches Err(HostError::ActivationFailed { plugin_id, cause })
                && plugin_id@ == id@ && cause@ == e@ && final(self)@ == old(self)@),
    {
        match outcome {
            Ok(()) => {
                self.set_state(id, LifecycleState::Active);
                Ok(())
            },
            Err(cause) => Err(HostError::ActivationFailed { plugin_id: id.to_owned(), cause }),
        }
    }

    /// Moves an `Active` plugin to `Unloading` after calling its `on_unload`,
    /// whether or not that call succeeds.
    pub fn deactivate(&mut self, id: &str) -> (r: Result<(), HostError>)
        requires
            old(self).wf(),
        ensures
            final(self).wf(),
            match r {
                Ok(()) => state_in(old(self)@, id@) == LifecycleState::Active
                    && final(self)@ == after_deactivate(old(self)@, id@),
                Err(HostError::DeactivationFailed { plugin_id, .. }) => plugin_id@ == id@
                    && state_in(old(self)@, id@) == LifecycleState::Active
                    && final(self)@ == after_deactivate(old(self)@, id@),
                Err(HostError::UnknownPlugin(p)) => p@ == id@ && !old(self)@.contains_key(id@)
                    && final(self)@ == old(self)@,
                Err(HostError::InvalidTransition { plugin_id, from }) => plugin_id@ == id@
                    && old(self)@.contains_key(id@) && from == old(self)@[id@]
                    && from != LifecycleState::Active && final(self)@ == old(self)@,
                Err(_) => false,
            },
    {
        let mut handle = match self.handles.remove(id) {
            Some(h) => h,
            None => return Err(HostError::UnknownPlugin(id.to_owned())),
        };
        match handle.state {
            LifecycleState::Active => {},
            _ => {
                let from = handle.state;
                self.handles.insert(id.to_owned(), handle);
                assert(self@ =~= old(self)@);
                return Err(HostError::InvalidTransition { plugin_id: id.to_owned(), from });
            },
        }
        let outcome = handle.plugin.on_unload();
        self.handles.insert(id.to_owned(), handle);
        assert(self@ =~= old(self)@);
        self.finish_deactivate(id, outcome)
    }

    /// Completes a deactivation once `on_unload` has returned `outcome`: the
    /// plugin moves to `Unloading` either way, and an error is reported.
    pub fn finish_deactivate(&mut self, id: &str, outcome: Result<(), String>) -> (r: Result<(), HostError>)
        requires
            old(self).wf(),
            state_in(old(self)@, id@) == LifecycleState::Active,
        ensures
            final(self).wf(),
            final(self)@ == old(self)@.insert(id@, LifecycleState::Unloading),
            outcome is Ok ==> r is Ok,
            outcome matches Err(e) ==> (r matches Err(HostError::DeactivationFailed { plugin_id, cause })
                && plugin_id@ == id@ && cause@ == e@),
    {
        self.set_state(id, LifecycleState::Unloading);
        match outcome {
            Ok(()) => Ok(()),
            Err(cause) => Err(HostError::DeactivationFailed { plugin_id: id.to_owned(), cause }),
        }
    }

    /// Sets the state of a registered plugin.
    fn set_state(&mut self, id: &str, state: LifecycleState)
        requires
            old(self).wf(),
            old(self)@.contains_key(id@),
        ensures
            final(self).wf(),
            final(self)@ == old(self)@.insert(id@, state),
    {
        let mut handle = self.handles.remove(id).unwrap();
        handle.state = state;
        self.handles.insert(id.to_owned(), handle);
        assert(self@ =~= old(self)@.insert(id@, state));
    }

    /// Destroys an `Unloading` plugin: drops the instance, then its library,
    /// and removes the handle.
    pub fn finalize(&mut self, id: &str) -> (r: Result<(), HostError>)
        requires
            old(self).wf(),
        ensures
            final(self).wf(),
            match r {
                Ok(()) => state_in(old(self)@, id@) == LifecycleState::Unloading
                    && final(self)@ == after_finalize(old(self)@, id@),
                Err(HostError::UnknownPlugin(p)) => p@ == id@ && !old(self)@.contains_key(id@)
                    && final(self)@ == old(self)@,
                Err(HostError::InvalidTransition { plugin_id, from }) => plugin_id@ == id@
                    && old(self)@.contains_key(id@) && from == old(self)@[id@]
                    && from != LifecycleState::Unloading && final(self)@ == old(self)@,
                Err(_) => false,
            },
    {
        let handle = match self.handles.remove(id) {
            Some(h) => h,
            None => return Err(HostError::UnknownPlugin(id.to_owned())),
        };
        match handle.state {
            LifecycleState::Unloading => {
                discard(handle);
                assert(self@ =~= after_finalize(old(self)@, id@));
                Ok(())
            },
            _ => {
                let from = handle.state;
                self.handles.insert(id.to_owned(), handle);
                assert(self@ =~= old(self)@);
                Err(HostError::InvalidTransition { plugin_id: id.to_owned(), from })
            },
        }
    }

    /// The lifecycle state of `id`; `Unloaded` when it is not registered.
    pub fn state(&self, id: &str) -> (r: LifecycleState)
        requires
            self.wf(),
        ensures
            r == state_in(self@, id@),
    {
        match self.handles.get(id) {
            Some(h) => h.state,
            None => LifecycleState::Unloaded,
        }
    }

    pub fn contains(&self, id: &str) -> (r: bool)
        requires
            self.wf(),
        ensures
            r == self@.contains_key(id@),
    {
        self.handles.contains_key(id)
    }
}

/// A full cycle of load, activate, deactivate and finalize leaves the
/// registry exactly as it found it: no handle of the plugin is retained.
pub proof fn lemma_round_trip_leaves_no_trace(h: HostModel, id: Seq<char>)
    requires
        !h.contains_key(id),
    ensures
        after_finalize(after_deactivate(after_activate(after_load(h, id, true), id, true), id), id) == h,
{
    let h1 = after_load(h, id, true);
    let h2 = after_activate(h1, id, true);
    let h3 = after_deactivate(h2, id);
    assert(after_finalize(h3, id) =~= h);
}

/// A second load with an id already registered changes nothing: the first
/// plugin stays, in its state, and is the only one with that id.
pub proof fn lemma_duplicate_id_keeps_first(h: HostModel, id: Seq<char>, second_init_ok: bool)
    requires
        !h.contains_key(id),
    ensures
        after_load(after_load(h, id, true), id, second_init_ok) == after_load(h, id, true),
        after_load(h, id, true) == h.insert(id, LifecycleState::Initialized),
        forall|g: HostModel, ok: bool| g.contains_key(id) ==> #[trigger] after_load(g, id, ok) == g,
{
}

/// A plugin whose `initialize` fails is not registered afterwards, and the
/// registry is otherwise unchanged.
pub proof fn lemma_failed_initialize_not_registered(h: HostModel, id: Seq<char>)
    requires
        !h.contains_key(id),
    ensures
        !after_load(h, id, false).contains_key(id),
        after_load(h, id, false) == h,
{
}

/// Every operation leaves each plugin in its state or moves it to the next
/// state of the lifecycle; no state is skipped.
pub proof fn lemma_transitions_adjacent(h: HostModel, id: Seq<char>, ok: bool, q: Seq<char>)
    ensures
        ({
            let a = state_in(h, q);
            let b = state_in(after_load(h, id, ok), q);
            a == b || adjacent(a, b)
        }),
        ({
            let a = state_in(h, q);
            let b = state_in(after_activate(h, id, ok), q);
            a == b || adjacent(a, b)
        }),
        ({
            let a = state_in(h, q);
            let b = state_in(after_deactivate(h, id), q);
            a == b || adjacent(a, b)
        }),
        ({
            let a = state_in(h, q);
            let b = state_in(after_finalize(h, id), q);
            a == b || adjacent(a, b)
        }),
{
}

} // verus!
