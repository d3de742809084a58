use sandyloader::cache::EntityCache;
use sandyloader::host::{HostError, LifecycleState, PluginHost};
use sandyloader::item_mod::SimpleItemMod;
use sandyloader::mod_api::SandyMod;
use sandyloader::utility_mod::SimpleUtilityMod;
use std::cell::RefCell;
use std::rc::Rc;

/// A plugin whose calls succeed or fail as configured, and which records the
/// order in which it and its library are dropped.
struct Probe {
    id: String,
    fail_init: bool,
    fail_load: bool,
    fail_unload: bool,
    log: Rc<RefCell<Vec<String>>>,
}

impl Drop for Probe {
    fn drop(&mut self) {
        self.log.borrow_mut().push(format!("drop plugin {}", self.id));
    }
}

impl SandyMod for Probe {
    fn id(&self) -> &str {
        &self.id
    }
    fn initialize(&mut self) -> Result<(), String> {
        if self.fail_init {
            Err("init refused".to_string())
        } else {
            Ok(())
        }
    }
    fn on_load(&mut self) -> Result<(), String> {
        if self.fail_load {
            Err("load refused".to_string())
        } else {
            Ok(())
        }
    }
    fn on_unload(&mut self) -> Result<(), String> {
        if self.fail_unload {
            Err("unload refused".to_string())
        } else {
            Ok(())
        }
    }
}

struct Library {
    name: String,
    log: Rc<RefCell<Vec<String>>>,
}

impl Drop for Library {
    fn drop(&mut self) {
        self.log.borrow_mut().push(format!("close library {}", self.name));
    }
}

fn probe(id: &str, log: &Rc<RefCell<Vec<String>>>) -> Probe {
    Probe {
        id: id.to_string(),
        fail_init: false,
        fail_load: false,
        fail_unload: false,
        log: log.clone(),
    }
}

fn library(name: &str, log: &Rc<RefCell<Vec<String>>>) -> Library {
    Library {
        name: name.to_string(),
        log: log.clone(),
    }
}

#[test]
fn round_trip_releases_instance_then_library() {
    let log = Rc::new(RefCell::new(Vec::new()));
    let mut host: PluginHost<Probe, Library> = PluginHost::new();
    assert_eq!(host.load(probe("p", &log), library("lib-p", &log)).unwrap(), "p");
    assert_eq!(host.state("p"), LifecycleState::Initialized);
    assert!(host.activate("p").is_ok());
    assert_eq!(host.state("p"), LifecycleState::Active);
    assert!(host.deactivate("p").is_ok());
    assert_eq!(host.state("p"), LifecycleState::Unloading);
    assert!(log.borrow().is_empty());
    assert!(host.finalize("p").is_ok());
    assert!(!host.contains("p"));
    assert_eq!(host.state("p"), LifecycleState::Unloaded);
    assert_eq!(
        *log.borrow(),
        vec!["drop plugin p".to_string(), "close library lib-p".to_string()]
    );
}

#[test]
fn duplicate_id_keeps_first() {
    let log = Rc::new(RefCell::new(Vec::new()));
    let mut host: PluginHost<Probe, Library> = PluginHost::new();
    host.load(probe("dup", &log), library("first", &log)).unwrap();
    host.activate("dup").unwrap();
    match host.load(probe("dup", &log), library("second", &log)) {
        Err(HostError::DuplicatePluginId(id)) => assert_eq!(id, "dup"),
        other => panic!("unexpected {:?}", other.map(|_| ())),
    }
    assert_eq!(host.state("dup"), LifecycleState::Active);
    assert_eq!(
        *log.borrow(),
        vec!["drop plugin dup".to_string(), "close library second".to_string()]
    );
}

#[test]
fn failed_initialize_is_not_registered() {
    let log = Rc::new(RefCell::new(Vec::new()));
    let mut host: PluginHost<Probe, Library> = PluginHost::new();
    let mut p = probe("bad", &log);
    p.fail_init = true;
    match host.load(p, library("lib-bad", &log)) {
        Err(HostError::InitializationFailed { plugin_id, cause }) => {
            assert_eq!(plugin_id, "bad");
            assert_eq!(cause, "init refused");
        }
        other => panic!("unexpected {:?}", other.map(|_| ())),
    }
    assert!(!host.contains("bad"));
    assert_eq!(
        *log.borrow(),
        vec!["drop plugin bad".to_string(), "close library lib-bad".to_string()]
    );
}

#[test]
fn failed_activation_stays_initialized() {
    let log = Rc::new(RefCell::new(Vec::new()));
    let mut host: PluginHost<Probe, Library> = PluginHost::new();
    let mut p = probe("slow", &log);
    p.fail_load = true;
    host.load(p, library("lib", &log)).unwrap();
    match host.activate("slow") {
        Err(HostError::ActivationFailed { plugin_id, cause }) => {
            assert_eq!(plugin_id, "slow");
            assert_eq!(cause, "load refused");
        }
        other => panic!("unexpected {:?}", other),
    }
    assert_eq!(host.state("slow"), LifecycleState::Initialized);
}

#[test]
fn failed_unload_still_moves_to_unloading() {
    let log = Rc::new(RefCell::new(Vec::new()));
    let mut host: PluginHost<Probe, Library> = PluginHost::new();
    let mut p = probe("u", &log);
    p.fail_unload = true;
    host.load(p, library("lib", &log)).unwrap();
    host.activate("u").unwrap();
    assert!(matches!(
        host.deactivate("u"),
        Err(HostError::DeactivationFailed { .. })
    ));
    assert_eq!(host.state("u"), LifecycleState::Unloading);
    assert!(host.finalize("u").is_ok());
    assert!(!host.contains("u"));
}

#[test]
fn transitions_out_of_order_are_rejected() {
    let log = Rc::new(RefCell::new(Vec::new()));
    let mut host: PluginHost<Probe, Library> = PluginHost::new();
    assert!(matches!(host.activate("none"), Err(HostError::UnknownPlugin(_))));
    assert!(matches!(host.finalize("none"), Err(HostError::UnknownPlugin(_))));
    host.load(probe("x", &log), library("lib", &log)).unwrap();
    match host.deactivate("x") {
        Err(HostError::InvalidTransition { plugin_id, from }) => {
            assert_eq!(plugin_id, "x");
            assert_eq!(from, LifecycleState::Initialized);
        }
        other => panic!("unexpected {:?}", other),
    }
    assert!(matches!(
        host.finalize("x"),
        Err(HostError::InvalidTransition { from: LifecycleState::Initialized, .. })
    ));
    host.activate("x").unwrap();
    assert!(matches!(
        host.activate("x"),
        Err(HostError::InvalidTransition { from: LifecycleState::Active, .. })
    ));
    assert_eq!(host.state("x"), LifecycleState::Active);
}

#[test]
fn scenario_utility_plugin_session() {
    let log = Rc::new(RefCell::new(Vec::new()));
    let mut host: PluginHost<Probe, Library> = PluginHost::new();
    let mut cache = EntityCache::new();
    host.load(probe("simple-utility-mod", &log), library("L", &log))
        .unwrap();
    host.activate("simple-utility-mod").unwrap();
    cache.set("p1", "score", "10");
    assert_eq!(cache.get("p1", "score"), Some("10".to_string()));
    cache.clear("p1");
    assert_eq!(cache.get("p1", "score"), None);
    host.deactivate("simple-utility-mod").unwrap();
    host.finalize("simple-utility-mod").unwrap();
    assert!(!host.contains("simple-utility-mod"));
}

#[test]
fn finish_steps_follow_the_plugin_outcome() {
    let log = Rc::new(RefCell::new(Vec::new()));
    let mut host: PluginHost<Probe, Library> = PluginHost::new();
    match host.finish_load("a".to_string(), probe("a", &log), library("la", &log), Err("bad config".to_string())) {
        Err(HostError::InitializationFailed { plugin_id, cause }) => {
            assert_eq!(plugin_id, "a");
            assert_eq!(cause, "bad config");
        }
        other => panic!("unexpected {:?}", other.map(|_| ())),
    }
    assert!(!host.contains("a"));
    assert_eq!(
        *log.borrow(),
        vec!["drop plugin a".to_string(), "close library la".to_string()]
    );
    assert_eq!(
        host.finish_load("b".to_string(), probe("b", &log), library("lb", &log), Ok(())).unwrap(),
        "b"
    );
    assert_eq!(host.state("b"), LifecycleState::Initialized);
    match host.finish_activate("b", Err("not ready".to_string())) {
        Err(HostError::ActivationFailed { plugin_id, cause }) => {
            assert_eq!(plugin_id, "b");
            assert_eq!(cause, "not ready");
        }
        other => panic!("unexpected {:?}", other),
    }
    assert_eq!(host.state("b"), LifecycleState::Initialized);
    assert!(host.finish_activate("b", Ok(())).is_ok());
    assert_eq!(host.state("b"), LifecycleState::Active);
    match host.finish_deactivate("b", Err("busy".to_string())) {
        Err(HostError::DeactivationFailed { plugin_id, cause }) => {
            assert_eq!(plugin_id, "b");
            assert_eq!(cause, "busy");
        }
        other => panic!("unexpected {:?}", other),
    }
    assert_eq!(host.state("b"), LifecycleState::Unloading);
}

#[test]
fn bundled_plugins_run_through_the_host() {
    let mut utilities: PluginHost<SimpleUtilityMod, ()> = PluginHost::new();
    assert_eq!(utilities.load(SimpleUtilityMod::new(), ()).unwrap(), "simple_utility_mod");
    assert!(matches!(
        utilities.load(SimpleUtilityMod::new(), ()),
        Err(HostError::DuplicatePluginId(id)) if id == "simple_utility_mod"
    ));
    assert!(utilities.activate("simple_utility_mod").is_ok());
    assert!(utilities.deactivate("simple_utility_mod").is_ok());
    assert!(utilities.finalize("simple_utility_mod").is_ok());
    assert!(!utilities.contains("simple_utility_mod"));

    let mut items: PluginHost<SimpleItemMod, ()> = PluginHost::new();
    assert_eq!(items.load(SimpleItemMod::new(), ()).unwrap(), "simple_item_mod");
    assert_eq!(items.state("simple_item_mod"), LifecycleState::Initialized);
}
