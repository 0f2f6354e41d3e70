use rrte_engine::plugin::{
    BasePlugin, Plugin, PluginContext, PluginDependency, PluginLoader, PluginManifest,
    PluginRegistry, PluginState,
};

fn manifest(name: &str, version: &str, engine: &str) -> PluginManifest {
    PluginManifest {
        name: name.to_string(),
        version: version.to_string(),
        engine_version: engine.to_string(),
        ..PluginManifest::default()
    }
}

fn dep(name: &str, requirement: &str, optional: bool) -> PluginDependency {
    PluginDependency {
        name: name.to_string(),
        version_requirement: requirement.to_string(),
        optional,
    }
}

#[test]
fn default_manifest() {
    let m = PluginManifest::default();
    assert_eq!(m.name, "unnamed-plugin");
    assert_eq!(m.version, "0.1.0");
    assert_eq!(m.description, "A RRTE engine plugin");
    assert_eq!(m.author, "Unknown");
    assert_eq!(m.engine_version, "0.1.0");
    assert!(m.dependencies.is_empty() && m.permissions.is_empty());
    assert!(m.entry_points.is_empty());
    assert!(m.metadata.is_empty());
}

#[test]
fn engine_compatibility() {
    let m = manifest("p", "1.0.0", "0.1.0");
    assert!(m.is_compatible_with_engine("0.1.0"));
    assert!(!m.is_compatible_with_engine("0.2.0"));
    assert!(!m.is_compatible_with_engine("*"));
    assert!(!m.is_compatible_with_engine(""));
    let any = manifest("p", "1.0.0", "*");
    assert!(any.is_compatible_with_engine("0.1.0"));
    assert!(any.is_compatible_with_engine("anything"));
}

#[test]
fn dependencies() {
    let me = manifest("me", "1.0.0", "0.1.0");
    let available = vec![manifest("physics", "1.2.0", "0.1.0"), manifest("audio", "0.3.0", "0.1.0")];
    assert!(me.check_dependency(&dep("physics", "1.2.0", false), &available));
    assert!(me.check_dependency(&dep("physics", "*", false), &available));
    assert!(me.check_dependency(&dep("audio", "0.3.0", false), &available));
    assert!(!me.check_dependency(&dep("physics", "1.3.0", false), &available));
    assert!(!me.check_dependency(&dep("network", "*", false), &available));
    assert!(me.check_dependency(&dep("network", "*", true), &available));
    assert!(me.check_dependency(&dep("network", "9", true), &vec![]));
    assert!(!me.check_dependency(&dep("physics", "*", false), &vec![]));
}

#[test]
fn all_dependencies() {
    let available = vec![manifest("physics", "1.2.0", "0.1.0")];
    let mut me = manifest("me", "1.0.0", "0.1.0");
    assert!(me.dependencies_met(&available));
    me.dependencies.push(dep("physics", "*", false));
    me.dependencies.push(dep("audio", "1", true));
    assert!(me.dependencies_met(&available));
    me.dependencies.push(dep("audio", "1", false));
    assert!(!me.dependencies_met(&available));
}

#[test]
fn context_resources() {
    let mut c: PluginContext<i32> = PluginContext::new("0.1.0".to_string());
    assert_eq!(c.engine_version, "0.1.0");
    assert_eq!(c.get_resource("score"), None);
    c.add_resource("score".to_string(), 10);
    c.add_resource("lives".to_string(), 3);
    assert_eq!(c.get_resource("score"), Some(&10));
    c.add_resource("score".to_string(), 11);
    assert_eq!(c.get_resource("score"), Some(&11));
    *c.get_resource_mut("lives").unwrap() -= 1;
    assert_eq!(c.get_resource("lives"), Some(&2));
    assert!(c.get_resource_mut("time").is_none());
    assert_eq!(c.remove_resource("score"), Some(11));
    assert_eq!(c.remove_resource("score"), None);
    assert_eq!(c.get_resource("score"), None);
    assert_eq!(c.get_resource("lives"), Some(&2));
    assert_eq!(c.resources.len(), 1);
}

#[test]
fn base_plugin_life() {
    let mut c: PluginContext<i32> = PluginContext::new("0.1.0".to_string());
    c.add_resource("lives".to_string(), 3);
    let dt = rrte_engine::math::Scalar::from_bits(0.016f32.to_bits());
    let mut p = BasePlugin::new(manifest("p", "1", "*"));
    assert!(matches!(p.state(), PluginState::Unloaded));
    p.update(&mut c, dt).unwrap();
    assert!(matches!(p.state(), PluginState::Unloaded));
    p.initialize(&mut c).unwrap();
    assert!(matches!(p.state(), PluginState::Initialized));
    p.update(&mut c, dt).unwrap();
    assert!(matches!(p.state(), PluginState::Running));
    p.update(&mut c, dt).unwrap();
    assert!(matches!(p.state(), PluginState::Running));
    p.handle_event(&mut c, &rrte_engine::plugin::PluginEvent::FrameStart).unwrap();
    assert!(matches!(p.state(), PluginState::Running));
    p.set_state(PluginState::Error("boom".to_string()));
    p.update(&mut c, dt).unwrap();
    match p.state() {
        PluginState::Error(reason) => assert_eq!(reason, "boom"),
        _ => panic!("the error was lost"),
    }
    p.shutdown(&mut c).unwrap();
    assert!(matches!(p.state(), PluginState::Unloaded));
    assert_eq!(Plugin::<i32>::manifest(&p).name, "p");
    assert_eq!(c.get_resource("lives"), Some(&3));
    assert_eq!(c.resources.len(), 1);
}

#[test]
fn base_plugin_through_the_trait() {
    let mut p = BasePlugin::new(manifest("p", "1", "*"));
    let mut c: PluginContext<i32> = PluginContext::new("0.1.0".to_string());
    assert!(Plugin::initialize(&mut p, &mut c).is_ok());
    assert!(matches!(p.state(), PluginState::Initialized));
    let dt = rrte_engine::math::Scalar::from_bits(0.016f32.to_bits());
    assert!(Plugin::update(&mut p, &mut c, dt).is_ok());
    assert!(matches!(p.state(), PluginState::Running));
    assert!(Plugin::shutdown(&mut p, &mut c).is_ok());
    assert!(matches!(p.state(), PluginState::Unloaded));
    assert_eq!(Plugin::<i32>::manifest(&p).name, "p");
}

#[test]
fn registry_and_loader() {
    let r = PluginRegistry::new();
    assert_eq!(r.plugin_count(), 0);
    assert_eq!(PluginRegistry::default().plugin_count(), 0);
    let _loader = PluginLoader::new();
}
