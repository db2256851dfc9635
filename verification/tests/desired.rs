use rust_compose::desired::Desired;
use rust_compose::gate::{Exists, Ready};
use rust_compose::json::{Json, JsonMap};

fn kind(k: &str) -> Json {
    let mut m = JsonMap::new();
    m.insert("kind".to_string(), Json::text(k));
    Json::Object(m)
}

#[test]
fn under_exists_skips_children_when_missing() {
    let mut d = Desired::new();
    d.emit("vpc", kind("VPC"));
    d.under_exists(Exists::no(), |mut d| {
        d.emit("subnet", kind("Subnet"));
        d
    });
    assert!(d.contains("vpc"));
    assert!(!d.contains("subnet"));
}

#[test]
fn under_exists_emits_children_when_present() {
    let mut d = Desired::new();
    d.under_exists(Exists::yes(), |mut d| {
        d.emit("subnet", kind("Subnet"));
        d
    });
    assert!(d.contains("subnet"));
}

#[test]
fn usage_when_ready_requires_ready() {
    let mut d = Desired::new();
    d.usage_when_ready(Ready::no(), "usage-x", kind("Usage"));
    assert!(!d.contains("usage-x"));
    d.usage_when_ready(Ready::yes(), "usage-x", kind("Usage"));
    assert!(d.contains("usage-x"));
}

#[test]
fn emit_then_get_gives_the_body() {
    let mut d = Desired::new();
    assert!(d.is_empty());
    assert_eq!(d.len(), 0);
    d.emit("a", kind("A"));
    d.emit("b", kind("B"));
    assert_eq!(d.get("a").unwrap().body, kind("A"));
    assert_eq!(d.get("b").unwrap().body, kind("B"));
    assert!(d.get("c").is_none());
    assert_eq!(d.len(), 2);
    assert!(!d.is_empty());
}

#[test]
fn emit_again_replaces_in_place() {
    let mut d = Desired::new();
    d.emit("a", kind("A"));
    d.emit("b", kind("B"));
    d.emit("a", kind("A2"));
    assert_eq!(d.names(), vec!["a", "b"]);
    assert_eq!(d.len(), 2);
    assert_eq!(d.get("a").unwrap().body, kind("A2"));
}

#[test]
fn names_in_emission_order() {
    let mut d = Desired::default();
    d.emit("z", Json::Null);
    d.emit("m", Json::Null);
    d.emit("a", Json::Null);
    assert_eq!(d.names(), vec!["z", "m", "a"]);
}

#[test]
fn gated_layers_nest() {
    let mut d = Desired::new();
    d.under_exists(Exists::yes(), |mut d| {
        d.emit("store", kind("Store"));
        d.usage_when_ready(Ready::no(), "usage", kind("Usage"));
        d
    });
    assert_eq!(d.names(), vec!["store"]);
}

#[test]
fn clone_keeps_names_and_bodies() {
    let mut d = Desired::new();
    d.emit("a", kind("A"));
    d.emit("b", kind("B"));
    let c = d.clone();
    assert_eq!(c.names(), vec!["a", "b"]);
    assert_eq!(c.get("b").unwrap().body, kind("B"));
    assert!(!format!("{:?}", c).is_empty());
}
