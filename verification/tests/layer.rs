use era_test_node::{EraTestNodeInstance, EraTestNodeLayer, Spawn};
use std::sync::{Arc, Mutex};
use url::Url;

const ENDPOINT: &str = "http://127.0.0.1:9944";

/// A spawner that starts nothing: it counts its calls and hands out a fixed endpoint. The
/// process of an instance is the number of spawns that came before it.
#[derive(Clone, Default)]
struct Stub {
    calls: Arc<Mutex<usize>>,
}

impl Stub {
    fn calls(&self) -> usize {
        *self.calls.lock().unwrap()
    }
}

impl Spawn for Stub {
    type Process = usize;

    fn spawn(&self) -> EraTestNodeInstance<usize> {
        let mut calls = self.calls.lock().unwrap();
        let serial = *calls;
        *calls += 1;
        EraTestNodeInstance::new(serial, Url::parse(ENDPOINT).unwrap())
    }
}

#[test]
fn from_does_not_spawn() {
    let stub = Stub::default();
    {
        let _layer = EraTestNodeLayer::from(stub.clone());
    }
    assert_eq!(stub.calls(), 0);
}

#[test]
fn first_access_spawns_from_the_configuration() {
    let stub = Stub::default();
    let mut layer = EraTestNodeLayer::from(stub.clone());
    let handle = layer.instance().clone();
    assert_eq!(stub.calls(), 1);
    assert_eq!(*handle.process(), 0);
    assert_eq!(handle.endpoint_url(), Url::parse(ENDPOINT).unwrap());
}

#[test]
fn instance_spawns_at_most_once() {
    let stub = Stub::default();
    let mut layer = EraTestNodeLayer::from(stub.clone());
    let first = layer.instance().clone();
    for _ in 0..16 {
        let again = layer.instance().clone();
        assert!(Arc::ptr_eq(&first, &again));
        assert_eq!(*again.process(), 0);
    }
    assert_eq!(stub.calls(), 1);
}

#[test]
fn endpoint_url_is_stable() {
    let stub = Stub::default();
    let mut layer = EraTestNodeLayer::from(stub.clone());
    assert_eq!(stub.calls(), 0);
    let before = layer.endpoint_url();
    assert_eq!(stub.calls(), 1);
    let after = layer.endpoint_url();
    assert_eq!(stub.calls(), 1);
    assert_eq!(before, after);
    assert_eq!(before.as_str(), "http://127.0.0.1:9944/");
    assert_eq!(layer.instance().endpoint_url(), before);
}

#[test]
fn endpoint_url_from_three_callers_of_a_shared_layer() {
    let stub = Stub::default();
    let layer = Arc::new(Mutex::new(EraTestNodeLayer::from(stub.clone())));
    let callers = vec![Arc::clone(&layer), Arc::clone(&layer), Arc::clone(&layer)];
    let mut seen = Vec::new();
    for caller in callers {
        seen.push(caller.lock().unwrap().endpoint_url());
    }
    assert_eq!(stub.calls(), 1);
    assert_eq!(seen.len(), 3);
    for url in seen {
        assert_eq!(url, Url::parse("http://127.0.0.1:9944").unwrap());
    }
}

#[test]
fn first_accesses_of_a_shared_layer_get_one_instance() {
    let stub = Stub::default();
    let layer = Arc::new(Mutex::new(EraTestNodeLayer::from(stub.clone())));
    let mut handles = Vec::new();
    for _ in 0..8 {
        let caller = Arc::clone(&layer);
        let handle = caller.lock().unwrap().instance().clone();
        handles.push(handle);
    }
    assert_eq!(stub.calls(), 1);
    for handle in &handles {
        assert!(Arc::ptr_eq(handle, &handles[0]));
    }
}

#[test]
fn layers_of_one_configuration_spawn_apart() {
    let stub = Stub::default();
    let mut one = EraTestNodeLayer::from(stub.clone());
    let mut other = EraTestNodeLayer::from(stub.clone());
    let first = one.instance().clone();
    let second = other.instance().clone();
    assert_eq!(stub.calls(), 2);
    assert!(!Arc::ptr_eq(&first, &second));
    assert_eq!(*first.process(), 0);
    assert_eq!(*second.process(), 1);
}

#[test]
fn clone_of_a_running_layer_holds_the_same_instance() {
    let stub = Stub::default();
    let mut layer = EraTestNodeLayer::from(stub.clone());
    let handle = layer.instance().clone();
    let mut copy = layer.clone();
    assert!(Arc::ptr_eq(&handle, copy.instance()));
    assert_eq!(stub.calls(), 1);
}

#[test]
fn clone_of_a_vacant_layer_spawns_its_own() {
    let stub = Stub::default();
    let mut layer = EraTestNodeLayer::from(stub.clone());
    let mut copy = layer.clone();
    assert_eq!(stub.calls(), 0);
    let handle = layer.instance().clone();
    assert_eq!(stub.calls(), 1);
    assert!(!Arc::ptr_eq(&handle, copy.instance()));
    assert_eq!(stub.calls(), 2);
}

#[test]
fn default_layer_is_vacant() {
    let mut layer: EraTestNodeLayer<Stub> = EraTestNodeLayer::default();
    let handle = layer.instance().clone();
    assert_eq!(*handle.process(), 0);
    assert!(Arc::ptr_eq(&handle, layer.instance()));
}

#[test]
fn instance_reports_what_it_was_made_of() {
    let endpoint = Url::parse("http://localhost:8011/rpc?x=1").unwrap();
    let instance = EraTestNodeInstance::new(String::from("node"), endpoint.clone());
    assert_eq!(instance.process(), "node");
    assert_eq!(instance.endpoint_url(), endpoint);
    assert_eq!(instance.endpoint_url().as_str(), "http://localhost:8011/rpc?x=1");
    assert_eq!(instance.endpoint_url().port(), Some(8011));
}
