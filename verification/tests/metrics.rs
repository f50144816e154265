use nautilus_server::registry::metrics;
use nautilus_server::{Metrics, RegistryService};
use prometheus::proto::MetricFamily;
use prometheus::{IntCounter, Registry};

fn counter_registered(registry: &Registry, name: &str, help: &str, value: u64) -> IntCounter {
    let counter = IntCounter::new(name.to_string(), help.to_string()).unwrap();
    registry.register(Box::new(counter.clone())).unwrap();
    counter.inc_by(value);
    counter
}

fn family_value(families: &[MetricFamily], name: &str) -> Option<f64> {
    families
        .iter()
        .find(|f| f.name() == name)
        .map(|f| f.metric[0].counter.value())
}

#[test]
fn snapshot_with_no_extra_registries_is_the_default() {
    let default = Registry::new();
    counter_registered(&default, "base_total", "base counter", 3);
    let service = RegistryService::new(default.clone());
    let snapshot = service.gather_all();
    let direct = default.gather();
    assert_eq!(snapshot.len(), direct.len());
    assert_eq!(family_value(&snapshot, "base_total"), Some(3.0));
}

#[test]
fn default_registry_handle_is_shared() {
    let service = RegistryService::new(Registry::new());
    counter_registered(&service.default_registry(), "late_total", "registered later", 2);
    assert_eq!(family_value(&service.gather_all(), "late_total"), Some(2.0));
}

#[test]
fn added_registry_appears_in_snapshot() {
    let mut service = RegistryService::new(Registry::new());
    let extra = Registry::new();
    counter_registered(&extra, "extra_total", "extra counter", 5);
    service.add_registry(9, extra);
    assert_eq!(family_value(&service.gather_all(), "extra_total"), Some(5.0));
}

#[test]
fn removed_registry_disappears_from_snapshot() {
    let mut service = RegistryService::new(Registry::new());
    let extra = Registry::new();
    counter_registered(&extra, "extra_total", "extra counter", 5);
    service.add_registry(9, extra);
    service.remove_registry(9);
    assert_eq!(family_value(&service.gather_all(), "extra_total"), None);
    assert!(service.gather_all().is_empty());
}

#[test]
fn removing_an_unknown_key_is_a_no_op() {
    let mut service = RegistryService::new(Registry::new());
    let extra = Registry::new();
    counter_registered(&extra, "kept_total", "kept counter", 1);
    service.add_registry(1, extra);
    service.remove_registry(42);
    assert_eq!(family_value(&service.gather_all(), "kept_total"), Some(1.0));
}

#[test]
fn several_registries_are_all_merged() {
    let default = Registry::new();
    counter_registered(&default, "a_total", "a", 1);
    let mut service = RegistryService::new(default);
    let r1 = Registry::new();
    counter_registered(&r1, "b_total", "b", 2);
    let r2 = Registry::new();
    counter_registered(&r2, "c_total", "c", 3);
    service.add_registry(1, r1);
    service.add_registry(2, r2);
    let snapshot = service.gather_all();
    assert_eq!(snapshot.len(), 3);
    assert_eq!(family_value(&snapshot, "a_total"), Some(1.0));
    assert_eq!(family_value(&snapshot, "b_total"), Some(2.0));
    assert_eq!(family_value(&snapshot, "c_total"), Some(3.0));
}

#[test]
fn name_collisions_are_reported_twice_not_masked() {
    let default = Registry::new();
    counter_registered(&default, "dup_total", "dup", 1);
    let mut service = RegistryService::new(default);
    let extra = Registry::new();
    counter_registered(&extra, "dup_total", "dup", 2);
    service.add_registry(7, extra);
    let snapshot = service.gather_all();
    let dups = snapshot.iter().filter(|f| f.name() == "dup_total").count();
    assert_eq!(dups, 2);
}

#[test]
fn metrics_endpoint_returns_exposition_text() {
    let mut service = RegistryService::new(Registry::new());
    let extra = Registry::new();
    counter_registered(&extra, "hits_total", "hits", 4);
    service.add_registry(3, extra);
    let (status, body) = metrics(&service);
    assert_eq!(status, 200);
    assert!(body.contains("hits_total"));
    assert!(body.contains("4"));
}

#[test]
fn metrics_struct_registers_its_three_counters() {
    let registry = Registry::new();
    let m = Metrics::new(&registry).unwrap();
    m.requests.increment();
    m.requests.increment();
    m.get_attestation_requests.increment();
    assert_eq!(m.requests.value(), 2);
    assert_eq!(m.get_attestation_requests.value(), 1);
    assert_eq!(m.process_data_requests.value(), 0);
    let families = registry.gather();
    let names: Vec<&str> = families.iter().map(|f| f.name()).collect();
    assert!(names.contains(&"total_requests"));
    assert!(names.contains(&"total_get_attestation_requests"));
    assert!(names.contains(&"total_process_data_requests"));
}

#[test]
fn duplicate_metric_registration_is_an_error() {
    let registry = Registry::new();
    assert!(Metrics::new(&registry).is_ok());
    let again = Metrics::new(&registry);
    assert!(again.is_err());
}

#[test]
fn flattening_keeps_group_and_family_order() {
    let named = |n: &str| {
        let mut f = MetricFamily::default();
        f.set_name(n.to_string());
        f
    };
    let flat = nautilus_server::registry::flatten_families(vec![
        vec![named("a"), named("b")],
        vec![],
        vec![named("c")],
    ]);
    let names: Vec<&str> = flat.iter().map(|f| f.name()).collect();
    assert_eq!(names, vec!["a", "b", "c"]);
}
