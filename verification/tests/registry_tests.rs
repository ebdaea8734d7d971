use kafka_eye::error::KafkaEyeError;
use kafka_eye::config::SecurityConfig;
use kafka_eye::registry::ClusterRegistry;

fn brokers(v: &[&str]) -> Vec<String> {
    v.iter().map(|s| s.to_string()).collect()
}

fn config_err_text(e: KafkaEyeError) -> String {
    match e {
        KafkaEyeError::Config(m) => m,
        other => panic!("expected Config error, got {:?}", other),
    }
}

#[test]
fn registry_add_switch_remove_leaves_nothing() {
    let mut reg = ClusterRegistry::new();
    assert!(reg.add_cluster("a", &brokers(&["b", "c"]), "kafka-eye-a", None).is_ok());
    assert!(reg.set_active_cluster("a").is_ok());
    assert!(reg.remove_cluster("a").is_ok());
    assert_eq!(reg.len(), 0);
    assert!(reg.get_active_cluster().is_none());
    assert!(reg.list_clusters().is_empty());
}

#[test]
fn registry_add_stores_brokers_and_client_id() {
    let mut reg = ClusterRegistry::new();
    reg.add_cluster("p", &brokers(&["h1:9092", "h2:9092"]), "me", None).unwrap();
    assert!(reg.has_cluster("p"));
    let c = reg.get_cluster("p").unwrap();
    assert_eq!(c.brokers, brokers(&["h1:9092", "h2:9092"]));
    assert_eq!(c.client_id, "me");
}

#[test]
fn registry_add_defaults_empty_client_id() {
    let mut reg = ClusterRegistry::new();
    reg.add_cluster("p", &brokers(&["h:1"]), "", None).unwrap();
    assert_eq!(reg.get_cluster("p").unwrap().client_id, "kafka-eye-p");
}

#[test]
fn registry_rejects_duplicate_name() {
    let mut reg = ClusterRegistry::new();
    reg.add_cluster("a", &brokers(&["b"]), "c", None).unwrap();
    let e = reg.add_cluster("a", &brokers(&["d"]), "e", None).unwrap_err();
    assert_eq!(config_err_text(e), "Cluster already exists: a");
    assert_eq!(reg.len(), 1);
}

#[test]
fn registry_rejects_empty_name_and_brokers() {
    let mut reg = ClusterRegistry::new();
    let e = reg.add_cluster("", &brokers(&["b"]), "c", None).unwrap_err();
    assert_eq!(config_err_text(e), "Cluster name cannot be empty");
    let e = reg.add_cluster("a", &brokers(&[]), "c", None).unwrap_err();
    assert_eq!(config_err_text(e), "At least one broker is required");
    assert_eq!(reg.len(), 0);
}

#[test]
fn registry_remove_unknown_is_an_error() {
    let mut reg = ClusterRegistry::new();
    let e = reg.remove_cluster("ghost").unwrap_err();
    assert_eq!(config_err_text(e), "Cluster not found: ghost");
}

#[test]
fn registry_switch_unknown_is_an_error() {
    let mut reg = ClusterRegistry::new();
    let e = reg.set_active_cluster("ghost").unwrap_err();
    assert_eq!(config_err_text(e), "Cluster not found: ghost");
    assert!(reg.get_active_cluster().is_none());
}

#[test]
fn registry_removing_inactive_keeps_active() {
    let mut reg = ClusterRegistry::new();
    reg.add_cluster("a", &brokers(&["x"]), "c", None).unwrap();
    reg.add_cluster("b", &brokers(&["y"]), "c", None).unwrap();
    reg.set_active_cluster("a").unwrap();
    reg.remove_cluster("b").unwrap();
    let (name, _) = reg.get_active_cluster().unwrap();
    assert_eq!(name, "a");
    assert_eq!(reg.list_clusters(), vec!["a".to_string()]);
}

#[test]
fn registry_list_keeps_insertion_order() {
    let mut reg = ClusterRegistry::new();
    reg.add_cluster("one", &brokers(&["x"]), "c", None).unwrap();
    reg.add_cluster("two", &brokers(&["y"]), "c", None).unwrap();
    reg.add_cluster("three", &brokers(&["z"]), "c", None).unwrap();
    assert_eq!(
        reg.list_clusters(),
        vec!["one".to_string(), "two".to_string(), "three".to_string()]
    );
}

#[test]
fn registry_rejects_incoherent_security_block() {
    let mut reg = ClusterRegistry::new();
    let security = SecurityConfig {
        protocol: "SASL_SSL".to_string(),
        sasl: None,
        ssl: None,
    };
    let e = reg.add_cluster("a", &brokers(&["h:1"]), "c", Some(security)).unwrap_err();
    assert_eq!(config_err_text(e), "Invalid security configuration");
    assert_eq!(reg.len(), 0);
}
