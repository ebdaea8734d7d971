use kafka_eye::config::Config;
use kafka_eye::config::SaslConfig;
use kafka_eye::config::SecurityConfig;
use kafka_eye::config::SslConfig;
use kafka_eye::error::KafkaEyeError;
use kafka_eye::form::split_brokers_form;
use kafka_eye::form::ClusterFormAction;
use kafka_eye::form::ClusterFormState;
use kafka_eye::strutil::join_strings;
use kafka_eye::strutil::sort_strings;
use kafka_eye::strutil::str_le;
use kafka_eye::strutil::str_contains_char;
use kafka_eye::strutil::str_eq;
use kafka_eye::strutil::trim;
use kafka_eye::ui::UI;
use kafka_eye::state::AppMode;
use kafka_eye::state::Screen;

fn config_err_text(e: KafkaEyeError) -> String {
    match e {
        KafkaEyeError::Config(m) => m,
        other => panic!("expected Config error, got {:?}", other),
    }
}

#[test]
fn default_config_validates() {
    let c = Config::default();
    assert!(c.validate().is_ok());
    assert_eq!(c.kafka.brokers, vec!["localhost:9092".to_string()]);
    assert_eq!(c.kafka.client_id, "kafka-eye");
    assert_eq!(c.ui.max_messages, 1000);
    assert_eq!(c.logging.level, "info");
}

#[test]
fn development_and_production_templates_validate() {
    let d = Config::development();
    assert!(d.validate().is_ok());
    assert_eq!(d.kafka.client_id, "kafka-eye-dev");
    assert_eq!(d.logging.level, "debug");
    let p = Config::production();
    assert!(p.validate().is_ok());
    assert_eq!(p.kafka.brokers.len(), 3);
    let sec = p.kafka.security.as_ref().unwrap();
    assert_eq!(sec.protocol, "SASL_SSL");
    assert!(sec.sasl.is_some());
    assert!(sec.ssl.is_some());
}

#[test]
fn validate_rejects_empty_broker_list() {
    let mut c = Config::default();
    c.kafka.brokers.clear();
    assert_eq!(
        config_err_text(c.validate().unwrap_err()),
        "At least one Kafka broker must be configured"
    );
}

#[test]
fn validate_rejects_broker_without_port_separator() {
    let mut c = Config::default();
    c.set_default_broker("nocolon".to_string());
    assert_eq!(
        config_err_text(c.validate().unwrap_err()),
        "Invalid broker format: nocolon. Expected format: host:port"
    );
}

#[test]
fn validate_rejects_empty_client_id() {
    let mut c = Config::default();
    c.kafka.client_id = String::new();
    assert_eq!(config_err_text(c.validate().unwrap_err()), "Client ID cannot be empty");
}

#[test]
fn validate_rejects_unknown_protocol() {
    let mut c = Config::default();
    c.set_security_config(SecurityConfig {
        protocol: "CARRIER_PIGEON".to_string(),
        sasl: None,
        ssl: None,
    });
    assert_eq!(
        config_err_text(c.validate().unwrap_err()),
        "Invalid security protocol: CARRIER_PIGEON"
    );
}

#[test]
fn validate_requires_sasl_and_ssl_blocks() {
    let mut c = Config::default();
    c.set_security_config(SecurityConfig {
        protocol: "SASL_SSL".to_string(),
        sasl: None,
        ssl: None,
    });
    assert_eq!(
        config_err_text(c.validate().unwrap_err()),
        "SASL configuration is required when using SASL protocol"
    );
    c.set_security_config(SecurityConfig {
        protocol: "SASL_SSL".to_string(),
        sasl: Some(SaslConfig { mechanism: "PLAIN".to_string(), username: None, password: None }),
        ssl: None,
    });
    assert_eq!(
        config_err_text(c.validate().unwrap_err()),
        "SSL configuration is required when using SSL protocol"
    );
    c.set_security_config(SecurityConfig {
        protocol: "SASL_SSL".to_string(),
        sasl: Some(SaslConfig { mechanism: "PLAIN".to_string(), username: None, password: None }),
        ssl: Some(SslConfig {
            ca_location: None,
            certificate_location: None,
            key_location: None,
            key_password: None,
        }),
    });
    assert!(c.validate().is_ok());
    c.clear_security_config();
    assert!(c.kafka.security.is_none());
}

#[test]
fn broker_list_edits() {
    let mut c = Config::default();
    c.add_broker("h2:9093".to_string());
    assert_eq!(c.kafka.brokers, vec!["localhost:9092".to_string(), "h2:9093".to_string()]);
    // Adding an equal address again changes nothing.
    c.add_broker("h2:9093".to_string());
    assert_eq!(c.kafka.brokers.len(), 2);
    c.remove_broker("localhost:9092");
    assert_eq!(c.kafka.brokers, vec!["h2:9093".to_string()]);
    c.set_default_broker("only:1".to_string());
    assert_eq!(c.kafka.brokers, vec!["only:1".to_string()]);
}

#[test]
fn error_messages_carry_their_category() {
    assert_eq!(KafkaEyeError::Config("x".to_string()).message(), "Configuration error: x");
    assert_eq!(KafkaEyeError::Kafka("y".to_string()).message(), "Kafka error: y");
    assert_eq!(KafkaEyeError::Other("z".to_string()).message(), "Other error: z");
    assert_eq!(KafkaEyeError::Io("a".to_string()).message(), "IO error: a");
    assert_eq!(KafkaEyeError::Ui("b".to_string()).message(), "UI error: b");
    assert_eq!(
        KafkaEyeError::Serialization("c".to_string()).message(),
        "Serialization error: c"
    );
}

#[test]
fn string_helpers_behave() {
    assert!(str_eq("abc", "abc"));
    assert!(!str_eq("abc", "abd"));
    assert!(!str_eq("abc", "ab"));
    assert!(str_contains_char("host:9092", ':'));
    assert!(!str_contains_char("nocolon", ':'));
    assert_eq!(trim("  a b \t"), "a b");
    assert_eq!(trim("   "), "");
    assert_eq!(trim("x"), "x");
    let parts = vec!["a".to_string(), "b".to_string(), "c".to_string()];
    assert_eq!(join_strings(&parts, ", "), "a, b, c");
    assert_eq!(join_strings(&Vec::new(), ", "), "");
}

#[test]
fn form_broker_field_split_trims_and_filters() {
    assert_eq!(
        split_brokers_form("h1:9092, h2:9092"),
        vec!["h1:9092".to_string(), "h2:9092".to_string()]
    );
    assert_eq!(split_brokers_form(" , ,h:1, "), vec!["h:1".to_string()]);
    assert!(split_brokers_form("").is_empty());
}

#[test]
fn form_cursor_wraps_and_edits_fields() {
    let mut f = ClusterFormState::new(ClusterFormAction::Add, None);
    assert_eq!(f.current_field, 0);
    f.prev_field();
    assert_eq!(f.current_field, 7);
    f.next_field();
    assert_eq!(f.current_field, 0);
    f.add_char('x');
    f.add_char('y');
    assert_eq!(f.name, "xy");
    f.backspace_field();
    assert_eq!(f.name, "x");
    f.next_field();
    f.add_char('h');
    assert_eq!(f.brokers, "h");
    assert_eq!(f.name, "x");
    f.backspace_field();
    f.backspace_field();
    assert_eq!(f.brokers, "");
}

#[test]
fn ui_labels_follow_mode_and_screen() {
    let ui = UI::new();
    assert_eq!(ui.tab_index(Screen::Dashboard), 0);
    assert_eq!(ui.tab_index(Screen::TopicDetail), 1);
    assert_eq!(ui.tab_index(Screen::ClusterManagement), 7);
    assert_eq!(ui.mode_label(AppMode::Normal), "NORMAL");
    assert_eq!(ui.mode_label(AppMode::ClusterForm), "FORM");
    assert_eq!(ui.help_text(AppMode::Command), "ESC:cancel Enter:exec");
}

#[test]
fn code_point_order_on_strings() {
    assert!(str_le("a", "b"));
    assert!(!str_le("b", "a"));
    assert!(str_le("a", "ab"));
    assert!(!str_le("ab", "a"));
    assert!(str_le("same", "same"));
    assert!(str_le("", "anything"));
    assert!(str_le("Zebra", "apple"));
}

#[test]
fn sorting_keeps_every_element() {
    let v = vec![
        "pear".to_string(),
        "apple".to_string(),
        "apple".to_string(),
        "banana".to_string(),
    ];
    let sorted = sort_strings(&v);
    assert_eq!(
        sorted,
        vec![
            "apple".to_string(),
            "apple".to_string(),
            "banana".to_string(),
            "pear".to_string(),
        ]
    );
    assert!(sort_strings(&Vec::new()).is_empty());
}
