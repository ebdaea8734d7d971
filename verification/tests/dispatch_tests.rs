use kafka_eye::dispatch::apply_connect_result;
use kafka_eye::dispatch::apply_disconnect_result;
use kafka_eye::dispatch::execute_command;
use kafka_eye::dispatch::handle_cluster_management_key;
use kafka_eye::dispatch::handle_command_mode_key;
use kafka_eye::dispatch::handle_event;
use kafka_eye::dispatch::handle_normal_mode_key;
use kafka_eye::dispatch::submit_cluster_form;
use kafka_eye::dispatch::Action;
use kafka_eye::events::AppEvent;
use kafka_eye::events::InputEvent;
use kafka_eye::events::Key;
use kafka_eye::form::ClusterFormAction;
use kafka_eye::form::ClusterFormState;
use kafka_eye::kafka::KafkaManager;
use kafka_eye::registry::ClusterRegistry;
use kafka_eye::state::AppMode;
use kafka_eye::state::AppState;
use kafka_eye::state::Screen;
use kafka_eye::state::TopicInfo;

fn topic(name: &str) -> TopicInfo {
    TopicInfo { name: name.to_string(), partitions: 1, replicas: 1, configs: Vec::new() }
}

#[test]
fn add_switch_remove_round_trip_persists_each_step() {
    let mut s = AppState::new();
    let mut reg = ClusterRegistry::new();
    let a1 = execute_command(&mut s, &mut reg, "cluster add a b,c");
    assert!(matches!(a1, Action::SaveRegistry));
    assert!(reg.has_cluster("a"));
    let a2 = execute_command(&mut s, &mut reg, "cluster switch a");
    assert!(matches!(a2, Action::SaveRegistry));
    let (active, _) = reg.get_active_cluster().unwrap();
    assert_eq!(active, "a");
    let a3 = execute_command(&mut s, &mut reg, "cluster remove a");
    assert!(matches!(a3, Action::SaveRegistry));
    assert!(reg.get_active_cluster().is_none());
    assert_eq!(reg.len(), 0);
}

#[test]
fn double_g_goes_to_top_but_interrupted_g_does_not() {
    let mut s = AppState::new();
    s.current_screen = Screen::TopicList;
    for i in 0..10 {
        s.topics.push(topic(&format!("t{}", i)));
    }
    for _ in 0..5 {
        handle_normal_mode_key(&mut s, Key::Down);
    }
    assert_eq!(s.selected_index, 5);
    handle_normal_mode_key(&mut s, Key::Char('g'));
    handle_normal_mode_key(&mut s, Key::Char('g'));
    assert_eq!(s.selected_index, 0);
    assert_eq!(s.scroll_offset, 0);

    for _ in 0..5 {
        handle_normal_mode_key(&mut s, Key::Down);
    }
    handle_normal_mode_key(&mut s, Key::Char('g'));
    handle_normal_mode_key(&mut s, Key::Char('x'));
    handle_normal_mode_key(&mut s, Key::Char('g'));
    assert_eq!(s.selected_index, 5);
}

#[test]
fn down_key_never_exceeds_list_end() {
    let mut s = AppState::new();
    s.current_screen = Screen::TopicList;
    s.topics.push(topic("a"));
    s.topics.push(topic("b"));
    for _ in 0..4 {
        handle_normal_mode_key(&mut s, Key::Down);
    }
    assert_eq!(s.selected_index, 1);
}

#[test]
fn connect_without_active_cluster_creates_no_session() {
    let mut s = AppState::new();
    let mut reg = ClusterRegistry::new();
    let a = execute_command(&mut s, &mut reg, "connect");
    assert!(matches!(a, Action::Idle));
    assert!(!s.connected);
    assert!(!s.connection_status.is_empty());
    assert_eq!(s.connection_status, "No active cluster configured");
}

#[test]
fn connect_with_active_cluster_requests_a_session() {
    let mut s = AppState::new();
    let mut reg = ClusterRegistry::new();
    execute_command(&mut s, &mut reg, "cluster add a h:1");
    execute_command(&mut s, &mut reg, "cluster switch a");
    let a = execute_command(&mut s, &mut reg, "connect");
    match a {
        Action::Connect { name, config } => {
            assert_eq!(name, "a");
            assert_eq!(config.brokers, vec!["h:1".to_string()]);
        }
        other => panic!("expected Connect, got {:?}", other),
    }
}

#[test]
fn form_submission_trims_and_filters_brokers() {
    let mut s = AppState::new();
    let mut reg = ClusterRegistry::new();
    s.cluster_form = Some(ClusterFormState {
        action: ClusterFormAction::Add,
        name: "x".to_string(),
        brokers: "h1:9092, h2:9092".to_string(),
        client_id: String::new(),
        security_protocol: String::new(),
        sasl_mechanism: String::new(),
        sasl_username: String::new(),
        sasl_password: String::new(),
        ssl_ca_location: String::new(),
        current_field: 0,
    });
    s.mode = AppMode::ClusterForm;
    let a = submit_cluster_form(&mut s, &mut reg);
    assert!(matches!(a, Action::SaveRegistry));
    assert!(s.cluster_form.is_none());
    assert!(matches!(s.mode, AppMode::Normal));
    let c = reg.get_cluster("x").unwrap();
    assert_eq!(c.brokers, vec!["h1:9092".to_string(), "h2:9092".to_string()]);
    assert_eq!(c.client_id, "kafka-eye-x");
    assert_eq!(s.connection_status, "Cluster 'x' added successfully");
}

#[test]
fn form_submission_requires_name_and_brokers() {
    let mut s = AppState::new();
    let mut reg = ClusterRegistry::new();
    s.cluster_form = Some(ClusterFormState::new(ClusterFormAction::Add, None));
    s.mode = AppMode::ClusterForm;
    let a = submit_cluster_form(&mut s, &mut reg);
    assert!(matches!(a, Action::Idle));
    // The form stays open for correction.
    assert!(s.cluster_form.is_some());
    assert_eq!(s.connection_status, "Cluster name and brokers are required");
    assert_eq!(reg.len(), 0);
}

#[test]
fn quit_from_command_mode_sets_the_termination_flag() {
    let mut s = AppState::new();
    let mut reg = ClusterRegistry::new();
    s.mode = AppMode::Command;
    for c in "quit".chars() {
        handle_command_mode_key(&mut s, &mut reg, Key::Char(c));
    }
    let a = handle_command_mode_key(&mut s, &mut reg, Key::Enter);
    assert!(matches!(a, Action::Idle));
    assert!(s.should_quit);
    assert!(matches!(s.mode, AppMode::Normal));
    assert_eq!(s.command_input, "");
}

#[test]
fn quit_key_sequence_through_the_event_loop() {
    let mut s = AppState::new();
    let mut reg = ClusterRegistry::new();
    let keys = [
        Key::Char(':'),
        Key::Char('q'),
        Key::Enter,
    ];
    for k in keys {
        handle_event(&mut s, &mut reg, AppEvent::Input(InputEvent::Key(k)));
    }
    assert!(s.should_quit);
}

#[test]
fn unknown_command_is_surfaced_not_fatal() {
    let mut s = AppState::new();
    let mut reg = ClusterRegistry::new();
    let a = execute_command(&mut s, &mut reg, "bogus");
    assert!(matches!(a, Action::Idle));
    assert_eq!(s.connection_status, "Unknown command: bogus");
    assert!(!s.should_quit);
}

#[test]
fn duplicate_add_reports_and_keeps_registry() {
    let mut s = AppState::new();
    let mut reg = ClusterRegistry::new();
    execute_command(&mut s, &mut reg, "cluster add a b");
    let a = execute_command(&mut s, &mut reg, "cluster add a c");
    assert!(matches!(a, Action::Idle));
    assert_eq!(s.connection_status, "Configuration error: Cluster already exists: a");
    assert_eq!(reg.get_cluster("a").unwrap().brokers, vec!["b".to_string()]);
}

#[test]
fn status_report_for_a_fresh_session() {
    let mut s = AppState::new();
    let mut reg = ClusterRegistry::new();
    execute_command(&mut s, &mut reg, "status");
    assert_eq!(
        s.connection_status,
        "\u{2717} Not connected to any cluster | No active cluster configured | \
         No clusters configured |  | Next steps: Use 'cluster add <name> <brokers>' to add a cluster"
    );
}

#[test]
fn manage_clusters_opens_the_management_screen() {
    let mut s = AppState::new();
    let mut reg = ClusterRegistry::new();
    execute_command(&mut s, &mut reg, "cluster add bravo h:2");
    execute_command(&mut s, &mut reg, "cluster add alpha h:1");
    let a = execute_command(&mut s, &mut reg, "cluster manage");
    assert!(matches!(a, Action::Idle));
    assert!(matches!(s.current_screen, Screen::ClusterManagement));
    assert!(matches!(s.mode, AppMode::Normal));
    // The listing is sorted, not in registry insertion order.
    assert_eq!(s.cluster_list, vec!["alpha".to_string(), "bravo".to_string()]);
    assert_eq!(s.selected_index, 0);
}

#[test]
fn management_keys_open_forms_and_switch() {
    let mut s = AppState::new();
    let mut reg = ClusterRegistry::new();
    execute_command(&mut s, &mut reg, "cluster add a h:1");
    execute_command(&mut s, &mut reg, "cluster manage");

    let a = handle_cluster_management_key(&mut s, &mut reg, Key::Char('s'));
    assert!(matches!(a, Action::SaveRegistry));
    let (active, _) = reg.get_active_cluster().unwrap();
    assert_eq!(active, "a");
    assert_eq!(
        s.connection_status,
        "Switched to cluster 'a'. Use 'connect' to connect."
    );

    handle_cluster_management_key(&mut s, &mut reg, Key::Char('d'));
    assert!(matches!(s.mode, AppMode::ClusterForm));
    match &s.cluster_form {
        Some(f) => {
            assert!(matches!(f.action, ClusterFormAction::Delete));
            assert_eq!(f.name, "a");
        }
        None => panic!("expected an open form"),
    }

    // Submitting the delete form removes the entry and clears the form.
    let a = handle_event(&mut s, &mut reg, AppEvent::Input(InputEvent::Key(Key::Enter)));
    assert!(matches!(a, Action::SaveRegistry));
    assert_eq!(reg.len(), 0);
    assert!(reg.get_active_cluster().is_none());
    assert_eq!(s.connection_status, "Cluster 'a' deleted successfully");
}

#[test]
fn list_clusters_reports_names() {
    let mut s = AppState::new();
    let mut reg = ClusterRegistry::new();
    execute_command(&mut s, &mut reg, "cluster list");
    assert_eq!(s.connection_status, "No clusters configured");
    execute_command(&mut s, &mut reg, "cluster add a h:1");
    execute_command(&mut s, &mut reg, "cluster add b h:2");
    execute_command(&mut s, &mut reg, "cluster list");
    assert_eq!(s.connection_status, "Configured clusters: a, b");
}

#[test]
fn removing_the_connected_cluster_drops_connection_state() {
    let mut s = AppState::new();
    let mut reg = ClusterRegistry::new();
    execute_command(&mut s, &mut reg, "cluster add a h:1");
    execute_command(&mut s, &mut reg, "cluster switch a");
    s.set_connected(true, Some("a".to_string()));
    execute_command(&mut s, &mut reg, "cluster remove a");
    assert!(!s.connected);
    assert!(s.current_cluster.is_none());
    assert_eq!(
        s.connection_status,
        "No cluster configured. Use 'cluster add' to add a cluster."
    );
}

#[test]
fn connect_outcomes_update_session_and_status() {
    let mut s = AppState::new();
    let mut km = KafkaManager::new();
    assert!(!km.is_connected());
    apply_connect_result(&mut s, &mut km, "a".to_string(), Ok(()));
    assert!(km.is_connected());
    assert!(s.connected);
    assert_eq!(s.connection_status, "Connected to a");
    apply_connect_result(&mut s, &mut km, "a".to_string(), Err("boom".to_string()));
    assert!(!km.is_connected());
    assert!(!s.connected);
    assert_eq!(s.current_cluster, Some("a".to_string()));
    assert_eq!(s.connection_status, "Failed to connect: boom");
}

#[test]
fn disconnect_always_ends_the_session() {
    let mut s = AppState::new();
    let mut km = KafkaManager::new();
    apply_connect_result(&mut s, &mut km, "a".to_string(), Ok(()));
    apply_disconnect_result(&mut s, &mut km, Err("late".to_string()));
    assert!(!km.is_connected());
    assert!(!s.connected);
    assert_eq!(s.connection_status, "Failed to disconnect: late");
    apply_disconnect_result(&mut s, &mut km, Ok(()));
    assert_eq!(s.connection_status, "Disconnected");
}

#[test]
fn escape_abandons_the_command_buffer() {
    let mut s = AppState::new();
    let mut reg = ClusterRegistry::new();
    handle_normal_mode_key(&mut s, Key::Char(':'));
    assert!(matches!(s.mode, AppMode::Command));
    for c in "quit".chars() {
        handle_command_mode_key(&mut s, &mut reg, Key::Char(c));
    }
    handle_command_mode_key(&mut s, &mut reg, Key::Esc);
    assert!(matches!(s.mode, AppMode::Normal));
    assert_eq!(s.command_input, "");
    assert!(!s.should_quit);
}

#[test]
fn insert_mode_edits_the_buffer() {
    let mut s = AppState::new();
    let mut reg = ClusterRegistry::new();
    handle_event(&mut s, &mut reg, AppEvent::Input(InputEvent::Key(Key::Char('i'))));
    assert!(matches!(s.mode, AppMode::Insert));
    for c in "hi!".chars() {
        handle_event(&mut s, &mut reg, AppEvent::Input(InputEvent::Key(Key::Char(c))));
    }
    assert_eq!(s.input_buffer, "hi!");
    handle_event(&mut s, &mut reg, AppEvent::Input(InputEvent::Key(Key::Backspace)));
    assert_eq!(s.input_buffer, "hi");
    handle_event(&mut s, &mut reg, AppEvent::Input(InputEvent::Key(Key::Esc)));
    assert!(matches!(s.mode, AppMode::Normal));
}

#[test]
fn tick_and_mouse_leave_the_state_unchanged() {
    let mut s = AppState::new();
    let mut reg = ClusterRegistry::new();
    let a = handle_event(&mut s, &mut reg, AppEvent::Tick);
    assert!(matches!(a, Action::Idle));
    let a = handle_event(&mut s, &mut reg, AppEvent::Input(InputEvent::Mouse));
    assert!(matches!(a, Action::Idle));
    assert_eq!(s.connection_status, "Disconnected");
    assert!(matches!(s.mode, AppMode::Normal));
}
