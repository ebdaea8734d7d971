use kafka_eye::commands::Command;

fn unknown_reason(c: Command) -> String {
    match c {
        Command::Unknown(m) => m,
        other => panic!("expected Unknown, got {:?}", other),
    }
}

#[test]
fn parse_cluster_add_full() {
    match Command::parse("cluster add prod h1:9092,h2:9092") {
        Command::AddCluster { name, brokers, client_id, security } => {
            assert_eq!(name, "prod");
            assert_eq!(brokers, vec!["h1:9092".to_string(), "h2:9092".to_string()]);
            assert_eq!(client_id, "kafka-eye-prod");
            assert!(security.is_none());
        }
        other => panic!("expected AddCluster, got {:?}", other),
    }
}

#[test]
fn parse_cluster_add_does_not_trim_broker_pieces() {
    // The command path splits the broker token on commas without trimming
    // or dropping empty pieces, unlike the form path.
    match Command::parse("cluster add a b,") {
        Command::AddCluster { brokers, .. } => {
            assert_eq!(brokers, vec!["b".to_string(), "".to_string()]);
        }
        other => panic!("expected AddCluster, got {:?}", other),
    }
}

#[test]
fn parse_cluster_remove_and_alias() {
    match Command::parse("cluster remove x") {
        Command::RemoveCluster { name } => assert_eq!(name, "x"),
        other => panic!("unexpected {:?}", other),
    }
    match Command::parse("cluster rm y") {
        Command::RemoveCluster { name } => assert_eq!(name, "y"),
        other => panic!("unexpected {:?}", other),
    }
}

#[test]
fn parse_cluster_switch_and_alias() {
    match Command::parse("cluster switch x") {
        Command::SwitchCluster { name } => assert_eq!(name, "x"),
        other => panic!("unexpected {:?}", other),
    }
    match Command::parse("cluster use z") {
        Command::SwitchCluster { name } => assert_eq!(name, "z"),
        other => panic!("unexpected {:?}", other),
    }
}

#[test]
fn parse_simple_commands() {
    assert!(matches!(Command::parse("cluster list"), Command::ListClusters));
    assert!(matches!(Command::parse("cluster ls"), Command::ListClusters));
    assert!(matches!(Command::parse("cluster manage"), Command::ManageClusters));
    assert!(matches!(Command::parse("status"), Command::Status));
    assert!(matches!(Command::parse("connect"), Command::Connect));
    assert!(matches!(Command::parse("disconnect"), Command::Disconnect));
    assert!(matches!(Command::parse("q"), Command::Quit));
    assert!(matches!(Command::parse("quit"), Command::Quit));
}

#[test]
fn parse_empty_input_is_unknown() {
    assert_eq!(unknown_reason(Command::parse("")), "Empty command");
    assert_eq!(unknown_reason(Command::parse("   \t ")), "Empty command");
}

#[test]
fn parse_short_cluster_commands_are_unknown() {
    assert_eq!(
        unknown_reason(Command::parse("cluster")),
        "Missing cluster subcommand"
    );
    assert_eq!(
        unknown_reason(Command::parse("cluster add")),
        "Usage: cluster add <name> <broker1,broker2,...>"
    );
    assert_eq!(
        unknown_reason(Command::parse("cluster add onlyname")),
        "Usage: cluster add <name> <broker1,broker2,...>"
    );
    assert_eq!(
        unknown_reason(Command::parse("cluster remove")),
        "Usage: cluster remove <name>"
    );
    assert_eq!(
        unknown_reason(Command::parse("cluster rm")),
        "Usage: cluster remove <name>"
    );
    assert_eq!(
        unknown_reason(Command::parse("cluster switch")),
        "Usage: cluster switch <name>"
    );
    assert_eq!(
        unknown_reason(Command::parse("cluster use")),
        "Usage: cluster switch <name>"
    );
}

#[test]
fn parse_unknown_words_carry_a_reason() {
    assert_eq!(
        unknown_reason(Command::parse("frobnicate")),
        "Unknown command: frobnicate"
    );
    assert_eq!(
        unknown_reason(Command::parse("cluster explode now")),
        "Unknown cluster subcommand: explode"
    );
}

#[test]
fn parse_collapses_whitespace_runs() {
    assert!(matches!(
        Command::parse("  cluster \t list  "),
        Command::ListClusters
    ));
    match Command::parse(" cluster  add  a  b,c ") {
        Command::AddCluster { name, brokers, .. } => {
            assert_eq!(name, "a");
            assert_eq!(brokers, vec!["b".to_string(), "c".to_string()]);
        }
        other => panic!("unexpected {:?}", other),
    }
}
