use kafka_eye::state::AppMode;
use kafka_eye::state::AppState;
use kafka_eye::state::Message;
use kafka_eye::state::MonitoringStats;
use kafka_eye::state::Screen;
use kafka_eye::state::TopicInfo;
use kafka_eye::MAX_MESSAGES;

fn topic(name: &str) -> TopicInfo {
    TopicInfo { name: name.to_string(), partitions: 1, replicas: 1, configs: Vec::new() }
}

fn message(n: usize) -> Message {
    Message {
        topic: "t".to_string(),
        partition: 0,
        offset: n as i64,
        key: None,
        value: format!("m{}", n),
        timestamp_ms: n as i64,
        headers: Vec::new(),
    }
}

#[test]
fn initial_state_is_disconnected_dashboard() {
    let s = AppState::new();
    assert!(matches!(s.mode, AppMode::Normal));
    assert!(matches!(s.current_screen, Screen::Dashboard));
    assert_eq!(s.selected_index, 0);
    assert_eq!(s.scroll_offset, 0);
    assert_eq!(s.connection_status, "Disconnected");
    assert!(!s.connected);
    assert!(!s.should_quit);
}

#[test]
fn move_down_clamps_at_last_row() {
    let mut s = AppState::new();
    s.current_screen = Screen::TopicList;
    s.topics.push(topic("a"));
    s.topics.push(topic("b"));
    s.move_down();
    assert_eq!(s.selected_index, 1);
    s.move_down();
    assert_eq!(s.selected_index, 1);
    s.move_down();
    assert_eq!(s.selected_index, 1);
}

#[test]
fn move_down_on_empty_list_stays_at_zero() {
    let mut s = AppState::new();
    s.current_screen = Screen::TopicList;
    s.move_down();
    assert_eq!(s.selected_index, 0);
}

#[test]
fn move_up_clamps_at_zero() {
    let mut s = AppState::new();
    s.move_up();
    assert_eq!(s.selected_index, 0);
}

#[test]
fn scroll_follows_selection_down_and_up() {
    let mut s = AppState::new();
    s.current_screen = Screen::TopicList;
    for i in 0..30 {
        s.topics.push(topic(&format!("t{}", i)));
    }
    for _ in 0..25 {
        s.move_down();
    }
    assert_eq!(s.selected_index, 25);
    // The window slides just enough to keep row 25 visible.
    assert_eq!(s.scroll_offset, 6);
    s.go_to_top();
    assert_eq!(s.selected_index, 0);
    assert_eq!(s.scroll_offset, 0);
}

#[test]
fn go_to_bottom_selects_last_row() {
    let mut s = AppState::new();
    s.current_screen = Screen::TopicList;
    for i in 0..5 {
        s.topics.push(topic(&format!("t{}", i)));
    }
    s.go_to_bottom();
    assert_eq!(s.selected_index, 4);
}

#[test]
fn page_moves_are_clamped() {
    let mut s = AppState::new();
    s.current_screen = Screen::TopicList;
    for i in 0..15 {
        s.topics.push(topic(&format!("t{}", i)));
    }
    s.page_down();
    assert_eq!(s.selected_index, 10);
    s.page_down();
    assert_eq!(s.selected_index, 14);
    s.page_up();
    assert_eq!(s.selected_index, 4);
    s.page_up();
    assert_eq!(s.selected_index, 0);
}

#[test]
fn screen_cycle_returns_to_start() {
    let mut s = AppState::new();
    let mut seen = Vec::new();
    for _ in 0..8 {
        seen.push(s.current_screen);
        s.next_screen();
    }
    assert!(matches!(s.current_screen, Screen::Dashboard));
    assert_eq!(seen.len(), 8);
    for _ in 0..8 {
        s.previous_screen();
    }
    assert!(matches!(s.current_screen, Screen::Dashboard));
}

#[test]
fn changing_screen_resets_the_cursor() {
    let mut s = AppState::new();
    s.current_screen = Screen::TopicList;
    for i in 0..30 {
        s.topics.push(topic(&format!("t{}", i)));
    }
    for _ in 0..25 {
        s.move_down();
    }
    s.next_screen();
    assert_eq!(s.selected_index, 0);
    assert_eq!(s.scroll_offset, 0);
}

#[test]
fn message_cache_evicts_oldest_beyond_cap() {
    let mut s = AppState::new();
    for i in 0..(MAX_MESSAGES + 1) {
        s.add_message(message(i));
    }
    assert_eq!(s.messages.len(), MAX_MESSAGES);
    // The oldest entry is gone; order of the survivors is preserved.
    assert_eq!(s.messages[0].value, "m1");
    assert_eq!(s.messages[MAX_MESSAGES - 1].value, format!("m{}", MAX_MESSAGES));
    for i in 0..(MAX_MESSAGES - 1) {
        assert!(s.messages[i].offset < s.messages[i + 1].offset);
    }
}

#[test]
fn clear_messages_empties_the_cache() {
    let mut s = AppState::new();
    s.add_message(message(1));
    s.add_message(message(2));
    s.clear_messages();
    assert!(s.messages.is_empty());
}

#[test]
fn selected_topic_depends_on_screen_and_bounds() {
    let mut s = AppState::new();
    s.topics.push(topic("a"));
    assert!(s.get_selected_topic().is_none());
    s.current_screen = Screen::TopicList;
    assert_eq!(s.get_selected_topic().unwrap().name, "a");
    s.selected_index = 5;
    assert!(s.get_selected_topic().is_none());
}

#[test]
fn set_connected_writes_the_status_line() {
    let mut s = AppState::new();
    s.set_connected(true, Some("prod".to_string()));
    assert!(s.connected);
    assert_eq!(s.connection_status, "Connected to prod");
    s.set_connected(false, None);
    assert!(!s.connected);
    assert_eq!(s.connection_status, "Disconnected");
}

#[test]
fn update_stats_replaces_counters() {
    let mut s = AppState::new();
    s.update_stats(MonitoringStats { total_topics: 3, total_partitions: 9, total_consumer_groups: 2 });
    assert_eq!(s.stats.total_topics, 3);
    assert_eq!(s.stats.total_partitions, 9);
    assert_eq!(s.stats.total_consumer_groups, 2);
}
