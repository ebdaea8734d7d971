//! Table-driven event dispatch: one handler per mode (and per screen where
//! it matters), each a pure transition on the application state and the
//! registry. Handlers return an `Action` naming the outside work the event
//! loop must perform — persisting the registry, connecting, disconnecting
//! — and the loop reports outcomes back through the `apply_*` functions.

use vstd::prelude::*;
use vstd::string::StrSliceExecFns;
use vstd::string::StringExecFns;
use crate::commands::Command;
use crate::commands::SpecCommand;
use crate::commands::parse_spec;
use crate::config::KafkaConfig;
use crate::error::SpecError;
use crate::error::error_message;
use crate::events::AppEvent;
use crate::events::InputEvent;
use crate::events::Key;
use crate::form::ClusterFormAction;
use crate::form::ClusterFormState;
use crate::form::field_at;
use crate::form::split_brokers_form;
use crate::form::split_trim_filter;
use crate::kafka::ConnectionSession;
use crate::kafka::KafkaManager;
use crate::registry::ClusterRegistry;
use crate::registry::SpecRegistry;
use crate::registry::add_error;
use crate::registry::can_add;
use crate::registry::spec_added;
use crate::registry::spec_config_of;
use crate::registry::spec_has;
use crate::registry::spec_names;
use crate::state::AppMode;
use crate::state::AppState;
use crate::state::Screen;
use crate::state::after_go_bottom;
use crate::state::after_move_down;
use crate::state::after_move_up;
use crate::state::next_screen_spec;
use crate::state::previous_screen_spec;
use crate::state::state_wf;
use crate::state::status_set;
use crate::strutil::backspace;
use crate::strutil::join_spec;
use crate::strutil::join_strings;
use crate::strutil::push_char;
use crate::strutil::sort_strings;
use crate::strutil::strings_sorted;

verus! {

/// The outside work a handler asks the event loop to perform.
#[derive(Debug)]
pub enum Action {
    /// Nothing to do beyond the state change already applied.
    Idle,
    /// Persist the registry to the configuration store.
    SaveRegistry,
    /// Build a fresh session to the named cluster, replacing any prior
    /// session (the old one is closed first).
    Connect { name: String, config: KafkaConfig },
    /// Close the session, if any.
    Disconnect,
}

/// The characters normal mode assigns a meaning of their own.
pub open spec fn normal_char_handled(c: char) -> bool {
    c == 'q' || c == ':' || c == 'i' || c == 'h' || c == 'j' || c == 'k' || c == 'l' || c == 'g'
        || c == 'G' || c == 'r'
}

/// A key that normal mode leaves to the two-key buffer only: neither a
/// recognised character nor a navigation key.
pub open spec fn normal_key_unhandled(key: Key) -> bool {
    match key {
        Key::Char(c) => !normal_char_handled(c),
        Key::Enter => true,
        Key::Esc => true,
        Key::Backspace => true,
        Key::Delete => true,
        Key::Other => true,
        _ => false,
    }
}

/// What one key press does in normal mode. Every key except `g` clears
/// the two-key buffer; `g` remembers itself, and a second consecutive `g`
/// jumps to the top.
pub open spec fn normal_key_rel(pre: AppState, post: AppState, key: Key) -> bool {
    &&& (key == Key::Char('q') ==> post == (AppState {
        should_quit: true,
        last_key: None,
        ..pre
    }))
    &&& (key == Key::Char(':') ==> post == (AppState {
        mode: AppMode::Command,
        command_input: post.command_input,
        last_key: None,
        ..pre
    }) && post.command_input@ == Seq::<char>::empty())
    &&& (key == Key::Char('i') ==> post == (AppState {
        mode: AppMode::Insert,
        last_key: None,
        ..pre
    }))
    &&& ((key == Key::Char('h') || key == Key::Left || key == Key::Char('l') || key == Key::Right
        || key == Key::Char('r')) ==> post == (AppState { last_key: None, ..pre }))
    &&& ((key == Key::Char('j') || key == Key::Down) ==> post == (AppState {
        last_key: None,
        ..after_move_down(pre)
    }))
    &&& ((key == Key::Char('k') || key == Key::Up) ==> post == (AppState {
        last_key: None,
        ..after_move_up(pre)
    }))
    &&& (key == Key::Char('g') ==> post == (if pre.last_key == Some('g') {
        (AppState {
            last_key: Some('g'),
            selected_index: 0usize,
            scroll_offset: 0usize,
            ..pre
        })
    } else {
        (AppState { last_key: Some('g'), ..pre })
    }))
    &&& (key == Key::Char('G') ==> post == (AppState { last_key: None, ..after_go_bottom(pre) }))
    &&& (key == Key::Tab ==> post == (AppState {
        last_key: None,
        current_screen: next_screen_spec(pre.current_screen),
        selected_index: 0usize,
        scroll_offset: 0usize,
        ..pre
    }))
    &&& (key == Key::BackTab ==> post == (AppState {
        last_key: None,
        current_screen: previous_screen_spec(pre.current_screen),
        selected_index: 0usize,
        scroll_offset: 0usize,
        ..pre
    }))
    &&& (normal_key_unhandled(key) ==> post == (AppState { last_key: None, ..pre }))
}

/// Handles one key press in normal mode (on any screen but the cluster
/// management list, which has its own handler).
pub fn handle_normal_mode_key(state: &mut AppState, key: Key) -> (r: Action)
    ensures
        normal_key_rel(*old(state), *final(state), key),
        r is Idle,
{
    match key {
        Key::Char(c) => {
            if c == 'q' {
                state.should_quit = true;
                state.last_key = None;
            } else if c == ':' {
                state.mode = AppMode::Command;
                state.command_input = String::new();
                state.last_key = None;
            } else if c == 'i' {
                state.mode = AppMode::Insert;
                state.last_key = None;
            } else if c == 'h' {
                state.move_left();
                state.last_key = None;
            } else if c == 'j' {
                state.move_down();
                state.last_key = None;
            } else if c == 'k' {
                state.move_up();
                state.last_key = None;
            } else if c == 'l' {
                state.move_right();
                state.last_key = None;
            } else if c == 'g' {
                let double = match state.last_key {
                    Some(ch) => ch == 'g',
                    None => false,
                };
                if double {
                    state.go_to_top();
                }
                state.last_key = Some('g');
            } else if c == 'G' {
                state.go_to_bottom();
                state.last_key = None;
            } else if c == 'r' {
                // Screen refresh is a documented no-op placeholder.
                state.last_key = None;
            } else {
                state.last_key = None;
            }
        },
        Key::Down => {
            state.move_down();
            state.last_key = None;
        },
        Key::Up => {
            state.move_up();
            state.last_key = None;
        },
        Key::Left => {
            state.move_left();
            state.last_key = None;
        },
        Key::Right => {
            state.move_right();
            state.last_key = None;
        },
        Key::Tab => {
            state.next_screen();
            state.last_key = None;
        },
        Key::BackTab => {
            state.previous_screen();
            state.last_key = None;
        },
        _ => {
            state.last_key = None;
        },
    }
    Action::Idle
}

/// What one key press does in insert mode: characters edit the free-text
/// buffer, Escape returns to normal mode, Enter submits the buffer on the
/// producer screen (clearing it) and is ignored elsewhere.
pub open spec fn insert_key_rel(pre: AppState, post: AppState, key: Key) -> bool {
    &&& (key == Key::Esc ==> post == (AppState { mode: AppMode::Normal, ..pre }))
    &&& (key matches Key::Char(c) ==> post == (AppState {
        input_buffer: post.input_buffer,
        ..pre
    }) && post.input_buffer@ == pre.input_buffer@.push(c))
    &&& (key == Key::Backspace ==> post == (AppState { input_buffer: post.input_buffer, ..pre })
        && post.input_buffer@ == (if pre.input_buffer@.len() == 0 {
        pre.input_buffer@
    } else {
        pre.input_buffer@.take(pre.input_buffer@.len() as int - 1)
    }))
    &&& (key == Key::Enter ==> post == (AppState { input_buffer: post.input_buffer, ..pre })
        && post.input_buffer@ == (if pre.current_screen == Screen::MessageProducer {
        Seq::<char>::empty()
    } else {
        pre.input_buffer@
    }))
    &&& ((key == Key::Tab || key == Key::BackTab || key == Key::Up || key == Key::Down || key
        == Key::Left || key == Key::Right || key == Key::Delete || key == Key::Other) ==> post
        == pre)
}

/// Handles one key press in insert mode.
pub fn handle_insert_mode_key(state: &mut AppState, key: Key) -> (r: Action)
    ensures
        insert_key_rel(*old(state), *final(state), key),
        r is Idle,
{
    match key {
        Key::Esc => {
            state.mode = AppMode::Normal;
        },
        Key::Char(c) => {
            push_char(&mut state.input_buffer, c);
        },
        Key::Backspace => {
            state.input_buffer = backspace(state.input_buffer.as_str());
        },
        Key::Enter => {
            // Submitting the buffer sends it on the producer screen; the
            // send itself is outside work, the buffer is cleared here.
            if matches!(state.current_screen, Screen::MessageProducer) {
                if state.input_buffer.unicode_len() > 0 {
                    state.input_buffer = String::new();
                }
                proof {
                    if old(state).input_buffer@.len() == 0 {
                        assert(state.input_buffer@ =~= Seq::<char>::empty());
                    }
                }
            }
        },
        _ => {},
    }
    Action::Idle
}

/// Visual mode is reserved: Escape returns to normal mode and every other
/// key is ignored.
pub open spec fn visual_key_rel(pre: AppState, post: AppState, key: Key) -> bool {
    &&& (key == Key::Esc ==> post == (AppState { mode: AppMode::Normal, ..pre }))
    &&& (key != Key::Esc ==> post == pre)
}

/// Handles one key press in visual mode.
pub fn handle_visual_mode_key(state: &mut AppState, key: Key) -> (r: Action)
    ensures
        visual_key_rel(*old(state), *final(state), key),
        r is Idle,
{
    match key {
        Key::Esc => {
            state.mode = AppMode::Normal;
        },
        _ => {},
    }
    Action::Idle
}

/// The status line `cluster list` reports.
pub open spec fn list_clusters_text(r: SpecRegistry) -> Seq<char> {
    if spec_names(r).len() == 0 {
        "No clusters configured"@
    } else {
        "Configured clusters: "@ + join_spec(spec_names(r), ", "@)
    }
}

/// The cluster management screen lists exactly the registry's names,
/// in code-point order.
pub open spec fn sorted_name_list(list: Seq<Seq<char>>, r: SpecRegistry) -> bool {
    &&& strings_sorted(list)
    &&& list.to_multiset() == spec_names(r).to_multiset()
    &&& list.len() == spec_names(r).len()
}

/// The pieces of the status report, in order: connection state, active
/// cluster, available clusters, a blank separator, and — when not
/// connected — a suggested next step.
pub open spec fn status_parts(s: AppState, r: SpecRegistry) -> Seq<Seq<char>> {
    let p1 = if s.connected {
        "✓ Connected to cluster: "@ + (match s.current_cluster {
            Some(c) => c@,
            None => "Unknown"@,
        })
    } else {
        "✗ Not connected to any cluster"@
    };
    let p2 = match r.active {
        Some(a) => "Active cluster: "@ + a,
        None => "No active cluster configured"@,
    };
    let p3 = if spec_names(r).len() > 0 {
        "Available clusters: "@ + join_spec(spec_names(r), ", "@)
    } else {
        "No clusters configured"@
    };
    let base = seq![p1, p2, p3, Seq::<char>::empty()];
    if !s.connected {
        base.push(
            if r.active is Some {
                "Next steps: Use 'connect' to connect to the active cluster"@
            } else if spec_names(r).len() > 0 {
                "Next steps: Use 'cluster switch <name>' to select a cluster, then 'connect'"@
            } else {
                "Next steps: Use 'cluster add <name> <brokers>' to add a cluster"@
            },
        )
    } else {
        base
    }
}

/// The full status report, joined with ` | `.
pub open spec fn show_status_text(s: AppState, r: SpecRegistry) -> Seq<char> {
    join_spec(status_parts(s, r), " | "@)
}

/// Writes the status report into the status line.
pub fn show_status(state: &mut AppState, registry: &ClusterRegistry)
    requires
        registry.wf(),
    ensures
        status_set(*old(state), *final(state), show_status_text(*old(state), registry@)),
{
    let mut parts: Vec<String> = Vec::new();
    if state.connected {
        let mut p = "✓ Connected to cluster: ".to_owned();
        match &state.current_cluster {
            Some(c) => p.append(c.as_str()),
            None => p.append("Unknown"),
        }
        parts.push(p);
    } else {
        parts.push("✗ Not connected to any cluster".to_owned());
    }
    match registry.get_active_cluster() {
        Some(p) => {
            let mut q = "Active cluster: ".to_owned();
            q.append(p.0.as_str());
            parts.push(q);
        },
        None => {
            parts.push("No active cluster configured".to_owned());
        },
    }
    let names = registry.list_clusters();
    if names.len() > 0 {
        let joined = join_strings(&names, ", ");
        let mut q = "Available clusters: ".to_owned();
        q.append(joined.as_str());
        parts.push(q);
    } else {
        parts.push("No clusters configured".to_owned());
    }
    parts.push(String::new());
    if !state.connected {
        let has_active = match registry.get_active_cluster() {
            Some(p) => true,
            None => false,
        };
        if has_active {
            parts.push("Next steps: Use 'connect' to connect to the active cluster".to_owned());
        } else if names.len() > 0 {
            parts.push(
                "Next steps: Use 'cluster switch <name>' to select a cluster, then 'connect'".to_owned(),
            );
        } else {
            parts.push(
                "Next steps: Use 'cluster add <name> <brokers>' to add a cluster".to_owned(),
            );
        }
    }
    proof {
        assert(parts.deep_view() =~= status_parts(*old(state), registry@));
    }
    let joined = join_strings(&parts, " | ");
    state.set_status_message(joined.as_str());
}

/// Loads the cluster names and switches to the cluster management screen
/// in normal mode with the cursor on the first row.
pub fn open_cluster_management(state: &mut AppState, registry: &ClusterRegistry)
    ensures
        *final(state) == (AppState {
            cluster_list: final(state).cluster_list,
            current_screen: Screen::ClusterManagement,
            mode: AppMode::Normal,
            selected_index: 0usize,
            ..*old(state)
        }),
        sorted_name_list(final(state).cluster_list.deep_view(), registry@),
{
    let names = registry.list_clusters();
    state.cluster_list = sort_strings(&names);
    proof {
        broadcast use vstd::seq_lib::group_to_multiset_ensures;

        let ld = state.cluster_list.deep_view();
        let ns = spec_names(registry@);
        assert(ld.to_multiset() == ns.to_multiset());
        assert(ld.len() == ld.to_multiset().len());
        assert(ns.len() == ns.to_multiset().len());
    }
    state.current_screen = Screen::ClusterManagement;
    state.mode = AppMode::Normal;
    state.selected_index = 0;
}

/// Sets the startup status line: the application never auto-connects, so
/// it either names the active cluster and how to connect, or explains how
/// to configure one.
pub fn init_connection_status(state: &mut AppState, registry: &ClusterRegistry)
    requires
        registry.wf(),
    ensures
        *final(state) == (AppState {
            connected: false,
            current_cluster: final(state).current_cluster,
            connection_status: final(state).connection_status,
            ..*old(state)
        }),
        final(state).current_cluster.deep_view() == registry@.active,
        final(state).connection_status@ == (match registry@.active {
            Some(a) => "Ready to connect to cluster: "@ + a
                + ". Use ':connect' to connect or ':status' for more info."@,
            None =>
                "No cluster configured. Use ':cluster add <name> <brokers>' to add a cluster or ':status' for help."@,
        }),
{
    match registry.get_active_cluster() {
        Some(p) => {
            let name = p.0.clone();
            let mut m = "Ready to connect to cluster: ".to_owned();
            m.append(name.as_str());
            m.append(". Use ':connect' to connect or ':status' for more info.");
            state.set_connected(false, Some(name));
            state.set_status_message(m.as_str());
        },
        None => {
            state.set_connected(false, None);
            state.set_status_message(
                "No cluster configured. Use ':cluster add <name> <brokers>' to add a cluster or ':status' for help.",
            );
        },
    }
}

/// Everything one parsed command does: how the state and the registry
/// change and which outside action is requested, for every input.
pub open spec fn execute_command_rel(
    pre_s: AppState,
    pre_r: SpecRegistry,
    input: Seq<char>,
    post_s: AppState,
    post_r: SpecRegistry,
    a: Action,
) -> bool {
    let c = parse_spec(input);
    &&& (c is Quit ==> post_s == (AppState { should_quit: true, ..pre_s }) && post_r == pre_r
        && a is Idle)
    &&& (c matches SpecCommand::Unknown(msg) ==> status_set(pre_s, post_s, msg) && post_r == pre_r
        && a is Idle)
    &&& (c is Status ==> status_set(pre_s, post_s, show_status_text(pre_s, pre_r)) && post_r
        == pre_r && a is Idle)
    &&& (c is ManageClusters ==> post_s == (AppState {
        cluster_list: post_s.cluster_list,
        current_screen: Screen::ClusterManagement,
        mode: AppMode::Normal,
        selected_index: 0usize,
        ..pre_s
    }) && sorted_name_list(post_s.cluster_list.deep_view(), pre_r) && post_r == pre_r
        && a is Idle)
    &&& (c is ListClusters ==> status_set(pre_s, post_s, list_clusters_text(pre_r)) && post_r
        == pre_r && a is Idle)
    &&& (c is Connect ==> (match pre_r.active {
        Some(act) => post_s == pre_s && post_r == pre_r && (a matches Action::Connect {
            name,
            config,
        } && name@ == act && config@ == spec_config_of(pre_r, act)),
        None => post_s == (AppState {
            connected: false,
            current_cluster: post_s.current_cluster,
            connection_status: post_s.connection_status,
            ..pre_s
        }) && post_s.current_cluster is None && post_s.connection_status@
            == "No active cluster configured"@ && post_r == pre_r && a is Idle,
    }))
    &&& (c is Disconnect ==> post_s == pre_s && post_r == pre_r && a is Disconnect)
    &&& (c matches SpecCommand::AddCluster { name, brokers, client_id, security } ==> (if can_add(
        pre_r,
        name,
        brokers,
        security,
    ) {
        &&& post_r == spec_added(pre_r, name, brokers, client_id, security)
        &&& a is SaveRegistry
        &&& status_set(
            pre_s,
            post_s,
            (match pre_r.active {
                Some(act) => "Cluster '"@ + act + "' added. Use 'connect' to connect."@,
                None => "Added cluster "@ + name,
            }),
        )
    } else {
        &&& post_r == pre_r
        &&& a is Idle
        &&& status_set(pre_s, post_s, error_message(add_error(pre_r, name, brokers, security)))
    }))
    &&& (c matches SpecCommand::RemoveCluster { name } ==> {
        let had = spec_has(pre_r, name);
        let cm = pre_s.current_cluster.deep_view() == Some(name);
        let post_active = if pre_r.active == Some(name) {
            None::<Seq<char>>
        } else {
            pre_r.active
        };
        &&& (had ==> {
            &&& a is SaveRegistry
            &&& (exists|i: int|
                {
                    &&& 0 <= i < pre_r.clusters.len()
                    &&& pre_r.clusters[i].name == name
                    &&& post_r.clusters == pre_r.clusters.remove(i)
                })
            &&& post_r.active == post_active
            &&& post_s == (AppState {
                connected: post_s.connected,
                current_cluster: post_s.current_cluster,
                connection_status: post_s.connection_status,
                ..pre_s
            })
            &&& post_s.connected == (if cm {
                false
            } else {
                pre_s.connected
            })
            &&& post_s.current_cluster.deep_view() == (if cm {
                None::<Seq<char>>
            } else {
                pre_s.current_cluster.deep_view()
            })
            &&& post_s.connection_status@ == (match post_active {
                Some(act) => "Ready to connect to cluster: "@ + act,
                None => "No cluster configured. Use 'cluster add' to add a cluster."@,
            })
        })
        &&& (!had ==> {
            &&& a is Idle
            &&& post_r == pre_r
            &&& post_s == (AppState {
                connected: post_s.connected,
                current_cluster: post_s.current_cluster,
                connection_status: post_s.connection_status,
                ..pre_s
            })
            &&& post_s.connected == (if cm {
                false
            } else {
                pre_s.connected
            })
            &&& post_s.current_cluster.deep_view() == (if cm {
                None::<Seq<char>>
            } else {
                pre_s.current_cluster.deep_view()
            })
            &&& post_s.connection_status@ == error_message(
                SpecError::Config("Cluster not found: "@ + name),
            )
        })
    })
    &&& (c matches SpecCommand::SwitchCluster { name } ==> {
        let had = spec_has(pre_r, name);
        &&& (had ==> {
            &&& a is SaveRegistry
            &&& post_r.clusters == pre_r.clusters
            &&& post_r.active == Some(name)
            &&& post_s == (AppState {
                connected: post_s.connected,
                current_cluster: post_s.current_cluster,
                connection_status: post_s.connection_status,
                ..pre_s
            })
            &&& post_s.connected == false
            &&& post_s.current_cluster.deep_view() == Some(name)
            &&& post_s.connection_status@ == "Switched to cluster '"@ + name
                + "'. Use 'connect' to connect."@
        })
        &&& (!had ==> a is Idle && post_r == pre_r && status_set(
            pre_s,
            post_s,
            error_message(SpecError::Other("Cluster "@ + name + " not found"@)),
        ))
    })
}

/// Parses and executes one line of command input, reporting the outcome in
/// the status line and naming the outside work it requires.
pub fn execute_command(state: &mut AppState, registry: &mut ClusterRegistry, input: &str) -> (r:
    Action)
    requires
        old(registry).wf(),
    ensures
        final(registry).wf(),
        execute_command_rel(
            *old(state),
            old(registry)@,
            input@,
            *final(state),
            final(registry)@,
            r,
        ),
{
    let cmd = Command::parse(input);
    match cmd {
        Command::AddCluster { .. } => {
            match state.handle_command(cmd, registry) {
                Ok(u) => {
                    match registry.get_active_cluster() {
                        Some(p) => {
                            let mut m = "Cluster '".to_owned();
                            m.append(p.0.as_str());
                            m.append("' added. Use 'connect' to connect.");
                            state.set_status_message(m.as_str());
                        },
                        None => {},
                    }
                    Action::SaveRegistry
                },
                Err(e) => {
                    let msg = e.message();
                    state.set_status_message(msg.as_str());
                    Action::Idle
                },
            }
        },
        Command::RemoveCluster { .. } => {
            match state.handle_command(cmd, registry) {
                Ok(u) => {
                    match registry.get_active_cluster() {
                        Some(p) => {
                            let mut m = "Ready to connect to cluster: ".to_owned();
                            m.append(p.0.as_str());
                            state.set_status_message(m.as_str());
                        },
                        None => {
                            state.set_status_message(
                                "No cluster configured. Use 'cluster add' to add a cluster.",
                            );
                        },
                    }
                    Action::SaveRegistry
                },
                Err(e) => {
                    let msg = e.message();
                    state.set_status_message(msg.as_str());
                    Action::Idle
                },
            }
        },
        Command::SwitchCluster { .. } => {
            match state.handle_command(cmd, registry) {
                Ok(u) => {
                    let switched = match registry.get_active_cluster() {
                        Some(p) => p.0.clone(),
                        None => {
                            proof {
                                assert(false);
                            }
                            String::new()
                        },
                    };
                    let mut m = "Switched to cluster '".to_owned();
                    m.append(switched.as_str());
                    m.append("'. Use 'connect' to connect.");
                    state.set_connected(false, Some(switched));
                    state.set_status_message(m.as_str());
                    Action::SaveRegistry
                },
                Err(e) => {
                    let msg = e.message();
                    state.set_status_message(msg.as_str());
                    Action::Idle
                },
            }
        },
        Command::ListClusters => {
            match state.handle_command(cmd, registry) {
                Ok(u) => {},
                Err(e) => {},
            }
            Action::Idle
        },
        Command::ManageClusters => {
            open_cluster_management(state, registry);
            Action::Idle
        },
        Command::Status => {
            show_status(state, registry);
            Action::Idle
        },
        Command::Connect => {
            match registry.get_active_cluster() {
                Some(p) => {
                    let name = p.0.clone();
                    let config = p.1.duplicate();
                    Action::Connect { name, config }
                },
                None => {
                    state.set_connected(false, None);
                    state.set_status_message("No active cluster configured");
                    Action::Idle
                },
            }
        },
        Command::Disconnect => Action::Disconnect,
        Command::Quit => {
            state.should_quit = true;
            Action::Idle
        },
        Command::Unknown(msg) => {
            state.set_status_message(msg.as_str());
            Action::Idle
        },
    }
}

/// What one key press does in command mode: characters edit the command
/// buffer, Escape abandons it, Enter executes it and returns to normal
/// mode with the buffer cleared.
pub open spec fn command_key_rel(
    pre_s: AppState,
    pre_r: SpecRegistry,
    key: Key,
    post_s: AppState,
    post_r: SpecRegistry,
    a: Action,
) -> bool {
    &&& (key == Key::Esc ==> post_s == (AppState {
        mode: AppMode::Normal,
        command_input: post_s.command_input,
        ..pre_s
    }) && post_s.command_input@ == Seq::<char>::empty() && post_r == pre_r && a is Idle)
    &&& (key matches Key::Char(c) ==> post_s == (AppState {
        command_input: post_s.command_input,
        ..pre_s
    }) && post_s.command_input@ == pre_s.command_input@.push(c) && post_r == pre_r && a is Idle)
    &&& (key == Key::Backspace ==> post_s == (AppState {
        command_input: post_s.command_input,
        ..pre_s
    }) && post_s.command_input@ == (if pre_s.command_input@.len() == 0 {
        pre_s.command_input@
    } else {
        pre_s.command_input@.take(pre_s.command_input@.len() as int - 1)
    }) && post_r == pre_r && a is Idle)
    &&& (key == Key::Enter ==> (exists|mid: AppState|
        #![auto]
        {
            &&& mid == (AppState {
                mode: AppMode::Normal,
                command_input: mid.command_input,
                ..pre_s
            })
            &&& mid.command_input@ == Seq::<char>::empty()
            &&& execute_command_rel(mid, pre_r, pre_s.command_input@, post_s, post_r, a)
        }))
    &&& ((key == Key::Tab || key == Key::BackTab || key == Key::Up || key == Key::Down || key
        == Key::Left || key == Key::Right || key == Key::Delete || key == Key::Other) ==> post_s
        == pre_s && post_r == pre_r && a is Idle)
}

/// Handles one key press in command mode.
pub fn handle_command_mode_key(state: &mut AppState, registry: &mut ClusterRegistry, key: Key) -> (r:
    Action)
    requires
        old(registry).wf(),
    ensures
        final(registry).wf(),
        command_key_rel(*old(state), old(registry)@, key, *final(state), final(registry)@, r),
{
    match key {
        Key::Esc => {
            state.mode = AppMode::Normal;
            state.command_input = String::new();
            Action::Idle
        },
        Key::Char(c) => {
            push_char(&mut state.command_input, c);
            Action::Idle
        },
        Key::Backspace => {
            state.command_input = backspace(state.command_input.as_str());
            Action::Idle
        },
        Key::Enter => {
            let text = state.command_input.clone();
            state.command_input = String::new();
            state.mode = AppMode::Normal;
            let ghost mid = *state;
            let a = execute_command(state, registry, text.as_str());
            proof {
                assert(mid == (AppState {
                    mode: AppMode::Normal,
                    command_input: mid.command_input,
                    ..*old(state)
                }));
                assert(execute_command_rel(
                    mid,
                    old(registry)@,
                    old(state).command_input@,
                    *state,
                    registry@,
                    a,
                ));
            }
            a
        },
        _ => Action::Idle,
    }
}

/// A fresh form of the given action was opened, optionally pre-populated
/// with a cluster name, and the mode switched to form input.
pub open spec fn form_started(
    pre: AppState,
    post: AppState,
    action: ClusterFormAction,
    name: Option<Seq<char>>,
) -> bool {
    &&& post == (AppState { mode: AppMode::ClusterForm, cluster_form: post.cluster_form, ..pre })
    &&& match post.cluster_form {
        Some(f) => {
            &&& f.wf()
            &&& f.action == action
            &&& f.name@ == (match name {
                Some(n) => n,
                None => Seq::<char>::empty(),
            })
            &&& f.brokers@ == Seq::<char>::empty()
            &&& f.client_id@ == Seq::<char>::empty()
            &&& f.security_protocol@ == Seq::<char>::empty()
            &&& f.sasl_mechanism@ == Seq::<char>::empty()
            &&& f.sasl_username@ == Seq::<char>::empty()
            &&& f.sasl_password@ == Seq::<char>::empty()
            &&& f.ssl_ca_location@ == Seq::<char>::empty()
            &&& f.current_field == 0
        },
        None => false,
    }
}

/// What one key press does on the cluster management screen in normal
/// mode: row navigation, opening the add/edit/delete form, and switching
/// the active cluster.
pub open spec fn mgmt_key_rel(
    pre_s: AppState,
    pre_r: SpecRegistry,
    key: Key,
    post_s: AppState,
    post_r: SpecRegistry,
    a: Action,
) -> bool {
    let len = pre_s.cluster_list@.len() as int;
    let sel = pre_s.selected_index as int;
    &&& (key == Key::Esc ==> post_s == (AppState {
        current_screen: Screen::Dashboard,
        mode: AppMode::Normal,
        ..pre_s
    }) && post_r == pre_r && a is Idle)
    &&& ((key == Key::Up || key == Key::Char('k')) ==> post_s == (AppState {
        selected_index: (if sel > 0 {
            sel - 1
        } else {
            0
        }) as usize,
        ..pre_s
    }) && post_r == pre_r && a is Idle)
    &&& ((key == Key::Down || key == Key::Char('j')) ==> post_s == (AppState {
        selected_index: (if sel < len {
            sel + 1
        } else {
            sel
        }) as usize,
        ..pre_s
    }) && post_r == pre_r && a is Idle)
    &&& (key == Key::Char('a') ==> form_started(pre_s, post_s, ClusterFormAction::Add, None)
        && post_r == pre_r && a is Idle)
    &&& ((key == Key::Char('e') || key == Key::Enter) ==> (if sel < len {
        form_started(
            pre_s,
            post_s,
            ClusterFormAction::Edit,
            Some(pre_s.cluster_list@[sel]@),
        )
    } else {
        post_s == pre_s
    }) && post_r == pre_r && a is Idle)
    &&& ((key == Key::Char('d') || key == Key::Delete) ==> (if sel < len {
        form_started(
            pre_s,
            post_s,
            ClusterFormAction::Delete,
            Some(pre_s.cluster_list@[sel]@),
        )
    } else {
        post_s == pre_s
    }) && post_r == pre_r && a is Idle)
    &&& (key == Key::Char('s') ==> (if sel < len {
        let name = pre_s.cluster_list@[sel]@;
        if spec_has(pre_r, name) {
            &&& post_r.clusters == pre_r.clusters
            &&& post_r.active == Some(name)
            &&& a is SaveRegistry
            &&& post_s == (AppState {
                connected: post_s.connected,
                current_cluster: post_s.current_cluster,
                connection_status: post_s.connection_status,
                ..pre_s
            })
            &&& post_s.connected == false
            &&& post_s.current_cluster.deep_view() == Some(name)
            &&& post_s.connection_status@ == "Switched to cluster '"@ + name
                + "'. Use 'connect' to connect."@
        } else {
            &&& post_r == pre_r
            &&& a is Idle
            &&& status_set(
                pre_s,
                post_s,
                error_message(SpecError::Config("Cluster not found: "@ + name)),
            )
        }
    } else {
        post_s == pre_s && post_r == pre_r && a is Idle
    }))
    &&& ((match key {
        Key::Char(c) => !(c == 'k' || c == 'j' || c == 'a' || c == 'e' || c == 'd' || c == 's'),
        Key::Tab => true,
        Key::BackTab => true,
        Key::Left => true,
        Key::Right => true,
        Key::Backspace => true,
        Key::Other => true,
        _ => false,
    }) ==> post_s == pre_s && post_r == pre_r && a is Idle)
}

/// Handles one key press on the cluster management screen.
pub fn handle_cluster_management_key(
    state: &mut AppState,
    registry: &mut ClusterRegistry,
    key: Key,
) -> (r: Action)
    requires
        old(registry).wf(),
    ensures
        final(registry).wf(),
        mgmt_key_rel(*old(state), old(registry)@, key, *final(state), final(registry)@, r),
{
    match key {
        Key::Esc => {
            state.current_screen = Screen::Dashboard;
            state.mode = AppMode::Normal;
            Action::Idle
        },
        Key::Up => {
            if state.selected_index > 0 {
                state.selected_index = state.selected_index - 1;
            }
            Action::Idle
        },
        Key::Down => {
            if state.selected_index < state.cluster_list.len() {
                state.selected_index = state.selected_index + 1;
            }
            Action::Idle
        },
        Key::Enter => {
            if state.selected_index < state.cluster_list.len() {
                let name = state.cluster_list[state.selected_index].clone();
                state.cluster_form = Some(
                    ClusterFormState::new(ClusterFormAction::Edit, Some(name)),
                );
                state.mode = AppMode::ClusterForm;
            }
            Action::Idle
        },
        Key::Delete => {
            if state.selected_index < state.cluster_list.len() {
                let name = state.cluster_list[state.selected_index].clone();
                state.cluster_form = Some(
                    ClusterFormState::new(ClusterFormAction::Delete, Some(name)),
                );
                state.mode = AppMode::ClusterForm;
            }
            Action::Idle
        },
        Key::Char(c) => {
            if c == 'k' {
                if state.selected_index > 0 {
                    state.selected_index = state.selected_index - 1;
                }
                Action::Idle
            } else if c == 'j' {
                if state.selected_index < state.cluster_list.len() {
                    state.selected_index = state.selected_index + 1;
                }
                Action::Idle
            } else if c == 'a' {
                state.cluster_form = Some(ClusterFormState::new(ClusterFormAction::Add, None));
                state.mode = AppMode::ClusterForm;
                Action::Idle
            } else if c == 'e' {
                if state.selected_index < state.cluster_list.len() {
                    let name = state.cluster_list[state.selected_index].clone();
                    state.cluster_form = Some(
                        ClusterFormState::new(ClusterFormAction::Edit, Some(name)),
                    );
                    state.mode = AppMode::ClusterForm;
                }
                Action::Idle
            } else if c == 'd' {
                if state.selected_index < state.cluster_list.len() {
                    let name = state.cluster_list[state.selected_index].clone();
                    state.cluster_form = Some(
                        ClusterFormState::new(ClusterFormAction::Delete, Some(name)),
                    );
                    state.mode = AppMode::ClusterForm;
                }
                Action::Idle
            } else if c == 's' {
                if state.selected_index < state.cluster_list.len() {
                    let name = state.cluster_list[state.selected_index].clone();
                    match registry.set_active_cluster(name.as_str()) {
                        Ok(u) => {
                            let mut m = "Switched to cluster '".to_owned();
                            m.append(name.as_str());
                            m.append("'. Use 'connect' to connect.");
                            state.set_connected(false, Some(name));
                            state.set_status_message(m.as_str());
                            Action::SaveRegistry
                        },
                        Err(e) => {
                            let msg = e.message();
                            state.set_status_message(msg.as_str());
                            Action::Idle
                        },
                    }
                } else {
                    Action::Idle
                }
            } else {
                Action::Idle
            }
        },
        _ => Action::Idle,
    }
}

/// What submitting the form does, given the form `f` that was open.
pub open spec fn submit_rel(
    f: ClusterFormState,
    pre_s: AppState,
    pre_r: SpecRegistry,
    post_s: AppState,
    post_r: SpecRegistry,
    a: Action,
) -> bool {
    match f.action {
        ClusterFormAction::Add => {
            if f.name@.len() == 0 || f.brokers@.len() == 0 {
                // The form stays open: only the status line changes.
                &&& status_set(pre_s, post_s, "Cluster name and brokers are required"@)
                &&& post_r == pre_r
                &&& a is Idle
            } else {
                let bs = split_trim_filter(f.brokers@);
                if can_add(pre_r, f.name@, bs, None) {
                    &&& post_r == spec_added(pre_r, f.name@, bs, f.client_id@, None)
                    &&& a is SaveRegistry
                    &&& post_s == (AppState {
                        mode: AppMode::Normal,
                        cluster_form: None,
                        connection_status: post_s.connection_status,
                        ..pre_s
                    })
                    &&& post_s.connection_status@ == "Cluster '"@ + f.name@
                        + "' added successfully"@
                } else {
                    // The registry refused the entry: the form stays open.
                    &&& post_r == pre_r
                    &&& a is Idle
                    &&& status_set(
                        pre_s,
                        post_s,
                        error_message(add_error(pre_r, f.name@, bs, None)),
                    )
                }
            }
        },
        ClusterFormAction::Edit => {
            &&& post_r == pre_r
            &&& a is Idle
            &&& post_s == (AppState {
                mode: AppMode::Normal,
                cluster_form: None,
                connection_status: post_s.connection_status,
                ..pre_s
            })
            &&& post_s.connection_status@ == "Edit functionality not yet implemented"@
        },
        ClusterFormAction::Delete => {
            let had = spec_has(pre_r, f.name@);
            &&& (had ==> {
                &&& a is SaveRegistry
                &&& (exists|i: int|
                    {
                        &&& 0 <= i < pre_r.clusters.len()
                        &&& pre_r.clusters[i].name == f.name@
                        &&& post_r.clusters == pre_r.clusters.remove(i)
                    })
                &&& post_r.active == (if pre_r.active == Some(f.name@) {
                    None::<Seq<char>>
                } else {
                    pre_r.active
                })
                &&& post_s == (AppState {
                    mode: AppMode::Normal,
                    cluster_form: None,
                    connection_status: post_s.connection_status,
                    ..pre_s
                })
                &&& post_s.connection_status@ == "Cluster '"@ + f.name@ + "' deleted successfully"@
            })
            &&& (!had ==> {
                &&& a is Idle
                &&& post_r == pre_r
                &&& post_s == (AppState {
                    mode: AppMode::Normal,
                    cluster_form: None,
                    connection_status: post_s.connection_status,
                    ..pre_s
                })
                &&& post_s.connection_status@ == error_message(
                    SpecError::Config("Cluster not found: "@ + f.name@),
                )
            })
        },
    }
}

/// Submits the open form: adds or deletes the entry, or reports that
/// editing is not implemented. On a validation failure of an Add the form
/// stays open; otherwise it is destroyed.
pub fn submit_cluster_form(state: &mut AppState, registry: &mut ClusterRegistry) -> (r: Action)
    requires
        old(registry).wf(),
        old(state).cluster_form is Some,
    ensures
        final(registry).wf(),
        submit_rel(
            old(state).cluster_form->0,
            *old(state),
            old(registry)@,
            *final(state),
            final(registry)@,
            r,
        ),
{
    let action_kind = match &state.cluster_form {
        Some(f) => f.action,
        None => ClusterFormAction::Add,
    };
    match action_kind {
        ClusterFormAction::Add => {
            let empty_required = match &state.cluster_form {
                Some(f) => f.name.unicode_len() == 0 || f.brokers.unicode_len() == 0,
                None => true,
            };
            if empty_required {
                state.set_status_message("Cluster name and brokers are required");
                return Action::Idle;
            }
            let (name, brokers_vec, client_id) = match &state.cluster_form {
                Some(f) => (f.name.clone(), split_brokers_form(f.brokers.as_str()), f.client_id.clone()),
                None => (String::new(), Vec::new(), String::new()),
            };
            match registry.add_cluster(name.as_str(), &brokers_vec, client_id.as_str(), None) {
                Ok(u) => {
                    let mut m = "Cluster '".to_owned();
                    m.append(name.as_str());
                    m.append("' added successfully");
                    state.set_status_message(m.as_str());
                    state.cluster_form = None;
                    state.mode = AppMode::Normal;
                    Action::SaveRegistry
                },
                Err(e) => {
                    let msg = e.message();
                    state.set_status_message(msg.as_str());
                    Action::Idle
                },
            }
        },
        ClusterFormAction::Edit => {
            state.set_status_message("Edit functionality not yet implemented");
            state.cluster_form = None;
            state.mode = AppMode::Normal;
            Action::Idle
        },
        ClusterFormAction::Delete => {
            let name = match &state.cluster_form {
                Some(f) => f.name.clone(),
                None => String::new(),
            };
            match registry.remove_cluster(name.as_str()) {
                Ok(u) => {
                    let mut m = "Cluster '".to_owned();
                    m.append(name.as_str());
                    m.append("' deleted successfully");
                    state.set_status_message(m.as_str());
                    state.cluster_form = None;
                    state.mode = AppMode::Normal;
                    Action::SaveRegistry
                },
                Err(e) => {
                    let msg = e.message();
                    state.set_status_message(msg.as_str());
                    state.cluster_form = None;
                    state.mode = AppMode::Normal;
                    Action::Idle
                },
            }
        },
    }
}

/// What one key press does in form mode: Tab and Shift-Tab move the field
/// cursor with wraparound, characters and Backspace edit the field under
/// the cursor, Escape discards the form, and Enter advances — or submits
/// on the last field, or immediately for a Delete form.
pub open spec fn form_key_rel(
    pre_s: AppState,
    pre_r: SpecRegistry,
    key: Key,
    post_s: AppState,
    post_r: SpecRegistry,
    a: Action,
) -> bool {
    match pre_s.cluster_form {
        None => post_s == (AppState { mode: AppMode::Normal, ..pre_s }) && post_r == pre_r
            && a is Idle,
        Some(f) => {
            &&& (key == Key::Esc ==> post_s == (AppState {
                mode: AppMode::Normal,
                cluster_form: None,
                ..pre_s
            }) && post_r == pre_r && a is Idle)
            &&& (key == Key::Tab ==> post_s == (AppState {
                cluster_form: Some(
                    (ClusterFormState { current_field: ((f.current_field + 1) % 8) as usize, ..f }),
                ),
                ..pre_s
            }) && post_r == pre_r && a is Idle)
            &&& (key == Key::BackTab ==> post_s == (AppState {
                cluster_form: Some(
                    (ClusterFormState {
                        current_field: (if f.current_field == 0 {
                            7int
                        } else {
                            f.current_field - 1
                        }) as usize,
                        ..f
                    }),
                ),
                ..pre_s
            }) && post_r == pre_r && a is Idle)
            &&& (key == Key::Enter ==> (if f.current_field == 7 || f.action
                == ClusterFormAction::Delete {
                submit_rel(f, pre_s, pre_r, post_s, post_r, a)
            } else {
                post_s == (AppState {
                    cluster_form: Some(
                        (ClusterFormState {
                            current_field: ((f.current_field + 1) % 8) as usize,
                            ..f
                        }),
                    ),
                    ..pre_s
                }) && post_r == pre_r && a is Idle
            }))
            &&& (key == Key::Backspace ==> post_s == (AppState {
                cluster_form: post_s.cluster_form,
                ..pre_s
            }) && post_r == pre_r && a is Idle && (match post_s.cluster_form {
                Some(g) => {
                    &&& g.action == f.action
                    &&& g.current_field == f.current_field
                    &&& forall|i: int|
                        0 <= i < 8 ==> field_at(g, i) == (if i == f.current_field as int {
                            let t = field_at(f, i);
                            if t.len() == 0 {
                                t
                            } else {
                                t.take(t.len() as int - 1)
                            }
                        } else {
                            field_at(f, i)
                        })
                },
                None => false,
            }))
            &&& (key matches Key::Char(c) ==> post_s == (AppState {
                cluster_form: post_s.cluster_form,
                ..pre_s
            }) && post_r == pre_r && a is Idle && (match post_s.cluster_form {
                Some(g) => {
                    &&& g.action == f.action
                    &&& g.current_field == f.current_field
                    &&& forall|i: int|
                        0 <= i < 8 ==> field_at(g, i) == (if i == f.current_field as int {
                            field_at(f, i).push(c)
                        } else {
                            field_at(f, i)
                        })
                },
                None => false,
            }))
            &&& ((key == Key::Up || key == Key::Down || key == Key::Left || key == Key::Right
                || key == Key::Delete || key == Key::Other) ==> post_s == pre_s && post_r == pre_r
                && a is Idle)
        },
    }
}

/// Handles one key press in form mode.
pub fn handle_cluster_form_key(state: &mut AppState, registry: &mut ClusterRegistry, key: Key) -> (r:
    Action)
    requires
        old(registry).wf(),
        state_wf(*old(state)),
    ensures
        final(registry).wf(),
        state_wf(*final(state)),
        form_key_rel(*old(state), old(registry)@, key, *final(state), final(registry)@, r),
{
    let has_form = matches!(&state.cluster_form, Some(_));
    if !has_form {
        // A form mode without a form is inconsistent; recover to normal mode.
        state.mode = AppMode::Normal;
        return Action::Idle;
    }
    match key {
        Key::Esc => {
            state.mode = AppMode::Normal;
            state.cluster_form = None;
            Action::Idle
        },
        Key::Tab => {
            match &mut state.cluster_form {
                Some(f) => f.next_field(),
                None => {},
            }
            Action::Idle
        },
        Key::BackTab => {
            match &mut state.cluster_form {
                Some(f) => f.prev_field(),
                None => {},
            }
            Action::Idle
        },
        Key::Enter => {
            let submit_now = match &state.cluster_form {
                Some(f) => f.current_field == 7 || matches!(f.action, ClusterFormAction::Delete),
                None => false,
            };
            if submit_now {
                submit_cluster_form(state, registry)
            } else {
                match &mut state.cluster_form {
                    Some(f) => f.next_field(),
                    None => {},
                }
                Action::Idle
            }
        },
        Key::Backspace => {
            match &mut state.cluster_form {
                Some(f) => f.backspace_field(),
                None => {},
            }
            Action::Idle
        },
        Key::Char(c) => {
            match &mut state.cluster_form {
                Some(f) => f.add_char(c),
                None => {},
            }
            Action::Idle
        },
        _ => Action::Idle,
    }
}

/// What one key press does, routed by the current mode (and, in normal
/// mode, by whether the cluster management screen is active).
pub open spec fn input_key_rel(
    pre_s: AppState,
    pre_r: SpecRegistry,
    key: Key,
    post_s: AppState,
    post_r: SpecRegistry,
    a: Action,
) -> bool {
    match pre_s.mode {
        AppMode::Normal => if pre_s.current_screen == Screen::ClusterManagement {
            mgmt_key_rel(pre_s, pre_r, key, post_s, post_r, a)
        } else {
            normal_key_rel(pre_s, post_s, key) && post_r == pre_r && a is Idle
        },
        AppMode::Insert => insert_key_rel(pre_s, post_s, key) && post_r == pre_r && a is Idle,
        AppMode::Command => command_key_rel(pre_s, pre_r, key, post_s, post_r, a),
        AppMode::Visual => visual_key_rel(pre_s, post_s, key) && post_r == pre_r && a is Idle,
        AppMode::ClusterForm => form_key_rel(pre_s, pre_r, key, post_s, post_r, a),
    }
}

/// What one event from the merged stream does: key presses are routed to
/// the mode's handler; pointer events, resizes, ticks and broker
/// notifications leave the state machine unchanged.
pub open spec fn event_rel(
    pre_s: AppState,
    pre_r: SpecRegistry,
    event: AppEvent,
    post_s: AppState,
    post_r: SpecRegistry,
    a: Action,
) -> bool {
    match event {
        AppEvent::Input(InputEvent::Key(k)) => input_key_rel(pre_s, pre_r, k, post_s, post_r, a),
        AppEvent::Input(InputEvent::Mouse) => post_s == pre_s && post_r == pre_r && a is Idle,
        AppEvent::Input(InputEvent::Resize(w, h)) => post_s == pre_s && post_r == pre_r
            && a is Idle,
        AppEvent::Tick => post_s == pre_s && post_r == pre_r && a is Idle,
        AppEvent::KafkaEvent(e) => post_s == pre_s && post_r == pre_r && a is Idle,
    }
}

/// Handles one key press, routed by mode and screen.
pub fn handle_input_event(state: &mut AppState, registry: &mut ClusterRegistry, event: InputEvent) -> (r:
    Action)
    requires
        old(registry).wf(),
        state_wf(*old(state)),
    ensures
        final(registry).wf(),
        state_wf(*final(state)),
        event_rel(
            *old(state),
            old(registry)@,
            AppEvent::Input(event),
            *final(state),
            final(registry)@,
            r,
        ),
{
    match event {
        InputEvent::Key(key) => {
            match state.mode {
                AppMode::Normal => {
                    if matches!(state.current_screen, Screen::ClusterManagement) {
                        handle_cluster_management_key(state, registry, key)
                    } else {
                        handle_normal_mode_key(state, key)
                    }
                },
                AppMode::Insert => handle_insert_mode_key(state, key),
                AppMode::Command => handle_command_mode_key(state, registry, key),
                AppMode::Visual => handle_visual_mode_key(state, key),
                AppMode::ClusterForm => handle_cluster_form_key(state, registry, key),
            }
        },
        InputEvent::Mouse => Action::Idle,
        InputEvent::Resize(w, h) => Action::Idle,
    }
}

/// Drains one event from the merged stream into the state machine.
pub fn handle_event(state: &mut AppState, registry: &mut ClusterRegistry, event: AppEvent) -> (r:
    Action)
    requires
        old(registry).wf(),
        state_wf(*old(state)),
    ensures
        final(registry).wf(),
        state_wf(*final(state)),
        event_rel(*old(state), old(registry)@, event, *final(state), final(registry)@, r),
{
    match event {
        AppEvent::Input(input_event) => handle_input_event(state, registry, input_event),
        AppEvent::Tick => Action::Idle,
        AppEvent::KafkaEvent(e) => Action::Idle,
    }
}

/// Applies the outcome of a connect attempt: on success the state shows
/// the live session; on failure no session remains, the failed cluster's
/// name stays visible, and the reason lands in the status line.
pub fn apply_connect_result(
    state: &mut AppState,
    manager: &mut KafkaManager,
    cluster: String,
    outcome: Result<(), String>,
)
    ensures
        outcome is Ok ==> {
            &&& final(manager).session == (ConnectionSession::Connected { cluster })
            &&& *final(state) == (AppState {
                connected: true,
                current_cluster: final(state).current_cluster,
                connection_status: final(state).connection_status,
                ..*old(state)
            })
            &&& final(state).current_cluster == Some(cluster)
            &&& final(state).connection_status@ == "Connected to "@ + cluster@
        },
        outcome matches Err(e) ==> {
            &&& final(manager).session is Disconnected
            &&& *final(state) == (AppState {
                connected: false,
                current_cluster: final(state).current_cluster,
                connection_status: final(state).connection_status,
                ..*old(state)
            })
            &&& final(state).current_cluster == Some(cluster)
            &&& final(state).connection_status@ == "Failed to connect: "@ + e@
        },
{
    match outcome {
        Ok(u) => {
            let shown = cluster.clone();
            manager.record_connect_success(cluster);
            state.set_connected(true, Some(shown));
            proof {
                assert(final(state).current_cluster == Some(
                    final(manager).session->Connected_cluster,
                ));
            }
        },
        Err(e) => {
            manager.record_connect_failure();
            state.set_connected(false, Some(cluster));
            let mut m = "Failed to connect: ".to_owned();
            m.append(e.as_str());
            state.set_status_message(m.as_str());
        },
    }
}

/// Applies the outcome of a disconnect: whatever the close call reported,
/// no session remains and the state shows disconnected; a failure reason
/// lands in the status line.
pub fn apply_disconnect_result(
    state: &mut AppState,
    manager: &mut KafkaManager,
    outcome: Result<(), String>,
)
    ensures
        final(manager).session is Disconnected,
        final(state).connected == false,
        final(state).current_cluster == old(state).current_cluster,
        *final(state) == (AppState {
            connected: false,
            connection_status: final(state).connection_status,
            ..*old(state)
        }),
        outcome is Ok ==> final(state).connection_status@ == "Disconnected"@,
        outcome matches Err(e) ==> final(state).connection_status@ == "Failed to disconnect: "@
            + e@,
{
    manager.record_disconnect();
    match outcome {
        Ok(u) => {
            state.connected = false;
            state.connection_status = "Disconnected".to_owned();
        },
        Err(e) => {
            state.connected = false;
            let mut m = "Failed to disconnect: ".to_owned();
            m.append(e.as_str());
            state.connection_status = m;
        },
    }
}

/// Pressing `g` twice in a row in normal mode moves the selection and the
/// scroll window to the top.
pub proof fn lemma_double_g(s1: AppState, s2: AppState, s3: AppState)
    requires
        normal_key_rel(s1, s2, Key::Char('g')),
        normal_key_rel(s2, s3, Key::Char('g')),
    ensures
        s3.selected_index == 0,
        s3.scroll_offset == 0,
{
}

/// A `g` followed by any other key does not arm the two-key sequence: the
/// next `g` only re-arms it and moves nothing.
pub proof fn lemma_g_interrupted(s1: AppState, s2: AppState, s3: AppState, s4: AppState, key: Key)
    requires
        normal_key_rel(s1, s2, Key::Char('g')),
        key != Key::Char('g'),
        normal_key_rel(s2, s3, key),
        normal_key_rel(s3, s4, Key::Char('g')),
    ensures
        s4.selected_index == s3.selected_index,
        s4.scroll_offset == s3.scroll_offset,
{
    assert(s3.last_key is None);
}

/// A Quit issued while command mode is active still sets the termination
/// flag, so the loop proceeds to its orderly shutdown.
pub proof fn lemma_quit_from_command_mode(
    pre_s: AppState,
    pre_r: SpecRegistry,
    post_s: AppState,
    post_r: SpecRegistry,
    a: Action,
)
    requires
        pre_s.mode == AppMode::Command,
        parse_spec(pre_s.command_input@) is Quit,
        command_key_rel(pre_s, pre_r, Key::Enter, post_s, post_r, a),
    ensures
        post_s.should_quit,
        post_r == pre_r,
        a is Idle,
{
    let mid = choose|mid: AppState|
        #![auto]
        {
            &&& mid == (AppState {
                mode: AppMode::Normal,
                command_input: mid.command_input,
                ..pre_s
            })
            &&& mid.command_input@ == Seq::<char>::empty()
            &&& execute_command_rel(mid, pre_r, pre_s.command_input@, post_s, post_r, a)
        };
}

} // verus!
