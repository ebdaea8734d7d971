//! The aggregate mutable application state: mode, screen, navigation
//! cursor, input buffers, cached display data, and connection status.
//! Exactly one event handler mutates it per event-loop iteration.

use vstd::prelude::*;
use vstd::string::StrSliceExecFns;
use vstd::string::StringExecFns;
use crate::commands::Command;
use crate::commands::SpecCommand;
use crate::error::KafkaEyeError;
use crate::error::SpecError;
use crate::form::ClusterFormState;
use crate::registry::ClusterRegistry;
use crate::registry::add_error;
use crate::registry::can_add;
use crate::registry::spec_added;
use crate::registry::spec_has;
use crate::registry::spec_names;
use crate::strutil::join_spec;
use crate::strutil::join_strings;
use crate::strutil::str_eq;

verus! {

/// How the next key press is interpreted.
#[derive(Debug, Clone, Copy, PartialEq, Eq, Structural)]
pub enum AppMode {
    Normal,
    Insert,
    Command,
    Visual,
    ClusterForm,
}

/// Which data view is displayed; independent of the mode.
#[derive(Debug, Clone, Copy, PartialEq, Eq, Structural)]
pub enum Screen {
    Dashboard,
    TopicList,
    TopicDetail,
    MessageProducer,
    MessageConsumer,
    ConsumerGroups,
    Monitoring,
    Settings,
    ClusterManagement,
}

#[derive(Debug, Clone)]
pub struct TopicInfo {
    pub name: String,
    pub partitions: u32,
    pub replicas: u16,
    pub configs: Vec<(String, String)>,
}

/// One cached record; the timestamp is milliseconds since the epoch.
#[derive(Debug, Clone)]
pub struct Message {
    pub topic: String,
    pub partition: i32,
    pub offset: i64,
    pub key: Option<String>,
    pub value: String,
    pub timestamp_ms: i64,
    pub headers: Vec<(String, String)>,
}

#[derive(Debug, Clone)]
pub struct ConsumerGroupInfo {
    pub name: String,
    pub state: String,
    pub protocol: String,
    pub members: Vec<ConsumerMember>,
}

#[derive(Debug, Clone)]
pub struct ConsumerMember {
    pub id: String,
    pub client_id: String,
    pub host: String,
    pub assignments: Vec<TopicPartition>,
}

#[derive(Debug, Clone)]
pub struct TopicPartition {
    pub topic: String,
    pub partition: i32,
}

/// Aggregate monitoring counters shown on the dashboard.
#[derive(Debug, Clone, Copy, PartialEq, Eq, Structural)]
pub struct MonitoringStats {
    pub total_topics: u32,
    pub total_partitions: u32,
    pub total_consumer_groups: u32,
}

impl Default for MonitoringStats {
    fn default() -> (r: Self)
        ensures
            r == (MonitoringStats {
                total_topics: 0u32,
                total_partitions: 0u32,
                total_consumer_groups: 0u32,
            }),
    {
        MonitoringStats { total_topics: 0, total_partitions: 0, total_consumer_groups: 0 }
    }
}

/// How many rows fit in the scrolling window.
pub const VISIBLE_ITEMS: usize = 20;

pub struct AppState {
    pub mode: AppMode,
    pub current_screen: Screen,
    pub last_key: Option<char>,
    // Input handling
    pub command_input: String,
    pub input_buffer: String,
    pub search_query: String,
    // Navigation
    pub selected_index: usize,
    pub scroll_offset: usize,
    // Cached display data
    pub topics: Vec<TopicInfo>,
    pub messages: Vec<Message>,
    pub consumer_groups: Vec<ConsumerGroupInfo>,
    pub selected_topic: Option<String>,
    pub selected_consumer_group: Option<String>,
    // Connection info
    pub connected: bool,
    pub current_cluster: Option<String>,
    pub connection_status: String,
    // Monitoring
    pub stats: MonitoringStats,
    // Cluster management screen and form
    pub cluster_list: Vec<String>,
    pub cluster_form: Option<ClusterFormState>,
    // Cooperative termination flag
    pub should_quit: bool,
}

/// Length of the active screen's backing list.
pub open spec fn spec_list_len(s: AppState) -> int {
    match s.current_screen {
        Screen::TopicList => s.topics@.len() as int,
        Screen::MessageConsumer => s.messages@.len() as int,
        Screen::MessageProducer => s.messages@.len() as int,
        Screen::ConsumerGroups => s.consumer_groups@.len() as int,
        _ => 1,
    }
}

/// The largest selectable index: the backing list's length minus one, or 0
/// for an empty list.
pub open spec fn spec_max_index(s: AppState) -> int {
    if spec_list_len(s) == 0 {
        0
    } else {
        spec_list_len(s) - 1
    }
}

/// Where the scroll offset lands after a vertical move: the window slides
/// just enough to keep the selection visible.
pub open spec fn spec_adjust_scroll(sel: int, off: int) -> int {
    if sel < off {
        sel
    } else if sel >= off + VISIBLE_ITEMS {
        sel - (VISIBLE_ITEMS - 1)
    } else {
        off
    }
}

/// The state after a downward move: clamped at the last row.
pub open spec fn after_move_down(s: AppState) -> AppState {
    if s.selected_index < spec_max_index(s) {
        AppState {
            selected_index: (s.selected_index + 1) as usize,
            scroll_offset: spec_adjust_scroll(s.selected_index + 1, s.scroll_offset as int) as usize,
            ..s
        }
    } else {
        s
    }
}

/// The state after an upward move: clamped at the first row.
pub open spec fn after_move_up(s: AppState) -> AppState {
    if s.selected_index > 0 {
        AppState {
            selected_index: (s.selected_index - 1) as usize,
            scroll_offset: spec_adjust_scroll(s.selected_index - 1, s.scroll_offset as int) as usize,
            ..s
        }
    } else {
        s
    }
}

/// The state the application starts in: normal mode on the dashboard,
/// nothing cached, disconnected.
pub open spec fn is_initial_state(r: AppState) -> bool {
    &&& r.mode == AppMode::Normal
    &&& r.current_screen == Screen::Dashboard
    &&& r.last_key is None
    &&& r.command_input@ == Seq::<char>::empty()
    &&& r.input_buffer@ == Seq::<char>::empty()
    &&& r.search_query@ == Seq::<char>::empty()
    &&& r.selected_index == 0
    &&& r.scroll_offset == 0
    &&& r.topics@ == Seq::<TopicInfo>::empty()
    &&& r.messages@ == Seq::<Message>::empty()
    &&& r.consumer_groups@ == Seq::<ConsumerGroupInfo>::empty()
    &&& r.selected_topic is None
    &&& r.selected_consumer_group is None
    &&& !r.connected
    &&& r.current_cluster is None
    &&& r.connection_status@ == "Disconnected"@
    &&& r.stats == (MonitoringStats {
        total_topics: 0u32,
        total_partitions: 0u32,
        total_consumer_groups: 0u32,
    })
    &&& r.cluster_list@ == Seq::<String>::empty()
    &&& r.cluster_form is None
    &&& !r.should_quit
}

impl AppState {
    /// The initial state: normal mode on the dashboard, nothing cached,
    /// disconnected.
    pub fn new() -> (r: Self)
        ensures
            is_initial_state(r),
    {
        let r = AppState {
            mode: AppMode::Normal,
            current_screen: Screen::Dashboard,
            last_key: None,
            command_input: String::new(),
            input_buffer: String::new(),
            search_query: String::new(),
            selected_index: 0,
            scroll_offset: 0,
            topics: Vec::new(),
            messages: Vec::new(),
            consumer_groups: Vec::new(),
            selected_topic: None,
            selected_consumer_group: None,
            connected: false,
            current_cluster: None,
            connection_status: "Disconnected".to_owned(),
            stats: MonitoringStats::default(),
            cluster_list: Vec::new(),
            cluster_form: None,
            should_quit: false,
        };
        proof {
            assert(r.topics@ =~= Seq::<TopicInfo>::empty());
            assert(r.messages@ =~= Seq::<Message>::empty());
            assert(r.consumer_groups@ =~= Seq::<ConsumerGroupInfo>::empty());
            assert(r.cluster_list@ =~= Seq::<String>::empty());
        }
        r
    }

    /// Length of the active screen's backing list, clamped to one row for
    /// screens without a list.
    pub fn get_max_index(&self) -> (r: usize)
        ensures
            r == spec_max_index(*self),
    {
        let len: usize = match self.current_screen {
            Screen::TopicList => self.topics.len(),
            Screen::MessageConsumer => self.messages.len(),
            Screen::MessageProducer => self.messages.len(),
            Screen::ConsumerGroups => self.consumer_groups.len(),
            _ => 1,
        };
        if len == 0 {
            0
        } else {
            len - 1
        }
    }

    /// Slides the scroll window to keep the selection visible.
    fn adjust_scroll(&mut self)
        ensures
            *final(self) == (AppState {
                scroll_offset: spec_adjust_scroll(
                    old(self).selected_index as int,
                    old(self).scroll_offset as int,
                ) as usize,
                ..*old(self)
            }),
    {
        if self.selected_index < self.scroll_offset {
            self.scroll_offset = self.selected_index;
        } else if self.selected_index - self.scroll_offset >= VISIBLE_ITEMS {
            self.scroll_offset = self.selected_index - (VISIBLE_ITEMS - 1);
        }
    }

    /// Moves the selection up one row, stopping at the top.
    pub fn move_up(&mut self)
        ensures
            *final(self) == after_move_up(*old(self)),
    {
        if self.selected_index > 0 {
            self.selected_index = self.selected_index - 1;
            self.adjust_scroll();
        }
    }

    /// Moves the selection down one row, stopping at the last row of the
    /// active screen's list.
    pub fn move_down(&mut self)
        ensures
            *final(self) == after_move_down(*old(self)),
    {
        let max_index = self.get_max_index();
        if self.selected_index < max_index {
            self.selected_index = self.selected_index + 1;
            self.adjust_scroll();
        }
    }

    /// Horizontal navigation is reserved; the state is unchanged.
    pub fn move_left(&mut self)
        ensures
            *final(self) == *old(self),
    {
    }

    /// Horizontal navigation is reserved; the state is unchanged.
    pub fn move_right(&mut self)
        ensures
            *final(self) == *old(self),
    {
    }

    /// Jumps to the first row and resets the scroll window.
    pub fn go_to_top(&mut self)
        ensures
            *final(self) == (AppState { selected_index: 0usize, scroll_offset: 0usize, ..*old(self) }),
    {
        self.selected_index = 0;
        self.scroll_offset = 0;
    }

    /// Jumps to the last row of the active screen's list.
    pub fn go_to_bottom(&mut self)
        ensures
            *final(self) == after_go_bottom(*old(self)),
    {
        self.selected_index = self.get_max_index();
        self.adjust_scroll();
    }

    /// Moves the selection one page up, stopping at the top.
    pub fn page_up(&mut self)
        ensures
            *final(self) == after_page_up(*old(self)),
    {
        if self.selected_index >= PAGE_SIZE {
            self.selected_index = self.selected_index - PAGE_SIZE;
        } else {
            self.selected_index = 0;
        }
        self.adjust_scroll();
    }

    /// Moves the selection one page down, clamped to the last row.
    pub fn page_down(&mut self)
        ensures
            *final(self) == after_page_down(*old(self)),
    {
        let max_index = self.get_max_index();
        if self.selected_index >= max_index {
            self.selected_index = max_index;
        } else if max_index - self.selected_index <= PAGE_SIZE {
            self.selected_index = max_index;
        } else {
            self.selected_index = self.selected_index + PAGE_SIZE;
        }
        self.adjust_scroll();
    }

    /// Advances to the next screen in the cycle and resets the cursor.
    pub fn next_screen(&mut self)
        ensures
            *final(self) == (AppState {
                current_screen: next_screen_spec(old(self).current_screen),
                selected_index: 0usize,
                scroll_offset: 0usize,
                ..*old(self)
            }),
    {
        self.current_screen = match self.current_screen {
            Screen::Dashboard => Screen::TopicList,
            Screen::TopicList => Screen::MessageProducer,
            Screen::MessageProducer => Screen::MessageConsumer,
            Screen::MessageConsumer => Screen::ConsumerGroups,
            Screen::ConsumerGroups => Screen::Monitoring,
            Screen::Monitoring => Screen::Settings,
            Screen::Settings => Screen::ClusterManagement,
            Screen::ClusterManagement => Screen::Dashboard,
            Screen::TopicDetail => Screen::TopicList,
        };
        self.reset_selection();
    }

    /// Steps back to the previous screen in the cycle and resets the cursor.
    pub fn previous_screen(&mut self)
        ensures
            *final(self) == (AppState {
                current_screen: previous_screen_spec(old(self).current_screen),
                selected_index: 0usize,
                scroll_offset: 0usize,
                ..*old(self)
            }),
    {
        self.current_screen = match self.current_screen {
            Screen::Dashboard => Screen::ClusterManagement,
            Screen::TopicList => Screen::Dashboard,
            Screen::MessageProducer => Screen::TopicList,
            Screen::MessageConsumer => Screen::MessageProducer,
            Screen::ConsumerGroups => Screen::MessageConsumer,
            Screen::Monitoring => Screen::ConsumerGroups,
            Screen::Settings => Screen::Monitoring,
            Screen::ClusterManagement => Screen::Settings,
            Screen::TopicDetail => Screen::TopicList,
        };
        self.reset_selection();
    }

    /// Puts the cursor back on the first row.
    fn reset_selection(&mut self)
        ensures
            *final(self) == (AppState { selected_index: 0usize, scroll_offset: 0usize, ..*old(self) }),
    {
        self.selected_index = 0;
        self.scroll_offset = 0;
    }

    /// Appends a topic to the cached topic list.
    pub fn add_topic(&mut self, topic: TopicInfo)
        ensures
            *final(self) == (AppState { topics: final(self).topics, ..*old(self) }),
            final(self).topics@ == old(self).topics@.push(topic),
    {
        self.topics.push(topic);
    }

    /// Appends a message to the bounded cache; beyond the cap the oldest
    /// message is evicted, so at most `MAX_MESSAGES` are kept and the
    /// order of the survivors is preserved.
    pub fn add_message(&mut self, message: Message)
        ensures
            *final(self) == (AppState { messages: final(self).messages, ..*old(self) }),
            old(self).messages@.len() < crate::MAX_MESSAGES ==> final(self).messages@ == old(self).messages@.push(message),
            old(self).messages@.len() >= crate::MAX_MESSAGES ==> final(self).messages@ == old(self).messages@.push(message).drop_first(),
    {
        self.messages.push(message);
        if self.messages.len() > crate::MAX_MESSAGES {
            self.messages.remove(0);
            proof {
                assert(self.messages@ =~= old(self).messages@.push(message).drop_first());
            }
        }
    }

    /// Empties the message cache.
    pub fn clear_messages(&mut self)
        ensures
            *final(self) == (AppState { messages: final(self).messages, ..*old(self) }),
            final(self).messages@ == Seq::<Message>::empty(),
    {
        self.messages.clear();
        proof {
            assert(self.messages@ =~= Seq::<Message>::empty());
        }
    }

    /// The topic under the cursor, when the topic list is showing one.
    pub fn get_selected_topic(&self) -> (r: Option<&TopicInfo>)
        ensures
            match r {
                Some(t) => self.current_screen == Screen::TopicList && self.selected_index
                    < self.topics@.len() && *t == self.topics@[self.selected_index as int],
                None => !(self.current_screen == Screen::TopicList && self.selected_index
                    < self.topics@.len()),
            },
    {
        if matches!(self.current_screen, Screen::TopicList) && self.selected_index
            < self.topics.len() {
            Some(&self.topics[self.selected_index])
        } else {
            None
        }
    }

    /// The consumer group under the cursor, when the group list is showing
    /// one.
    pub fn get_selected_consumer_group(&self) -> (r: Option<&ConsumerGroupInfo>)
        ensures
            match r {
                Some(g) => self.current_screen == Screen::ConsumerGroups && self.selected_index
                    < self.consumer_groups@.len() && *g == self.consumer_groups@[self.selected_index as int],
                None => !(self.current_screen == Screen::ConsumerGroups && self.selected_index
                    < self.consumer_groups@.len()),
            },
    {
        if matches!(self.current_screen, Screen::ConsumerGroups) && self.selected_index
            < self.consumer_groups.len() {
            Some(&self.consumer_groups[self.selected_index])
        } else {
            None
        }
    }

    /// Records the connection state and rewrites the status line to match.
    pub fn set_connected(&mut self, connected: bool, cluster: Option<String>)
        ensures
            *final(self) == (AppState {
                connected,
                current_cluster: final(self).current_cluster,
                connection_status: final(self).connection_status,
                ..*old(self)
            }),
            final(self).current_cluster == cluster,
            final(self).connection_status@ == conn_status_text(connected, cluster.deep_view()),
    {
        self.connected = connected;
        self.current_cluster = cluster;
        let status = if connected {
            let mut s = "Connected to ".to_owned();
            match &self.current_cluster {
                Some(c) => s.append(c.as_str()),
                None => s.append("Unknown"),
            }
            s
        } else {
            "Disconnected".to_owned()
        };
        self.connection_status = status;
    }

    /// Replaces the monitoring counters.
    pub fn update_stats(&mut self, stats: MonitoringStats)
        ensures
            *final(self) == (AppState { stats, ..*old(self) }),
    {
        self.stats = stats;
    }

    /// Overwrites the status line; it is the single channel for
    /// operator-facing text.
    pub fn set_status_message(&mut self, msg: &str)
        ensures
            status_set(*old(self), *final(self), msg@),
    {
        self.connection_status = msg.to_owned();
    }

    /// Executes a registry-level command against the registry, reporting
    /// the outcome in the status line. Errors are returned to the caller
    /// unchanged; the registry is left untouched by a failed command,
    /// except that removing the currently connected cluster first drops
    /// the connection state.
    pub fn handle_command(&mut self, command: Command, registry: &mut ClusterRegistry) -> (r:
        Result<(), KafkaEyeError>)
        requires
            old(registry).wf(),
        ensures
            final(registry).wf(),
            command@ matches SpecCommand::AddCluster { name, brokers, client_id, security } ==> {
                &&& (r is Ok <==> can_add(old(registry)@, name, brokers, security))
                &&& (can_add(old(registry)@, name, brokers, security) ==> final(registry)@
                    == spec_added(old(registry)@, name, brokers, client_id, security) && status_set(
                    *old(self),
                    *final(self),
                    "Added cluster "@ + name,
                ))
                &&& (!can_add(old(registry)@, name, brokers, security) ==> (r matches Err(e) && e@
                    == add_error(old(registry)@, name, brokers, security) && *final(registry)
                    == *old(registry) && *final(self) == *old(self)))
            },
            command@ matches SpecCommand::RemoveCluster { name } ==> {
                let had = spec_has(old(registry)@, name);
                let cm = old(self).current_cluster.deep_view() == Some(name);
                &&& (r is Ok <==> had)
                &&& (!had ==> (r matches Err(e) && e@ == SpecError::Config(
                    "Cluster not found: "@ + name,
                ) && *final(registry) == *old(registry)))
                &&& (had ==> (exists|i: int|
                    {
                        &&& 0 <= i < old(registry)@.clusters.len()
                        &&& old(registry)@.clusters[i].name == name
                        &&& final(registry)@.clusters == old(registry)@.clusters.remove(i)
                    }))
                &&& (had ==> final(registry)@.active == (if old(registry)@.active == Some(name) {
                    None::<Seq<char>>
                } else {
                    old(registry)@.active
                }))
                &&& *final(self) == (AppState {
                    connected: final(self).connected,
                    current_cluster: final(self).current_cluster,
                    connection_status: final(self).connection_status,
                    ..*old(self)
                })
                &&& final(self).connected == (if cm {
                    false
                } else {
                    old(self).connected
                })
                &&& final(self).current_cluster.deep_view() == (if cm {
                    None::<Seq<char>>
                } else {
                    old(self).current_cluster.deep_view()
                })
                &&& final(self).connection_status@ == (if had {
                    "Removed cluster "@ + name
                } else if cm {
                    "Disconnected"@
                } else {
                    old(self).connection_status@
                })
            },
            command@ matches SpecCommand::SwitchCluster { name } ==> {
                let had = spec_has(old(registry)@, name);
                &&& (r is Ok <==> had)
                &&& (had ==> final(registry)@.clusters == old(registry)@.clusters && final(registry)@.active == Some(name))
                &&& (had ==> *final(self) == (AppState {
                    current_cluster: final(self).current_cluster,
                    connection_status: final(self).connection_status,
                    ..*old(self)
                }) && final(self).current_cluster.deep_view() == Some(name) && final(self).connection_status@ == "Switching to cluster "@ + name)
                &&& (!had ==> (r matches Err(e) && e@ == SpecError::Other(
                    "Cluster "@ + name + " not found"@,
                ) && *final(registry) == *old(registry) && *final(self) == *old(self)))
            },
            command@ is ListClusters ==> r is Ok && *final(registry) == *old(registry)
                && status_set(
                *old(self),
                *final(self),
                (if spec_names(old(registry)@).len() == 0 {
                    "No clusters configured"@
                } else {
                    "Configured clusters: "@ + join_spec(spec_names(old(registry)@), ", "@)
                }),
            ),
            (command@ is ManageClusters || command@ is Status || command@ is Quit) ==> r is Ok
                && *final(registry) == *old(registry) && *final(self) == *old(self),
            command@ is Connect ==> r is Ok && *final(registry) == *old(registry) && status_set(
                *old(self),
                *final(self),
                "Connection command received"@,
            ),
            command@ is Disconnect ==> r is Ok && *final(registry) == *old(registry)
                && status_set(*old(self), *final(self), "Disconnection command received"@),
            command@ matches SpecCommand::Unknown(msg) ==> (r matches Err(e) && e@
                == SpecError::Other("Unknown command: "@ + msg) && *final(registry) == *old(registry) && *final(self) == *old(self)),
    {
        match command {
            Command::AddCluster { name, brokers, client_id, security } => {
                match registry.add_cluster(name.as_str(), &brokers, client_id.as_str(), security) {
                    Ok(u) => {
                        let mut m = "Added cluster ".to_owned();
                        m.append(name.as_str());
                        self.set_status_message(m.as_str());
                        Ok(())
                    },
                    Err(e) => Err(e),
                }
            },
            Command::RemoveCluster { name } => {
                let cur_matches = match &self.current_cluster {
                    Some(c) => str_eq(c.as_str(), name.as_str()),
                    None => false,
                };
                if cur_matches {
                    self.set_connected(false, None);
                }
                match registry.remove_cluster(name.as_str()) {
                    Ok(u) => {
                        let mut m = "Removed cluster ".to_owned();
                        m.append(name.as_str());
                        self.set_status_message(m.as_str());
                        Ok(())
                    },
                    Err(e) => Err(e),
                }
            },
            Command::SwitchCluster { name } => {
                if registry.has_cluster(name.as_str()) {
                    match registry.set_active_cluster(name.as_str()) {
                        Ok(u) => {},
                        Err(e) => {
                            return Err(e);
                        },
                    }
                    let mut m = "Switching to cluster ".to_owned();
                    m.append(name.as_str());
                    self.set_status_message(m.as_str());
                    self.current_cluster = Some(name);
                    Ok(())
                } else {
                    let mut m = "Cluster ".to_owned();
                    m.append(name.as_str());
                    m.append(" not found");
                    Err(KafkaEyeError::Other(m))
                }
            },
            Command::ListClusters => {
                let names = registry.list_clusters();
                if names.len() == 0 {
                    self.set_status_message("No clusters configured");
                } else {
                    let joined = join_strings(&names, ", ");
                    let mut m = "Configured clusters: ".to_owned();
                    m.append(joined.as_str());
                    self.set_status_message(m.as_str());
                }
                Ok(())
            },
            Command::ManageClusters => Ok(()),
            Command::Status => Ok(()),
            Command::Quit => Ok(()),
            Command::Connect => {
                self.set_status_message("Connection command received");
                Ok(())
            },
            Command::Disconnect => {
                self.set_status_message("Disconnection command received");
                Ok(())
            },
            Command::Unknown(msg) => {
                let mut m = "Unknown command: ".to_owned();
                m.append(msg.as_str());
                Err(KafkaEyeError::Other(m))
            },
        }
    }
}

impl Default for AppState {
    fn default() -> (r: Self)
        ensures
            is_initial_state(r),
    {
        Self::new()
    }
}

/// How many rows a page jump covers.
pub const PAGE_SIZE: usize = 10;

/// The state after jumping to the last row.
pub open spec fn after_go_bottom(s: AppState) -> AppState {
    AppState {
        selected_index: spec_max_index(s) as usize,
        scroll_offset: spec_adjust_scroll(spec_max_index(s), s.scroll_offset as int) as usize,
        ..s
    }
}

/// The state after a page up: ten rows towards the top, stopping there.
pub open spec fn after_page_up(s: AppState) -> AppState {
    let sel = if s.selected_index >= PAGE_SIZE {
        s.selected_index - PAGE_SIZE
    } else {
        0
    };
    AppState {
        selected_index: sel as usize,
        scroll_offset: spec_adjust_scroll(sel, s.scroll_offset as int) as usize,
        ..s
    }
}

/// The state after a page down: ten rows towards the end, clamped to the
/// last row.
pub open spec fn after_page_down(s: AppState) -> AppState {
    let m = spec_max_index(s);
    let sel = if s.selected_index + PAGE_SIZE <= m {
        s.selected_index + PAGE_SIZE
    } else {
        m
    };
    AppState {
        selected_index: sel as usize,
        scroll_offset: spec_adjust_scroll(sel, s.scroll_offset as int) as usize,
        ..s
    }
}

/// The screen after forward cyclic navigation; the topic detail view
/// returns to the topic list.
pub open spec fn next_screen_spec(s: Screen) -> Screen {
    match s {
        Screen::Dashboard => Screen::TopicList,
        Screen::TopicList => Screen::MessageProducer,
        Screen::MessageProducer => Screen::MessageConsumer,
        Screen::MessageConsumer => Screen::ConsumerGroups,
        Screen::ConsumerGroups => Screen::Monitoring,
        Screen::Monitoring => Screen::Settings,
        Screen::Settings => Screen::ClusterManagement,
        Screen::ClusterManagement => Screen::Dashboard,
        Screen::TopicDetail => Screen::TopicList,
    }
}

/// The screen after backward cyclic navigation.
pub open spec fn previous_screen_spec(s: Screen) -> Screen {
    match s {
        Screen::Dashboard => Screen::ClusterManagement,
        Screen::TopicList => Screen::Dashboard,
        Screen::MessageProducer => Screen::TopicList,
        Screen::MessageConsumer => Screen::MessageProducer,
        Screen::ConsumerGroups => Screen::MessageConsumer,
        Screen::Monitoring => Screen::ConsumerGroups,
        Screen::Settings => Screen::Monitoring,
        Screen::ClusterManagement => Screen::Settings,
        Screen::TopicDetail => Screen::TopicList,
    }
}

/// The status line that `set_connected` writes.
pub open spec fn conn_status_text(connected: bool, cluster: Option<Seq<char>>) -> Seq<char> {
    if connected {
        "Connected to "@ + (match cluster {
            Some(c) => c,
            None => "Unknown"@,
        })
    } else {
        "Disconnected"@
    }
}

/// Moving down is clamped: from the last selectable row the selection
/// stays put, and a selection within bounds never leaves them, however
/// often the move is repeated.
pub proof fn lemma_move_down_clamped(s: AppState)
    requires
        s.selected_index <= spec_max_index(s),
    ensures
        after_move_down(s).selected_index <= spec_max_index(after_move_down(s)),
        s.selected_index == spec_max_index(s) ==> after_move_down(s) == s,
{
}

/// When a form exists its cursor is on a real field.
pub open spec fn state_wf(s: AppState) -> bool {
    match s.cluster_form {
        Some(f) => f.wf(),
        None => true,
    }
}

/// Only the status line differs between the two states, and it now reads
/// `msg`.
pub open spec fn status_set(pre: AppState, post: AppState, msg: Seq<char>) -> bool {
    &&& post == (AppState { connection_status: post.connection_status, ..pre })
    &&& post.connection_status@ == msg
}

} // verus!
