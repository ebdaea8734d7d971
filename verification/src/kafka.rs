//! The connection lifecycle, seen from the state machine's side: at most
//! one session exists at a time, bound to one cluster. The broker protocol
//! work itself happens outside this crate; its outcomes are reported back
//! through the `record_*` methods, which hold for every possible outcome.

use vstd::prelude::*;

verus! {

/// A broker-originated notification delivered into the event queue.
#[derive(Debug, Clone)]
pub enum KafkaEvent {
    Connected,
    Disconnected,
    MessageReceived(KafkaMessage),
    MessageSent(String),
    TopicsUpdated(Vec<String>),
    ConsumerGroupsUpdated(Vec<String>),
    Error(String),
}

/// One consumed record; the timestamp is milliseconds since the epoch.
#[derive(Debug, Clone)]
pub struct KafkaMessage {
    pub topic: String,
    pub partition: i32,
    pub offset: i64,
    pub key: Option<String>,
    pub value: String,
    pub timestamp_ms: i64,
    pub headers: Vec<(String, String)>,
}

#[derive(Debug, Clone)]
pub struct TopicMetadata {
    pub name: String,
    pub partitions: Vec<PartitionMetadata>,
    pub configs: Vec<(String, String)>,
}

#[derive(Debug, Clone)]
pub struct PartitionMetadata {
    pub id: i32,
    pub leader: Option<i32>,
    pub replicas: Vec<i32>,
    pub in_sync_replicas: Vec<i32>,
}

/// Either no session, or one live session bound to a named cluster. The
/// shape makes "at most one live session" hold by construction.
#[derive(Debug, Clone)]
pub enum ConnectionSession {
    Disconnected,
    Connected { cluster: String },
}

/// Tracks the broker session the application believes it has. The actual
/// handle lives with the broker client outside this crate; every
/// transition here mirrors an outcome that client reported.
#[derive(Debug, Clone)]
pub struct KafkaManager {
    pub session: ConnectionSession,
}

impl KafkaManager {
    /// Starts with no session.
    pub fn new() -> (r: Self)
        ensures
            r.session is Disconnected,
    {
        KafkaManager { session: ConnectionSession::Disconnected }
    }

    /// Whether a session is currently live.
    pub fn is_connected(&self) -> (r: bool)
        ensures
            r == (self.session is Connected),
    {
        matches!(self.session, ConnectionSession::Connected { .. })
    }

    /// Records that a fresh session to the named cluster was established;
    /// it replaces whatever session existed before.
    pub fn record_connect_success(&mut self, cluster: String)
        ensures
            final(self).session == (ConnectionSession::Connected { cluster }),
    {
        self.session = ConnectionSession::Connected { cluster };
    }

    /// Records that connecting failed: no session remains.
    pub fn record_connect_failure(&mut self)
        ensures
            final(self).session is Disconnected,
    {
        self.session = ConnectionSession::Disconnected;
    }

    /// Records a disconnect: whatever the close call reported, no session
    /// remains.
    pub fn record_disconnect(&mut self)
        ensures
            final(self).session is Disconnected,
    {
        self.session = ConnectionSession::Disconnected;
    }
}

} // verus!
