//! Core of a terminal dashboard for operating a message-broker cluster.
//!
//! The crate holds the verified control plane: the command language, the
//! modal state machine with its navigation rules, the cluster registry,
//! the cluster form workflow, and the connection-lifecycle decisions.
//! Terminal, broker and file I/O live outside this crate and talk to it
//! through plain values.

pub mod commands;
pub mod config;
pub mod dispatch;
pub mod error;
pub mod events;
pub mod form;
pub mod kafka;
pub mod registry;
pub mod state;
pub mod strutil;
pub mod ui;

use vstd::prelude::*;

verus! {

/// Upper bound on the message cache: adding a message beyond this evicts
/// the oldest one.
pub const MAX_MESSAGES: usize = 1000;

} // verus!
