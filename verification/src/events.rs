//! Events as the state machine sees them: key presses reduced to the keys
//! the handlers distinguish, pointer and resize notifications, the
//! periodic tick, and broker-originated notifications. The terminal
//! backend translates its own event types into these before queueing.

use vstd::prelude::*;
use crate::kafka::KafkaEvent;

verus! {

/// A key press, reduced to what the handlers distinguish.
#[derive(Debug, Clone, Copy, PartialEq, Eq, Structural)]
pub enum Key {
    Char(char),
    Enter,
    Esc,
    Backspace,
    Tab,
    BackTab,
    Up,
    Down,
    Left,
    Right,
    Delete,
    Other,
}

/// One terminal-originated event.
#[derive(Debug, Clone)]
pub enum InputEvent {
    Key(Key),
    Mouse,
    Resize(u16, u16),
}

/// One item of the merged event stream the main loop drains.
#[derive(Debug, Clone)]
pub enum AppEvent {
    Input(InputEvent),
    Tick,
    KafkaEvent(KafkaEvent),
}

} // verus!
