//! The decisions behind the rendered frame: which tab is highlighted,
//! how the current mode is labelled, and which hint line is shown. The
//! widget tree itself is drawn outside this crate from these values.

use vstd::prelude::*;
use crate::state::AppMode;
use crate::state::Screen;

verus! {

pub struct UI {}

/// The tab highlighted for each screen; the topic detail view highlights
/// the topic list's tab.
pub open spec fn tab_index_spec(s: Screen) -> int {
    match s {
        Screen::Dashboard => 0,
        Screen::TopicList => 1,
        Screen::TopicDetail => 1,
        Screen::MessageProducer => 2,
        Screen::MessageConsumer => 3,
        Screen::ConsumerGroups => 4,
        Screen::Monitoring => 5,
        Screen::Settings => 6,
        Screen::ClusterManagement => 7,
    }
}

/// The mode name shown in the status bar.
pub open spec fn mode_label_spec(m: AppMode) -> Seq<char> {
    match m {
        AppMode::Normal => "NORMAL"@,
        AppMode::Insert => "INSERT"@,
        AppMode::Command => "COMMAND"@,
        AppMode::Visual => "VISUAL"@,
        AppMode::ClusterForm => "FORM"@,
    }
}

/// The key hint shown beside the status bar.
pub open spec fn help_text_spec(m: AppMode) -> Seq<char> {
    match m {
        AppMode::Normal => "q:quit :cmd Tab:nav"@,
        AppMode::Insert => "ESC:normal Enter:send"@,
        AppMode::Command => "ESC:cancel Enter:exec"@,
        AppMode::Visual => "ESC:normal"@,
        AppMode::ClusterForm => "ESC:cancel Tab:field Enter:submit"@,
    }
}

impl UI {
    pub fn new() -> (r: Self) {
        UI {  }
    }

    /// Which of the eight tabs to highlight for the given screen.
    pub fn tab_index(&self, s: Screen) -> (r: usize)
        ensures
            r == tab_index_spec(s),
    {
        match s {
            Screen::Dashboard => 0,
            Screen::TopicList => 1,
            Screen::TopicDetail => 1,
            Screen::MessageProducer => 2,
            Screen::MessageConsumer => 3,
            Screen::ConsumerGroups => 4,
            Screen::Monitoring => 5,
            Screen::Settings => 6,
            Screen::ClusterManagement => 7,
        }
    }

    /// The label of the current mode.
    pub fn mode_label(&self, m: AppMode) -> (r: &'static str)
        ensures
            r@ == mode_label_spec(m),
    {
        match m {
            AppMode::Normal => "NORMAL",
            AppMode::Insert => "INSERT",
            AppMode::Command => "COMMAND",
            AppMode::Visual => "VISUAL",
            AppMode::ClusterForm => "FORM",
        }
    }

    /// The key hint for the current mode.
    pub fn help_text(&self, m: AppMode) -> (r: &'static str)
        ensures
            r@ == help_text_spec(m),
    {
        match m {
            AppMode::Normal => "q:quit :cmd Tab:nav",
            AppMode::Insert => "ESC:normal Enter:send",
            AppMode::Command => "ESC:cancel Enter:exec",
            AppMode::Visual => "ESC:normal",
            AppMode::ClusterForm => "ESC:cancel Tab:field Enter:submit",
        }
    }
}

impl Default for UI {
    fn default() -> (r: Self) {
        UI {  }
    }
}

} // verus!
