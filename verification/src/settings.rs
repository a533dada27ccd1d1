//! The editor's settings.
use vstd::prelude::*;
use crate::view::EditMode;

verus! {

/// Whether the tab key writes spaces or a tab character.
#[derive(Clone, Copy, Debug, PartialEq, Eq, PartialOrd, Structural)]
pub enum TabType {
    Space,
    Tab,
}

impl Default for TabType {
    /// Spaces are the default.
    fn default() -> (t: TabType)
        ensures
            t == TabType::Space,
    {
        TabType::Space
    }
}

/// The settings of the editor.
#[derive(Clone, Copy, Debug, PartialEq, Eq, PartialOrd, Structural)]
pub struct EditorSettings {
    /// How long to wait for input, in milliseconds, before redrawing.
    pub poll_interval: u64,
    /// The mode the editor starts in.
    pub edit_mode: EditMode,
    /// What the tab key writes.
    pub tab_type: TabType,
    /// How many columns a tab takes.
    pub tab_size: usize,
    /// How long a status message stays, in milliseconds.
    pub msg_delay: usize,
}

/// The settings the editor starts with.
pub open spec fn default_settings() -> EditorSettings {
    EditorSettings {
        poll_interval: 100,
        edit_mode: EditMode::Normal,
        tab_type: TabType::Space,
        tab_size: 4,
        msg_delay: 10000,
    }
}

impl Default for EditorSettings {
    /// Polling every 100 ms, `Normal` mode, tabs as four spaces, messages
    /// shown for 10 s.
    fn default() -> (s: EditorSettings)
        ensures
            s == default_settings(),
    {
        EditorSettings {
            poll_interval: 100,
            edit_mode: EditMode::Normal,
            tab_type: TabType::Space,
            tab_size: 4,
            msg_delay: 10000,
        }
    }
}

impl EditorSettings {
    /// The settings to use; these are the defaults, since settings are not
    /// stored anywhere yet.
    pub fn load() -> (s: EditorSettings)
        ensures
            s == default_settings(),
    {
        EditorSettings::default()
    }

    /// Keeps the settings for the next run; settings are not stored
    /// anywhere yet, so this does nothing.
    pub fn save(&self) {
    }
}

} // verus!
