//! The panel for the names of the containing folders.

use vstd::prelude::*;

use crate::folder::{FolderMode, FolderOptions};
use crate::views::Action;

verus! {

/// The settings of the folder panel.
#[derive(Clone, Debug)]
pub struct FolderView {
    pub selected: Option<FolderMode>,
    pub sep: String,
    pub levels: i32,
}

/// A change made in the folder panel.
#[derive(Clone, Debug)]
pub enum Message {
    Reset,
    UpdateNumber(i32),
    UpdateSelected(FolderMode),
    UpdateText(String),
}

impl Default for FolderView {
    /// No folder names, no separator, one level.
    fn default() -> (r: Self)
        ensures
            r.selected == Some(FolderMode::Off),
            r.sep@.len() == 0,
            r.levels == 1,
    {
        FolderView { selected: Some(FolderMode::Off), sep: String::new(), levels: 1 }
    }
}

/// The mode after a change other than a reset or a choice of mode: editing a
/// setting while no folder names are added switches to adding them as a prefix.
pub open spec fn edited_mode(selected: Option<FolderMode>) -> Option<FolderMode> {
    if selected == Some(FolderMode::Off) {
        Some(FolderMode::Prefix)
    } else {
        selected
    }
}

impl FolderView {
    /// The name of `mode`, for display.
    pub fn label(mode: FolderMode) -> (r: &'static str)
        ensures
            r@ == match mode {
                FolderMode::Off => "None"@,
                FolderMode::Prefix => "Prefix"@,
                FolderMode::Suffix => "Suffix"@,
            },
    {
        match mode {
            FolderMode::Off => "None",
            FolderMode::Prefix => "Prefix",
            FolderMode::Suffix => "Suffix",
        }
    }

    /// The folder option the panel describes (no mode chosen adds none).
    pub fn to_option_box(&self) -> (r: FolderOptions)
        ensures
            r.mode == match self.selected {
                Some(m) => m,
                None => FolderMode::Off,
            },
            r.sep@ == self.sep@,
            r.levels == self.levels,
    {
        let mode = match self.selected {
            Some(m) => m,
            None => FolderMode::Off,
        };
        FolderOptions { mode, sep: self.sep.clone(), levels: self.levels }
    }

    /// Apply a change; a reset restores the defaults and asks to drop the
    /// option.
    pub fn update(&mut self, message: Message) -> (r: Action)
        ensures
            match message {
                Message::Reset => final(self).selected == Some(FolderMode::Off)
                    && final(self).sep@.len() == 0 && final(self).levels == 1 && r
                    == Action::Remove,
                Message::UpdateSelected(m) => final(self).selected == Some(m) && final(self).sep@
                    == old(self).sep@ && final(self).levels == old(self).levels && r
                    == Action::Update,
                Message::UpdateNumber(n) => final(self).selected == edited_mode(old(self).selected)
                    && final(self).sep@ == old(self).sep@ && final(self).levels == n && r
                    == Action::Update,
                Message::UpdateText(t) => final(self).selected == edited_mode(old(self).selected)
                    && final(self).sep@ == t@ && final(self).levels == old(self).levels && r
                    == Action::Update,
            },
    {
        match message {
            Message::Reset => {},
            Message::UpdateSelected(_) => {},
            _ => {
                if let Some(FolderMode::Off) = self.selected {
                    self.selected = Some(FolderMode::Prefix);
                }
            },
        }
        match message {
            Message::Reset => {
                self.selected = Some(FolderMode::Off);
                self.sep = String::new();
                self.levels = 1;
                return Action::Remove;
            },
            Message::UpdateNumber(n) => self.levels = n,
            Message::UpdateSelected(m) => self.selected = Some(m),
            Message::UpdateText(t) => self.sep = t,
        }
        Action::Update
    }
}

} // verus!
