//! The panel for plain text replacement.

use vstd::prelude::*;

use crate::replace::ReplaceOptions;
use crate::views::Action;

verus! {

/// The settings of the replacement panel.
#[derive(Clone, Debug)]
pub struct ReplaceView {
    pub replace: String,
    pub with: String,
    pub case_sensative: bool,
}

/// A text field of the panel.
#[derive(Clone, Copy, Debug, PartialEq, Eq, Structural)]
pub enum Field {
    Replace,
    With,
}

/// A change made in the panel.
#[derive(Clone, Debug)]
pub enum Message {
    Update(Field, String),
    Toggle(bool),
    Reset,
}

impl Default for ReplaceView {
    fn default() -> (r: Self)
        ensures
            r.replace@.len() == 0 && r.with@.len() == 0 && !r.case_sensative,
    {
        ReplaceView { replace: String::new(), with: String::new(), case_sensative: false }
    }
}

impl ReplaceView {
    /// The replacement the panel describes.
    pub fn to_options(&self, _index: usize) -> (r: ReplaceOptions)
        ensures
            r.replace@ == self.replace@ && r.with@ == self.with@ && r.case_sensative
                == self.case_sensative,
    {
        ReplaceOptions {
            replace: self.replace.clone(),
            with: self.with.clone(),
            case_sensative: self.case_sensative,
        }
    }

    /// Apply a change; a reset clears the panel and asks to drop the option.
    pub fn update(&mut self, message: Message) -> (r: Action)
        ensures
            match message {
                Message::Update(Field::Replace, t) => final(self).replace == t && final(self).with
                    == old(self).with && final(self).case_sensative == old(self).case_sensative
                    && r == Action::Update,
                Message::Update(Field::With, t) => final(self).with == t && final(self).replace
                    == old(self).replace && final(self).case_sensative == old(self).case_sensative
                    && r == Action::Update,
                Message::Toggle(b) => final(self).case_sensative == b && final(self).replace
                    == old(self).replace && final(self).with == old(self).with && r
                    == Action::Update,
                Message::Reset => final(self).replace@.len() == 0 && final(self).with@.len() == 0
                    && !final(self).case_sensative && r == Action::Remove,
            },
    {
        match message {
            Message::Update(Field::Replace, text) => self.replace = text,
            Message::Update(Field::With, text) => self.with = text,
            Message::Toggle(b) => self.case_sensative = b,
            Message::Reset => {
                self.replace = String::new();
                self.with = String::new();
                self.case_sensative = false;
                return Action::Remove;
            },
        }
        Action::Update
    }
}

} // verus!
