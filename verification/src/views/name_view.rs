//! The choices of the name panel.

use vstd::prelude::*;

use crate::name::NameOptions;
use crate::views::Action;

verus! {

/// A choice in the name panel.
#[derive(Clone, Copy, Debug, PartialEq, Eq, Structural)]
pub enum Choice {
    Keep,
    Remove,
    Reverse,
    Fixed,
}

impl Choice {
    /// The name of the choice, for display.
    pub fn label(&self) -> (r: &str)
        ensures
            r@ == match self {
                Choice::Keep => "Keep"@,
                Choice::Remove => "Remove"@,
                Choice::Reverse => "Reverse"@,
                Choice::Fixed => "Fixed"@,
            },
    {
        match self {
            Choice::Keep => "Keep",
            Choice::Remove => "Remove",
            Choice::Reverse => "Reverse",
            Choice::Fixed => "Fixed",
        }
    }

    /// The name option for the choice `version` (none chosen keeps the name),
    /// with `text` as the fixed name.
    pub fn to_option_box(version: Option<Choice>, text: &String) -> (r: NameOptions)
        ensures
            match version {
                Some(Choice::Keep) | None => r == NameOptions::Keep,
                Some(Choice::Remove) => r == NameOptions::Remove,
                Some(Choice::Reverse) => r == NameOptions::Reverse,
                Some(Choice::Fixed) => r matches NameOptions::Fixed(t) && t@ == text@,
            },
    {
        match version {
            Some(Choice::Keep) | None => NameOptions::Keep,
            Some(Choice::Remove) => NameOptions::Remove,
            Some(Choice::Reverse) => NameOptions::Reverse,
            Some(Choice::Fixed) => NameOptions::Fixed(text.clone()),
        }
    }
}

/// The settings of the name panel: the choice and the fixed name.
#[derive(Clone, Debug)]
pub struct NameView {
    pub version: Option<Choice>,
    pub text: String,
}

/// A change made in the name panel.
#[derive(Clone, Debug)]
pub enum Message {
    ChangeVersion(Choice),
    Update(String),
    Reset,
}

impl Default for NameView {
    /// Keep the name, with no fixed name typed.
    fn default() -> (r: Self)
        ensures
            r.version == Some(Choice::Keep),
            r.text@.len() == 0,
    {
        NameView { version: Some(Choice::Keep), text: String::new() }
    }
}

impl NameView {
    /// The name option the panel describes.
    pub fn to_option_box(&self) -> (r: NameOptions)
        ensures
            match self.version {
                Some(Choice::Keep) | None => r == NameOptions::Keep,
                Some(Choice::Remove) => r == NameOptions::Remove,
                Some(Choice::Reverse) => r == NameOptions::Reverse,
                Some(Choice::Fixed) => r matches NameOptions::Fixed(t) && t@ == self.text@,
            },
    {
        Choice::to_option_box(self.version, &self.text)
    }

    /// Apply a change; a reset keeps the name, clears the text and asks to drop
    /// the option.
    pub fn update(&mut self, message: Message) -> (r: Action)
        ensures
            match message {
                Message::ChangeVersion(c) => final(self).version == Some(c) && final(self).text@
                    == old(self).text@ && r == Action::Update,
                Message::Update(t) => final(self).version == old(self).version
                    && final(self).text@ == t@ && r == Action::Update,
                Message::Reset => final(self).version == Some(Choice::Keep)
                    && final(self).text@.len() == 0 && r == Action::Remove,
            },
    {
        match message {
            Message::ChangeVersion(c) => self.version = Some(c),
            Message::Update(t) => self.text = t,
            Message::Reset => {
                self.version = Some(Choice::Keep);
                self.text = String::new();
                return Action::Remove;
            },
        }
        Action::Update
    }
}

} // verus!
