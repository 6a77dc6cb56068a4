//! The panel for text to add.

use vstd::prelude::*;

use crate::add::AddOptions;
use crate::renamer::RenameOption;
use crate::views::Action;

verus! {

/// The settings of the panel for text to add.
#[derive(Clone, Debug)]
pub struct AddView {
    pub prefix: String,
    pub insert: String,
    pub position: i32,
    pub suffix: String,
    pub word_space: bool,
}

/// A text field of the panel.
#[derive(Clone, Copy, Debug, PartialEq, Eq, Structural)]
pub enum Field {
    Prefix,
    Insert,
    Suffix,
}

/// A change made in the panel.
#[derive(Debug)]
pub enum Message {
    ChangedText((Field, String)),
    NumberChanged(i32),
    BoxToggle(bool),
    Reset,
}

impl Clone for Message {
    fn clone(&self) -> (r: Self)
        ensures
            r == *self,
    {
        match self {
            Message::ChangedText(change) => Message::ChangedText((change.0, change.1.clone())),
            Message::NumberChanged(n) => Message::NumberChanged(*n),
            Message::BoxToggle(b) => Message::BoxToggle(*b),
            Message::Reset => Message::Reset,
        }
    }
}

impl Default for AddView {
    fn default() -> (r: Self)
        ensures
            r.prefix@.len() == 0 && r.insert@.len() == 0 && r.suffix@.len() == 0,
            r.position == 0 && !r.word_space,
    {
        AddView {
            prefix: String::new(),
            insert: String::new(),
            position: 0,
            suffix: String::new(),
            word_space: false,
        }
    }
}

/// `s` when it is not empty.
fn non_empty(s: &String) -> (r: Option<String>)
    ensures
        match r {
            Some(t) => s@.len() > 0 && t@ == s@,
            None => s@.len() == 0,
        },
{
    if s.as_str().is_empty() {
        None
    } else {
        Some(s.clone())
    }
}

impl AddView {
    /// The option the panel describes: each text that is not empty.
    pub fn to_options(&self, _index: usize) -> (r: RenameOption)
        ensures
            r matches RenameOption::Add(o) && o.word_space == self.word_space && match o.prefix {
                Some(p) => self.prefix@.len() > 0 && p@ == self.prefix@,
                None => self.prefix@.len() == 0,
            } && match o.insert {
                Some((at, t)) => self.insert@.len() > 0 && at == self.position && t@ == self.insert@,
                None => self.insert@.len() == 0,
            } && match o.suffix {
                Some(x) => self.suffix@.len() > 0 && x@ == self.suffix@,
                None => self.suffix@.len() == 0,
            },
    {
        let insert = match non_empty(&self.insert) {
            Some(t) => Some((self.position, t)),
            None => None,
        };
        RenameOption::Add(
            AddOptions {
                prefix: non_empty(&self.prefix),
                insert,
                suffix: non_empty(&self.suffix),
                word_space: self.word_space,
            },
        )
    }

    /// Apply a change; a reset clears the panel and asks to drop the option.
    pub fn update(&mut self, message: Message) -> (r: Action)
        ensures
            match message {
                Message::ChangedText((Field::Prefix, t)) => *final(self) == (AddView {
                    prefix: t,
                    ..*old(self)
                }) && r == Action::Update,
                Message::ChangedText((Field::Insert, t)) => *final(self) == (AddView {
                    insert: t,
                    ..*old(self)
                }) && r == Action::Update,
                Message::ChangedText((Field::Suffix, t)) => *final(self) == (AddView {
                    suffix: t,
                    ..*old(self)
                }) && r == Action::Update,
                Message::NumberChanged(n) => *final(self) == (AddView { position: n, ..*old(self) })
                    && r == Action::Update,
                Message::BoxToggle(b) => *final(self) == (AddView { word_space: b, ..*old(self) })
                    && r == Action::Update,
                Message::Reset => final(self).prefix@.len() == 0 && final(self).insert@.len() == 0
                    && final(self).suffix@.len() == 0 && final(self).position == 0
                    && !final(self).word_space && r == Action::Remove,
            },
    {
        match message {
            Message::ChangedText((field, text)) => match field {
                Field::Prefix => self.prefix = text,
                Field::Insert => self.insert = text,
                Field::Suffix => self.suffix = text,
            },
            Message::NumberChanged(n) => self.position = n,
            Message::BoxToggle(b) => self.word_space = b,
            Message::Reset => {
                *self = AddView::default();
                return Action::Remove;
            },
        }
        Action::Update
    }
}

} // verus!
