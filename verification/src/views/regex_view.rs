//! The panel for regular-expression replacement.

use vstd::prelude::*;

use crate::reg::RegexOptions;
use crate::renamer::RenameOption;
use crate::views::Action;

verus! {

/// The settings of the regular-expression panel.
#[derive(Clone, Debug)]
pub struct RegexView {
    pub expression: String,
    pub replacement: String,
    pub include_extension: bool,
}

/// A text field of the panel.
#[derive(Clone, Copy, Debug, PartialEq, Eq, Structural)]
pub enum Field {
    Expression,
    Replacement,
}

/// A change made in the panel.
#[derive(Debug)]
pub enum Message {
    ChangedText((Field, String)),
    BoxToggle(bool),
    Reset,
}

impl Clone for Message {
    fn clone(&self) -> (r: Self)
        ensures
            r == *self,
    {
        match self {
            Message::ChangedText(change) => Message::ChangedText((change.0, change.1.clone())),
            Message::BoxToggle(b) => Message::BoxToggle(*b),
            Message::Reset => Message::Reset,
        }
    }
}

impl Default for RegexView {
    fn default() -> (r: Self)
        ensures
            r.expression@.len() == 0 && r.replacement@.len() == 0 && !r.include_extension,
    {
        RegexView { expression: String::new(), replacement: String::new(), include_extension: false }
    }
}

impl RegexView {
    /// The option the panel describes.
    pub fn to_options(&self, _index: usize) -> (r: RenameOption)
        ensures
            r matches RenameOption::Regex(o) && o.exp@ == self.expression@ && o.rep@
                == self.replacement@ && o.extension == self.include_extension,
    {
        RenameOption::Regex(
            RegexOptions {
                exp: self.expression.clone(),
                rep: self.replacement.clone(),
                extension: self.include_extension,
            },
        )
    }

    /// Apply a change; a reset clears the panel and asks to drop the option.
    pub fn update(&mut self, message: Message) -> (r: Action)
        ensures
            match message {
                Message::ChangedText((Field::Expression, t)) => final(self).expression == t
                    && final(self).replacement == old(self).replacement
                    && final(self).include_extension == old(self).include_extension && r
                    == Action::Update,
                Message::ChangedText((Field::Replacement, t)) => final(self).replacement == t
                    && final(self).expression == old(self).expression
                    && final(self).include_extension == old(self).include_extension && r
                    == Action::Update,
                Message::BoxToggle(b) => final(self).include_extension == b
                    && final(self).expression == old(self).expression
                    && final(self).replacement == old(self).replacement && r == Action::Update,
                Message::Reset => final(self).expression@.len() == 0
                    && final(self).replacement@.len() == 0 && !final(self).include_extension && r
                    == Action::Remove,
            },
    {
        match message {
            Message::ChangedText((field, text)) => match field {
                Field::Expression => self.expression = text,
                Field::Replacement => self.replacement = text,
            },
            Message::BoxToggle(b) => self.include_extension = b,
            Message::Reset => {
                *self = RegexView::default();
                return Action::Remove;
            },
        }
        Action::Update
    }
}

} // verus!
