//! The panel for the change of case.

use vstd::prelude::*;

use crate::case::{Case, CaseOptions};
use crate::views::Action;

verus! {

/// The settings of the case panel.
#[derive(Clone, Debug)]
pub struct CaseView {
    pub selected: Option<Case>,
    pub snake: bool,
    pub exceptions: String,
}

/// A change made in the case panel.
#[derive(Clone, Debug)]
pub enum Message {
    ChangeSelected(Case),
    Reset,
    Toggle(bool),
    Update(String),
}

impl Default for CaseView {
    /// Keep the case, no snake case, no exceptions.
    fn default() -> (r: Self)
        ensures
            r.selected == Some(Case::Keep),
            !r.snake,
            r.exceptions@.len() == 0,
    {
        CaseView { selected: Some(Case::Keep), snake: false, exceptions: String::new() }
    }
}

/// The name of a case, for display.
pub open spec fn case_label(case: Case) -> Seq<char> {
    match case {
        Case::Keep => "Keep"@,
        Case::Lower => "Lower"@,
        Case::Upper => "Upper"@,
        Case::Title => "Title"@,
        Case::Sentence => "Sentence"@,
    }
}

impl CaseView {
    /// The name of `case`, for display.
    pub fn label(case: Case) -> (r: &'static str)
        ensures
            r@ == case_label(case),
    {
        match case {
            Case::Keep => "Keep",
            Case::Lower => "Lower",
            Case::Upper => "Upper",
            Case::Title => "Title",
            Case::Sentence => "Sentence",
        }
    }

    /// The case option the panel describes (no case chosen keeps the case).
    pub fn to_option_box(&self) -> (r: CaseOptions)
        ensures
            r.case == match self.selected {
                Some(c) => c,
                None => Case::Keep,
            },
            r.snake == self.snake,
            r.exceptions@ == self.exceptions@,
    {
        let case = match self.selected {
            Some(c) => c,
            None => Case::Keep,
        };
        CaseOptions { case, snake: self.snake, exceptions: self.exceptions.clone() }
    }

    /// Apply a change; a reset keeps the case, clears the exceptions (leaving
    /// snake case as it was) and asks to drop the option.
    pub fn update(&mut self, message: Message) -> (r: Action)
        ensures
            match message {
                Message::ChangeSelected(c) => final(self).selected == Some(c) && final(self).snake
                    == old(self).snake && final(self).exceptions@ == old(self).exceptions@ && r
                    == Action::Update,
                Message::Reset => final(self).selected == Some(Case::Keep) && final(self).snake
                    == old(self).snake && final(self).exceptions@.len() == 0 && r
                    == Action::Remove,
                Message::Toggle(b) => final(self).selected == old(self).selected
                    && final(self).snake == b && final(self).exceptions@
                    == old(self).exceptions@ && r == Action::Update,
                Message::Update(t) => final(self).selected == old(self).selected
                    && final(self).snake == old(self).snake && final(self).exceptions@ == t@
                    && r == Action::Update,
            },
    {
        match message {
            Message::ChangeSelected(c) => self.selected = Some(c),
            Message::Reset => {
                self.selected = Some(Case::Keep);
                self.exceptions = String::new();
                return Action::Remove;
            },
            Message::Toggle(b) => self.snake = b,
            Message::Update(t) => self.exceptions = t,
        }
        Action::Update
    }
}

} // verus!
