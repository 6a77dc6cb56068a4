//! The choices of the extension panel.

use vstd::prelude::*;

use crate::extension::ExtensionOptions;
use crate::renamer::RenameOption;
use crate::views::Action;

verus! {

/// A choice in the extension panel.
#[derive(Clone, Copy, Debug, PartialEq, Eq, Structural)]
pub enum Opt {
    Keep,
    Lower,
    Upper,
    Title,
    New,
    Extra,
    Remove,
}

impl Opt {
    /// The name of the choice, for display.
    pub fn label(&self) -> (r: &str)
        ensures
            r@ == match self {
                Opt::Keep => "Keep"@,
                Opt::Lower => "Lower"@,
                Opt::Upper => "Upper"@,
                Opt::Title => "Title"@,
                Opt::New => "New"@,
                Opt::Extra => "Extra"@,
                Opt::Remove => "Remove"@,
            },
    {
        match self {
            Opt::Keep => "Keep",
            Opt::Lower => "Lower",
            Opt::Upper => "Upper",
            Opt::Title => "Title",
            Opt::New => "New",
            Opt::Extra => "Extra",
            Opt::Remove => "Remove",
        }
    }

    /// The extension option for the choice `selected` (none chosen keeps the
    /// extension), with `text` for a new or extra extension.
    pub fn to_options(selected: Option<Opt>, text: &String) -> (r: RenameOption)
        ensures
            r matches RenameOption::Extension(o) && match selected {
                Some(Opt::Keep) | None => o == ExtensionOptions::Keep,
                Some(Opt::Lower) => o == ExtensionOptions::Lower,
                Some(Opt::Upper) => o == ExtensionOptions::Upper,
                Some(Opt::Title) => o == ExtensionOptions::Title,
                Some(Opt::New) => o matches ExtensionOptions::New(t) && t@ == text@,
                Some(Opt::Extra) => o matches ExtensionOptions::Extra(t) && t@ == text@,
                Some(Opt::Remove) => o == ExtensionOptions::Remove,
            },
    {
        let opt = match selected {
            Some(Opt::Keep) | None => ExtensionOptions::Keep,
            Some(Opt::Lower) => ExtensionOptions::Lower,
            Some(Opt::Upper) => ExtensionOptions::Upper,
            Some(Opt::Title) => ExtensionOptions::Title,
            Some(Opt::New) => ExtensionOptions::New(text.clone()),
            Some(Opt::Extra) => ExtensionOptions::Extra(text.clone()),
            Some(Opt::Remove) => ExtensionOptions::Remove,
        };
        RenameOption::Extension(opt)
    }
}

/// The settings of the extension panel: the choice and the text for a new or
/// extra extension.
#[derive(Clone, Debug)]
pub struct ExtensionView {
    pub selected: Option<Opt>,
    pub text: String,
}

/// A change made in the extension panel.
#[derive(Clone, Debug)]
pub enum Message {
    Reset,
    UpdateText(String),
    UpdateSelected(Opt),
}

impl Default for ExtensionView {
    /// Keep the extension, with no text typed.
    fn default() -> (r: Self)
        ensures
            r.selected == Some(Opt::Keep),
            r.text@.len() == 0,
    {
        ExtensionView { selected: Some(Opt::Keep), text: String::new() }
    }
}

impl ExtensionView {
    /// Whether the panel asks for text: for a new or an extra extension.
    pub fn wants_text(&self) -> (r: bool)
        ensures
            r == (self.selected == Some(Opt::New) || self.selected == Some(Opt::Extra)),
    {
        match self.selected {
            Some(Opt::New) | Some(Opt::Extra) => true,
            _ => false,
        }
    }

    /// The extension option the panel describes.
    pub fn to_option_box(&self) -> (r: RenameOption)
        ensures
            r matches RenameOption::Extension(o) && match self.selected {
                Some(Opt::Keep) | None => o == ExtensionOptions::Keep,
                Some(Opt::Lower) => o == ExtensionOptions::Lower,
                Some(Opt::Upper) => o == ExtensionOptions::Upper,
                Some(Opt::Title) => o == ExtensionOptions::Title,
                Some(Opt::New) => o matches ExtensionOptions::New(t) && t@ == self.text@,
                Some(Opt::Extra) => o matches ExtensionOptions::Extra(t) && t@ == self.text@,
                Some(Opt::Remove) => o == ExtensionOptions::Remove,
            },
    {
        Opt::to_options(self.selected, &self.text)
    }

    /// Apply a change; a reset keeps the extension, clears the text and asks to
    /// drop the option.
    pub fn update(&mut self, message: Message) -> (r: Action)
        ensures
            match message {
                Message::Reset => final(self).selected == Some(Opt::Keep)
                    && final(self).text@.len() == 0 && r == Action::Remove,
                Message::UpdateText(t) => final(self).selected == old(self).selected
                    && final(self).text@ == t@ && r == Action::Update,
                Message::UpdateSelected(o) => final(self).selected == Some(o) && final(self).text@
                    == old(self).text@ && r == Action::Update,
            },
    {
        match message {
            Message::Reset => {
                self.selected = Some(Opt::Keep);
                self.text = String::new();
                return Action::Remove;
            },
            Message::UpdateText(t) => self.text = t,
            Message::UpdateSelected(o) => self.selected = Some(o),
        }
        Action::Update
    }
}

} // verus!
