//! The panel for removals.

use vstd::prelude::*;

use crate::remove::RemoveOptions;
use crate::renamer::RenameOption;
use crate::views::Action;

verus! {

/// The settings of the removal panel.
#[derive(Clone, Debug)]
pub struct RemoveView {
    pub first: usize,
    pub last: usize,
    pub start: usize,
    pub end: usize,
    pub chars: String,
    pub words: String,
    pub location: Option<bool>,
    pub crop: String,
    pub digits: bool,
    pub ascii_high: bool,
    pub trim: bool,
    pub double_space: bool,
    pub english: bool,
    pub symbols: bool,
    pub lead_dots: bool,
}

/// A change made in the panel.
#[derive(Clone, Debug)]
pub enum Message {
    Reset,
    Str(StrField, String),
    Num(NumField, usize),
    Bool(BoolField, bool),
}

/// A text field of the panel.
#[derive(Clone, Copy, Debug, PartialEq, Eq, Structural)]
pub enum StrField {
    Char,
    Crop,
    Word,
}

/// A number field of the panel.
#[derive(Clone, Copy, Debug, PartialEq, Eq, Structural)]
pub enum NumField {
    First,
    Last,
    Start,
    End,
}

/// A switch of the panel.
#[derive(Clone, Copy, Debug, PartialEq, Eq, Structural)]
pub enum BoolField {
    Location,
    Digits,
    Ascii,
    Trim,
    ExtraSpaces,
    Letters,
    Symbols,
    Dots,
}

/// The settings of an empty removal panel (cropping keeps what follows the text).
pub open spec fn cleared_remove_view(v: RemoveView) -> bool {
    &&& v.first == 0 && v.last == 0 && v.start == 0 && v.end == 0
    &&& v.chars@.len() == 0 && v.words@.len() == 0 && v.crop@.len() == 0
    &&& v.location == Some(true)
    &&& !v.digits && !v.ascii_high && !v.trim && !v.double_space
    &&& !v.english && !v.symbols && !v.lead_dots
}

impl Default for RemoveView {
    fn default() -> (r: Self)
        ensures
            cleared_remove_view(r),
    {
        RemoveView {
            first: 0,
            last: 0,
            start: 0,
            end: 0,
            chars: String::new(),
            words: String::new(),
            location: Some(true),
            crop: String::new(),
            digits: false,
            ascii_high: false,
            trim: false,
            double_space: false,
            english: false,
            symbols: false,
            lead_dots: false,
        }
    }
}

impl RemoveView {
    /// The removal the panel describes; with no crop side chosen the crop keeps
    /// what follows the text.
    pub fn to_options(&self, _index: usize) -> (r: RenameOption)
        ensures
            r matches RenameOption::Remove(o) && o.first_n == self.first && o.last_n == self.last
                && o.range == (self.start, self.end) && o.characters@ == self.chars@ && o.words@
                == self.words@ && o.crop.0 == (match self.location {
                Some(b) => b,
                None => true,
            }) && o.crop.1@ == self.crop@ && o.digits == self.digits && o.ascii_high
                == self.ascii_high && o.trim == self.trim && o.double_space == self.double_space
                && o.english_letters == self.english && o.symbols == self.symbols && o.lead_dots
                == self.lead_dots,
    {
        let before = match self.location {
            Some(b) => b,
            None => true,
        };
        RenameOption::Remove(
            RemoveOptions {
                first_n: self.first,
                last_n: self.last,
                range: (self.start, self.end),
                characters: self.chars.clone(),
                words: self.words.clone(),
                crop: (before, self.crop.clone()),
                digits: self.digits,
                ascii_high: self.ascii_high,
                trim: self.trim,
                double_space: self.double_space,
                english_letters: self.english,
                symbols: self.symbols,
                lead_dots: self.lead_dots,
            },
        )
    }

    /// Apply a change; a reset clears the panel and asks to drop the option.
    pub fn update(&mut self, message: Message) -> (r: Action)
        ensures
            match message {
                Message::Reset => cleared_remove_view(*final(self)) && r == Action::Remove,
                Message::Str(field, value) => *final(self) == old(self).with_string(field, value)
                    && r == Action::Update,
                Message::Num(field, value) => *final(self) == old(self).with_number(field, value)
                    && r == Action::Update,
                Message::Bool(field, value) => *final(self) == old(self).with_bool(field, value)
                    && r == Action::Update,
            },
    {
        match message {
            Message::Reset => {
                *self = RemoveView::default();
                return Action::Remove;
            },
            Message::Str(field, value) => self.update_string(field, value),
            Message::Num(field, value) => self.update_number(field, value),
            Message::Bool(field, value) => self.update_bool(field, value),
        }
        Action::Update
    }

    /// The settings after setting a text field.
    pub open spec fn with_string(self, field: StrField, value: String) -> RemoveView {
        match field {
            StrField::Char => RemoveView { chars: value, ..self },
            StrField::Crop => RemoveView { crop: value, ..self },
            StrField::Word => RemoveView { words: value, ..self },
        }
    }

    /// The settings after setting a number field: moving the range's start past
    /// its end moves the end along, and moving its end before its start moves
    /// the start along.
    pub open spec fn with_number(self, field: NumField, value: usize) -> RemoveView {
        match field {
            NumField::First => RemoveView { first: value, ..self },
            NumField::Last => RemoveView { last: value, ..self },
            NumField::Start => RemoveView {
                start: value,
                end: if value > self.end {
                    value
                } else {
                    self.end
                },
                ..self
            },
            NumField::End => RemoveView {
                end: value,
                start: if value < self.start {
                    value
                } else {
                    self.start
                },
                ..self
            },
        }
    }

    /// The settings after setting a switch.
    pub open spec fn with_bool(self, field: BoolField, value: bool) -> RemoveView {
        match field {
            BoolField::Location => RemoveView { location: Some(value), ..self },
            BoolField::Digits => RemoveView { digits: value, ..self },
            BoolField::Ascii => RemoveView { ascii_high: value, ..self },
            BoolField::Trim => RemoveView { trim: value, ..self },
            BoolField::ExtraSpaces => RemoveView { double_space: value, ..self },
            BoolField::Letters => RemoveView { english: value, ..self },
            BoolField::Symbols => RemoveView { symbols: value, ..self },
            BoolField::Dots => RemoveView { lead_dots: value, ..self },
        }
    }

    /// Set a text field.
    fn update_string(&mut self, field: StrField, value: String)
        ensures
            *final(self) == old(self).with_string(field, value),
    {
        match field {
            StrField::Char => self.chars = value,
            StrField::Crop => self.crop = value,
            StrField::Word => self.words = value,
        }
    }

    /// Set a number field, keeping the range's start no later than its end.
    fn update_number(&mut self, field: NumField, value: usize)
        ensures
            *final(self) == old(self).with_number(field, value),
    {
        match field {
            NumField::First => self.first = value,
            NumField::Last => self.last = value,
            NumField::Start => {
                self.start = value;
                if self.start > self.end {
                    self.end = self.start;
                }
            },
            NumField::End => {
                self.end = value;
                if self.end < self.start {
                    self.start = self.end;
                }
            },
        }
    }

    /// Set a switch.
    fn update_bool(&mut self, field: BoolField, value: bool)
        ensures
            *final(self) == old(self).with_bool(field, value),
    {
        match field {
            BoolField::Location => self.location = Some(value),
            BoolField::Digits => self.digits = value,
            BoolField::Ascii => self.ascii_high = value,
            BoolField::Trim => self.trim = value,
            BoolField::ExtraSpaces => self.double_space = value,
            BoolField::Letters => self.english = value,
            BoolField::Symbols => self.symbols = value,
            BoolField::Dots => self.lead_dots = value,
        }
    }
}

/// Setting the range's start or end always leaves a range whose start is no
/// later than its end.
pub proof fn lemma_range_ordered(v: RemoveView, field: NumField, value: usize)
    requires
        field == NumField::Start || field == NumField::End,
    ensures
        v.with_number(field, value).start <= v.with_number(field, value).end,
{
}

/// A panel whose range starts no later than it ends keeps it so whatever
/// number is changed by `update` with `Message::Num` (which sets the panel to
/// `with_number`, through `update_number`): the first or last count takes the value; a new start
/// pushes the end up to it where needed, a new end pulls the start down to it;
/// nothing else changes.
pub proof fn lemma_range_kept(v: RemoveView, field: NumField, value: usize)
    requires
        v.start <= v.end,
    ensures
        ({
            let w = v.with_number(field, value);
            &&& w.start <= w.end
            &&& match field {
                NumField::First => w == RemoveView { first: value, ..v },
                NumField::Last => w == RemoveView { last: value, ..v },
                NumField::Start => w == RemoveView {
                    start: value,
                    end: if v.end < value {
                        value
                    } else {
                        v.end
                    },
                    ..v
                },
                NumField::End => w == RemoveView {
                    end: value,
                    start: if value < v.start {
                        value
                    } else {
                        v.start
                    },
                    ..v
                },
            }
        }),
{
}

} // verus!
