//! The panel for the date to add.

use vstd::prelude::*;

use crate::date::{DateFormat, DateMode, DateOptions, DatePrefix, DateType};
use crate::views::Action;

verus! {

/// A text field of the date panel: the custom format, the separator, or the
/// segment separator.
#[derive(Clone, Copy, Debug, PartialEq, Eq, Structural)]
pub enum Field {
    Cust,
    Sep,
    Seg,
}

/// The settings of the date panel.
#[derive(Clone, Debug)]
pub struct DateView {
    pub date_mode: Option<DateMode>,
    pub date_type: Option<DateType>,
    pub date_format: Option<DateFormat>,
    pub custom: String,
    pub full_year: bool,
    pub sep: String,
    pub seg: String,
}

/// A change made in the date panel.
#[derive(Clone, Debug)]
pub enum Message {
    ChangeMode(DateMode),
    ChangeType(DateType),
    ChangeFormat(DateFormat),
    Reset,
    Toggle(bool),
    Update(Field, String),
}

/// The format chosen by default: day, month, year.
pub open spec fn default_format() -> DateFormat {
    DateFormat::Std((DatePrefix::Dmy, None))
}

impl Default for DateView {
    /// No date, the creation date, the default format, nothing typed.
    fn default() -> (r: Self)
        ensures
            r.date_mode == Some(DateMode::Off),
            r.date_type == Some(DateType::Created),
            r.date_format == Some(default_format()),
            r.custom@.len() == 0,
            !r.full_year,
            r.sep@.len() == 0,
            r.seg@.len() == 0,
    {
        DateView {
            date_mode: Some(DateMode::Off),
            date_type: Some(DateType::Created),
            date_format: Some(DateFormat::Std((DatePrefix::Dmy, None))),
            custom: String::new(),
            full_year: false,
            sep: String::new(),
            seg: String::new(),
        }
    }
}

impl DateView {
    /// Whether the panel asks for a custom format.
    pub fn wants_custom(&self) -> (r: bool)
        ensures
            r == (self.date_format matches Some(DateFormat::Custom(_))),
    {
        match &self.date_format {
            Some(DateFormat::Custom(_)) => true,
            _ => false,
        }
    }

    /// The date option the panel describes; what is not chosen takes its
    /// default.
    pub fn to_options(&self) -> (r: DateOptions)
        ensures
            r.date_mode == match self.date_mode {
                Some(m) => m,
                None => DateMode::Off,
            },
            r.date_type == match self.date_type {
                Some(t) => t,
                None => DateType::Created,
            },
            r.fmt == match self.date_format {
                Some(f) => f,
                None => default_format(),
            },
            r.sep@ == self.sep@,
            r.seg@ == self.seg@,
            r.full_year == self.full_year,
    {
        let date_mode = match self.date_mode {
            Some(m) => m,
            None => DateMode::Off,
        };
        let date_type = match self.date_type {
            Some(t) => t,
            None => DateType::Created,
        };
        let fmt = match &self.date_format {
            Some(f) => f.clone(),
            None => DateFormat::Std((DatePrefix::Dmy, None)),
        };
        DateOptions {
            date_mode,
            date_type,
            fmt,
            sep: self.sep.clone(),
            seg: self.seg.clone(),
            full_year: self.full_year,
        }
    }

    /// Apply a change. A reset restores the mode, type and format and clears
    /// the separator (the segment separator, custom text and year setting
    /// stay), and asks to drop the option.
    pub fn update(&mut self, message: Message) -> (r: Action)
        ensures
            match message {
                Message::ChangeMode(m) => *final(self) == (DateView {
                    date_mode: Some(m),
                    ..*old(self)
                }) && r == Action::Update,
                Message::ChangeType(t) => *final(self) == (DateView {
                    date_type: Some(t),
                    ..*old(self)
                }) && r == Action::Update,
                Message::ChangeFormat(f) => *final(self) == (DateView {
                    date_format: Some(f),
                    ..*old(self)
                }) && r == Action::Update,
                Message::Toggle(b) => *final(self) == (DateView { full_year: b, ..*old(self) })
                    && r == Action::Update,
                Message::Update(Field::Cust, t) => *final(self) == (DateView {
                    custom: t,
                    ..*old(self)
                }) && r == Action::Update,
                Message::Update(Field::Sep, t) => *final(self) == (DateView {
                    sep: t,
                    ..*old(self)
                }) && r == Action::Update,
                Message::Update(Field::Seg, t) => *final(self) == (DateView {
                    seg: t,
                    ..*old(self)
                }) && r == Action::Update,
                Message::Reset => final(self).date_mode == Some(DateMode::Off)
                    && final(self).date_type == Some(DateType::Created) && final(self).date_format
                    == Some(default_format()) && final(self).sep@.len() == 0 && final(self).seg
                    == old(self).seg && final(self).custom == old(self).custom
                    && final(self).full_year == old(self).full_year && r == Action::Remove,
            },
    {
        match message {
            Message::Reset => {
                self.date_mode = Some(DateMode::Off);
                self.date_type = Some(DateType::Created);
                self.date_format = Some(DateFormat::Std((DatePrefix::Dmy, None)));
                self.sep = String::new();
                return Action::Remove;
            },
            Message::Toggle(b) => self.full_year = b,
            Message::ChangeMode(m) => self.date_mode = Some(m),
            Message::ChangeType(t) => self.date_type = Some(t),
            Message::ChangeFormat(f) => self.date_format = Some(f),
            Message::Update(Field::Cust, t) => self.custom = t,
            Message::Update(Field::Seg, t) => self.seg = t,
            Message::Update(Field::Sep, t) => self.sep = t,
        }
        Action::Update
    }
}

} // verus!
