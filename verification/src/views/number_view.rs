//! The numbering panel's settings.

use vstd::prelude::*;

use crate::number::{NumberFormat, NumberMode, NumberOptions};
use crate::renamer::RenameOption;
use crate::text::{chars_of, string_of};
use crate::views::Action;

verus! {

/// The settings of the numbering panel.
#[derive(Clone, Debug)]
pub struct Numbering {
    pub mode: Modes,
    pub format: Formats,
    pub pos: usize,
    pub start: u32,
    pub step: u32,
    pub pad: usize,
    pub char: String,
    pub sep: String,
    pub upper: bool,
}

/// The numbering modes offered (`Off` numbers as a prefix once chosen).
#[derive(Clone, Copy, Debug, PartialEq, Eq, Structural)]
pub enum Modes {
    Off,
    Prefix,
    Suffix,
    Insert,
}

/// The number formats offered; hexadecimal and letters come in upper or lower
/// case.
#[derive(Clone, Copy, Debug, PartialEq, Eq, Structural)]
pub enum Formats {
    Decimal,
    Binary,
    Octal,
    Hex,
    Ascii,
}

impl Default for Modes {
    fn default() -> (r: Self)
        ensures
            r == Modes::Off,
    {
        Modes::Off
    }
}

impl Default for Formats {
    fn default() -> (r: Self)
        ensures
            r == Formats::Decimal,
    {
        Formats::Decimal
    }
}

impl Modes {
    /// The name of the mode, for display.
    pub fn label(&self) -> (r: &str)
        ensures
            r@ == match self {
                Modes::Off => "None"@,
                Modes::Prefix => "Prefix"@,
                Modes::Suffix => "Suffix"@,
                Modes::Insert => "Insert"@,
            },
    {
        match self {
            Modes::Off => "None",
            Modes::Prefix => "Prefix",
            Modes::Suffix => "Suffix",
            Modes::Insert => "Insert",
        }
    }
}

impl Formats {
    /// The name of the format, for display.
    pub fn label(&self) -> (r: &str)
        ensures
            r@ == match self {
                Formats::Decimal => "Decimal"@,
                Formats::Binary => "Binary"@,
                Formats::Octal => "Octal"@,
                Formats::Hex => "Hex"@,
                Formats::Ascii => "A-Z"@,
            },
    {
        match self {
            Formats::Decimal => "Decimal",
            Formats::Binary => "Binary",
            Formats::Octal => "Octal",
            Formats::Hex => "Hex",
            Formats::Ascii => "A-Z",
        }
    }
}

/// The padding character used when none is given: '0' for the numeric bases,
/// 'a' or 'A' for letters.
pub open spec fn default_pad(format: Formats, upper: bool) -> char {
    match format {
        Formats::Ascii => if upper {
            'A'
        } else {
            'a'
        },
        _ => '0',
    }
}

impl Numbering {
    /// The number option for the file at `index` in the selection: the value
    /// is `start + step * index`, the index taken as a `u32` (its low 32 bits),
    /// the padding character the first one given, or by default '0' for the
    /// numeric bases and 'a' or 'A' for letters.
    pub fn to_options(&self, index: usize) -> (r: RenameOption)
        requires
            self.start + self.step * (index as u32) <= u32::MAX,
        ensures
            r matches RenameOption::Number(o) && o.value == self.start + self.step * (index as u32) && o.pad
                == self.pad && o.sep@ == self.sep@ && o.char == (if self.char@.len() > 0 {
                self.char@[0]
            } else {
                default_pad(self.format, self.upper)
            }) && o.mode == match self.mode {
                Modes::Prefix | Modes::Off => NumberMode::Prefix,
                Modes::Suffix => NumberMode::Suffix,
                Modes::Insert => NumberMode::Insert(self.pos),
            } && o.format == match self.format {
                Formats::Decimal => NumberFormat::Decimal,
                Formats::Binary => NumberFormat::Binary,
                Formats::Octal => NumberFormat::Octal,
                Formats::Hex => if self.upper {
                    NumberFormat::HexUpper
                } else {
                    NumberFormat::HexLower
                },
                Formats::Ascii => if self.upper {
                    NumberFormat::AsciiUpper
                } else {
                    NumberFormat::AsciiLower
                },
            },
    {
        let i: u32 = #[verifier::truncate] (index as u32);
        assert(self.step * i <= u32::MAX) by (nonlinear_arith)
            requires
                self.start + self.step * i <= u32::MAX,
        ;
        let chars = chars_of(self.char.as_str());
        let pad_char = if chars.len() > 0 {
            chars[0]
        } else {
            match self.format {
                Formats::Ascii => if self.upper {
                    'A'
                } else {
                    'a'
                },
                _ => '0',
            }
        };
        RenameOption::Number(
            NumberOptions {
                mode: match self.mode {
                    Modes::Prefix | Modes::Off => NumberMode::Prefix,
                    Modes::Suffix => NumberMode::Suffix,
                    Modes::Insert => NumberMode::Insert(self.pos),
                },
                value: self.start + self.step * i,
                pad: self.pad,
                char: pad_char,
                sep: self.sep.clone(),
                format: match self.format {
                    Formats::Decimal => NumberFormat::Decimal,
                    Formats::Binary => NumberFormat::Binary,
                    Formats::Octal => NumberFormat::Octal,
                    Formats::Hex => if self.upper {
                        NumberFormat::HexUpper
                    } else {
                        NumberFormat::HexLower
                    },
                    Formats::Ascii => if self.upper {
                        NumberFormat::AsciiUpper
                    } else {
                        NumberFormat::AsciiLower
                    },
                },
            },
        )
    }
}

/// The settings of the numbering panel: the mode and format chosen, and the
/// other settings.
#[derive(Clone, Debug)]
pub struct NumberView {
    pub mode: Option<Modes>,
    pub format: Option<Formats>,
    pub numbering: Numbering,
}

/// A change made in the numbering panel.
#[derive(Clone, Debug)]
pub enum Message {
    Char(String),
    Format(Formats),
    Mode(Modes),
    Pad(usize),
    Pos(usize),
    Reset,
    Sep(String),
    Start(u32),
    Step(u32),
    Upper(bool),
}

/// Whether `n` holds the numbering panel's starting settings: counting from 1
/// in steps of 1, in decimal, as a prefix, with nothing else set.
pub open spec fn is_initial(n: Numbering) -> bool {
    &&& n.mode == Modes::Off
    &&& n.format == Formats::Decimal
    &&& n.pos == 0
    &&& n.start == 1
    &&& n.step == 1
    &&& n.pad == 0
    &&& n.char@.len() == 0
    &&& n.sep@.len() == 0
    &&& !n.upper
}

/// The padding character kept from what was typed: nothing, the one
/// character, or the last of several.
pub open spec fn kept_char(s: Seq<char>) -> Seq<char> {
    if s.len() <= 1 {
        s
    } else {
        seq![s.last()]
    }
}

/// The mode after a change other than a reset or a choice of mode: editing a
/// setting while numbering is off switches to numbering as a prefix.
pub open spec fn edited_mode(mode: Option<Modes>) -> Option<Modes> {
    if mode == Some(Modes::Off) {
        Some(Modes::Prefix)
    } else {
        mode
    }
}

/// The starting settings.
fn initial_numbering() -> (r: Numbering)
    ensures
        is_initial(r),
{
    Numbering {
        mode: Modes::Off,
        format: Formats::Decimal,
        pos: 0,
        start: 1,
        step: 1,
        pad: 0,
        char: String::new(),
        sep: String::new(),
        upper: false,
    }
}

impl Default for NumberView {
    /// Numbering off, in decimal, with the starting settings.
    fn default() -> (r: Self)
        ensures
            r.mode == Some(Modes::Off),
            r.format == Some(Formats::Decimal),
            is_initial(r.numbering),
    {
        NumberView {
            mode: Some(Modes::Off),
            format: Some(Formats::Decimal),
            numbering: initial_numbering(),
        }
    }
}

/// The padding character kept from the text `s`.
fn keep_char(s: String) -> (r: String)
    ensures
        r@ == kept_char(s@),
{
    let chars = chars_of(s.as_str());
    if chars.len() <= 1 {
        s
    } else {
        let last = chars[chars.len() - 1];
        let v: Vec<char> = vec![last];
        assert(v@ =~= seq![s@.last()]);
        string_of(&v)
    }
}

impl NumberView {
    /// The settings with the mode and format chosen in the panel (none chosen
    /// takes the default).
    pub fn to_option_box(&self) -> (r: Numbering)
        ensures
            r.mode == match self.mode {
                Some(m) => m,
                None => Modes::Off,
            },
            r.format == match self.format {
                Some(f) => f,
                None => Formats::Decimal,
            },
            r.pos == self.numbering.pos,
            r.start == self.numbering.start,
            r.step == self.numbering.step,
            r.pad == self.numbering.pad,
            r.char@ == self.numbering.char@,
            r.sep@ == self.numbering.sep@,
            r.upper == self.numbering.upper,
    {
        let mode = match self.mode {
            Some(m) => m,
            None => Modes::Off,
        };
        let format = match self.format {
            Some(f) => f,
            None => Formats::Decimal,
        };
        Numbering {
            mode,
            format,
            pos: self.numbering.pos,
            start: self.numbering.start,
            step: self.numbering.step,
            pad: self.numbering.pad,
            char: self.numbering.char.clone(),
            sep: self.numbering.sep.clone(),
            upper: self.numbering.upper,
        }
    }

    /// Apply a change. Editing a setting while numbering is off turns it on as
    /// a prefix; a typed padding character keeps only its last character; a
    /// reset restores the starting settings and asks to drop the option.
    pub fn update(&mut self, message: Message) -> (r: Action)
        ensures
            match message {
                Message::Reset => final(self).mode == Some(Modes::Off) && final(self).format == Some(
                    Formats::Decimal,
                ) && is_initial(final(self).numbering) && r == Action::Remove,
                Message::Mode(m) => *final(self) == (NumberView { mode: Some(m), ..*old(self) })
                    && r == Action::Update,
                Message::Format(f) => *final(self) == (NumberView {
                    mode: edited_mode(old(self).mode),
                    format: Some(f),
                    ..*old(self)
                }) && r == Action::Update,
                Message::Char(s) => final(self).mode == edited_mode(old(self).mode)
                    && final(self).format == old(self).format && final(self).numbering.char@
                    == kept_char(s@) && final(self).numbering == (Numbering {
                    char: final(self).numbering.char,
                    ..old(self).numbering
                }) && r == Action::Update,
                Message::Pad(n) => *final(self) == (NumberView {
                    mode: edited_mode(old(self).mode),
                    numbering: Numbering { pad: n, ..old(self).numbering },
                    ..*old(self)
                }) && r == Action::Update,
                Message::Pos(n) => *final(self) == (NumberView {
                    mode: edited_mode(old(self).mode),
                    numbering: Numbering { pos: n, ..old(self).numbering },
                    ..*old(self)
                }) && r == Action::Update,
                Message::Sep(t) => *final(self) == (NumberView {
                    mode: edited_mode(old(self).mode),
                    numbering: Numbering { sep: t, ..old(self).numbering },
                    ..*old(self)
                }) && r == Action::Update,
                Message::Start(n) => *final(self) == (NumberView {
                    mode: edited_mode(old(self).mode),
                    numbering: Numbering { start: n, ..old(self).numbering },
                    ..*old(self)
                }) && r == Action::Update,
                Message::Step(n) => *final(self) == (NumberView {
                    mode: edited_mode(old(self).mode),
                    numbering: Numbering { step: n, ..old(self).numbering },
                    ..*old(self)
                }) && r == Action::Update,
                Message::Upper(b) => *final(self) == (NumberView {
                    mode: edited_mode(old(self).mode),
                    numbering: Numbering { upper: b, ..old(self).numbering },
                    ..*old(self)
                }) && r == Action::Update,
            },
    {
        match message {
            Message::Reset => {},
            Message::Mode(_) => {},
            _ => {
                if let Some(Modes::Off) = self.mode {
                    self.mode = Some(Modes::Prefix);
                }
            },
        }
        match message {
            Message::Reset => {
                self.mode = Some(Modes::Off);
                self.format = Some(Formats::Decimal);
                self.numbering = initial_numbering();
                return Action::Remove;
            },
            Message::Char(s) => self.numbering.char = keep_char(s),
            Message::Format(f) => self.format = Some(f),
            Message::Mode(m) => self.mode = Some(m),
            Message::Pad(n) => self.numbering.pad = n,
            Message::Pos(n) => self.numbering.pos = n,
            Message::Sep(t) => self.numbering.sep = t,
            Message::Start(n) => self.numbering.start = n,
            Message::Step(n) => self.numbering.step = n,
            Message::Upper(b) => self.numbering.upper = b,
        }
        Action::Update
    }
}

} // verus!
