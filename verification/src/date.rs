//! Adding a date to a name, formatted with `strftime` specifiers.

use chrono::{TimeZone, Timelike};
use vstd::prelude::*;

use crate::renamer::opt_view;

verus! {

/// Use the prefix or suffix `date_mode` to add a date to the file name.
/// The date the file was created, modified, or the current date (`date_type`)
/// is added in the format `fmt`. `sep` goes between the name and the date and
/// `seg` between the date's segments. `full_year` writes four-digit years
/// instead of two (except for custom formats).
///
/// Custom formats use the `strftime` specifiers of chrono.
#[derive(Clone, Debug, PartialEq, Eq)]
pub struct DateOptions {
    pub date_mode: DateMode,
    pub date_type: DateType,
    pub fmt: DateFormat,
    pub sep: String,
    pub seg: String,
    pub full_year: bool,
}

/// Select from
/// `DateMode::Prefix`,
/// `DateMode::Suffix`,
/// `DateMode::Off` (no date).
#[derive(Clone, Copy, Debug, PartialEq, Eq)]
pub enum DateMode {
    Prefix,
    Suffix,
    Off,
}

/// Select from
/// - `DateType::Created` for the file creation date
/// - `DateType::Modified` for the date last modified
/// - `DateType::Current` for today's date
///
/// If the platform does not report the chosen date, the name is not changed.
#[derive(Clone, Copy, Debug, PartialEq, Eq)]
pub enum DateType {
    Created,
    Modified,
    Current,
}

/// Select from
/// - `DateFormat::Std((DatePrefix, Option<DateSuffix>))` to use the standard options
/// - `DateFormat::Custom` to use a custom `strftime` format
#[derive(Debug, PartialEq, Eq)]
pub enum DateFormat {
    Std((DatePrefix, Option<DateSuffix>)),
    Custom(String),
}

impl Clone for DateFormat {
    fn clone(&self) -> (r: Self)
        ensures
            r == *self,
    {
        match self {
            DateFormat::Std(pair) => DateFormat::Std((pair.0, pair.1)),
            DateFormat::Custom(fmt) => DateFormat::Custom(fmt.clone()),
        }
    }
}

/// Select from
/// - `DatePrefix::Dmy` for Day Month Year
/// - `DatePrefix::Mdy` for Month Day Year
/// - `DatePrefix::Ymd` for Year Month Day
#[derive(Clone, Copy, Debug, PartialEq, Eq)]
pub enum DatePrefix {
    Dmy,
    Mdy,
    Ymd,
}

/// Select from
/// - `DateSuffix::Hm` for Hour Minute
/// - `DateSuffix::Hms` for Hour Minute Second
#[derive(Clone, Copy, Debug, PartialEq, Eq)]
pub enum DateSuffix {
    Hm,
    Hms,
}

/// A point in time as calendar fields at a fixed offset from UTC.
#[derive(Clone, Copy, Debug, PartialEq, Eq)]
pub struct DateStamp {
    pub year: i32,
    pub month: u32,
    pub day: u32,
    pub hour: u32,
    pub minute: u32,
    pub second: u32,
    pub nanosecond: u32,
    pub offset_seconds: i32,
}

impl Default for DateMode {
    fn default() -> (r: Self)
        ensures
            r == DateMode::Off,
    {
        DateMode::Off
    }
}

impl Default for DateType {
    fn default() -> (r: Self)
        ensures
            r == DateType::Created,
    {
        DateType::Created
    }
}

impl Default for DatePrefix {
    fn default() -> (r: Self)
        ensures
            r == DatePrefix::Dmy,
    {
        DatePrefix::Dmy
    }
}

impl Default for DateFormat {
    fn default() -> (r: Self)
        ensures
            r == DateFormat::Std((DatePrefix::Dmy, None)),
    {
        DateFormat::Std((DatePrefix::Dmy, None))
    }
}

impl Default for DateOptions {
    fn default() -> (r: Self)
        ensures
            r.date_mode == DateMode::Off,
            r.date_type == DateType::Created,
            r.fmt == DateFormat::Std((DatePrefix::Dmy, None)),
            r.sep@.len() == 0,
            r.seg@.len() == 0,
            !r.full_year,
    {
        DateOptions {
            date_mode: DateMode::Off,
            date_type: DateType::Created,
            fmt: DateFormat::Std((DatePrefix::Dmy, None)),
            sep: String::new(),
            seg: String::new(),
            full_year: false,
        }
    }
}

impl DateMode {
    /// The name of the mode, for display.
    pub fn label(&self) -> (r: &str)
        ensures
            r@ == match self {
                DateMode::Prefix => "Prefix"@,
                DateMode::Suffix => "Suffix"@,
                DateMode::Off => "None"@,
            },
    {
        match self {
            DateMode::Prefix => "Prefix",
            DateMode::Suffix => "Suffix",
            DateMode::Off => "None",
        }
    }
}

impl DateType {
    /// The name of the date type, for display.
    pub fn label(&self) -> (r: &str)
        ensures
            r@ == match self {
                DateType::Created => "Created"@,
                DateType::Modified => "Modified"@,
                DateType::Current => "Current"@,
            },
    {
        match self {
            DateType::Created => "Created",
            DateType::Modified => "Modified",
            DateType::Current => "Current",
        }
    }
}

/// The text that chrono writes for `date` with the `strftime` format `fmt`, or
/// `None` where the fields name no date-time or the format cannot be written.
pub uninterp spec fn strftime_text(date: DateStamp, fmt: Seq<char>) -> Option<Seq<char>>;

/// Builds a chrono date-time from the fields of `date` at its fixed offset
/// (`FixedOffset::east_opt`, `with_ymd_and_hms`, `with_nanosecond`) and writes it
/// with `DelayedFormat::write_to` for the format `fmt`. Where a step fails the
/// result is `None`. The result is named `strftime_text`; nothing more is stated.
#[verifier::external_body]
fn strftime(date: &DateStamp, fmt: &str) -> (r: Option<String>)
    ensures
        opt_view(r) == strftime_text(*date, fmt@),
{
    let offset = chrono::FixedOffset::east_opt(date.offset_seconds)?;
    let dt = offset.with_ymd_and_hms(date.year, date.month, date.day, date.hour, date.minute,
        date.second).single()?.with_nanosecond(date.nanosecond)?;
    let mut out = String::new();
    dt.format(fmt).write_to(&mut out).ok()?;
    Some(out)
}

/// The year specifier: four digits or two.
pub open spec fn year_spec(full_year: bool) -> Seq<char> {
    if full_year {
        "%Y"@
    } else {
        "%y"@
    }
}

/// The format of the date part, with `sep` between its segments.
pub open spec fn prefix_format(p: DatePrefix, sep: Seq<char>, full_year: bool) -> Seq<char> {
    let y = year_spec(full_year);
    match p {
        DatePrefix::Dmy => "%d"@ + sep + "%m"@ + sep + y,
        DatePrefix::Mdy => "%m"@ + sep + "%d"@ + sep + y,
        DatePrefix::Ymd => y + sep + "%m"@ + sep + "%d"@,
    }
}

/// The format of the time part, with `sep` between its segments.
pub open spec fn suffix_format(s: DateSuffix, sep: Seq<char>) -> Seq<char> {
    match s {
        DateSuffix::Hm => "%H"@ + sep + "%M"@,
        DateSuffix::Hms => "%H"@ + sep + "%M"@ + sep + "%S"@,
    }
}

/// The date part names the day, the month and the year once each, as three
/// two-character `strftime` fields with `sep` between them, in the order its
/// name gives: day-month-year, month-day-year or year-month-day. Whatever the
/// order, the year field is `%Y` (four digits) with `full_year` and `%y` (two
/// digits) without; nothing else depends on `full_year`.
pub proof fn lemma_date_fields(p: DatePrefix, sep: Seq<char>, full_year: bool)
    ensures
        ({
            let f = prefix_format(p, sep, full_year);
            let n = sep.len() as int;
            let first = f.take(2);
            let second = f.subrange(2 + n, 4 + n);
            let third = f.subrange(4 + 2 * n, 6 + 2 * n);
            let year = if full_year {
                "%Y"@
            } else {
                "%y"@
            };
            &&& f.len() == 6 + 2 * n
            &&& f.subrange(2, 2 + n) == sep
            &&& f.subrange(4 + n, 4 + 2 * n) == sep
            &&& match p {
                DatePrefix::Dmy => first == "%d"@ && second == "%m"@ && third == year,
                DatePrefix::Mdy => first == "%m"@ && second == "%d"@ && third == year,
                DatePrefix::Ymd => first == year && second == "%m"@ && third == "%d"@,
            }
        }),
{
    reveal_strlit("%d");
    reveal_strlit("%m");
    reveal_strlit("%Y");
    reveal_strlit("%y");
    let f = prefix_format(p, sep, full_year);
    let n = sep.len() as int;
    let year = if full_year {
        "%Y"@
    } else {
        "%y"@
    };
    assert(year.len() == 2);
    match p {
        DatePrefix::Dmy => {
            assert(f.take(2) =~= "%d"@);
            assert(f.subrange(2 + n, 4 + n) =~= "%m"@);
            assert(f.subrange(4 + 2 * n, 6 + 2 * n) =~= year);
        },
        DatePrefix::Mdy => {
            assert(f.take(2) =~= "%m"@);
            assert(f.subrange(2 + n, 4 + n) =~= "%d"@);
            assert(f.subrange(4 + 2 * n, 6 + 2 * n) =~= year);
        },
        DatePrefix::Ymd => {
            assert(f.take(2) =~= year);
            assert(f.subrange(2 + n, 4 + n) =~= "%m"@);
            assert(f.subrange(4 + 2 * n, 6 + 2 * n) =~= "%d"@);
        },
    }
    assert(f.subrange(2, 2 + n) =~= sep);
    assert(f.subrange(4 + n, 4 + 2 * n) =~= sep);
}

/// Changing the year setting changes only the year field, from `%y` to `%Y`:
/// the two date parts have the same length and differ only where one has 'y'
/// and the other 'Y'.
pub proof fn lemma_date_year_only(p: DatePrefix, sep: Seq<char>)
    ensures
        ({
            let long = prefix_format(p, sep, true);
            let short = prefix_format(p, sep, false);
            &&& long.len() == short.len()
            &&& forall|i: int|
                0 <= i < long.len() ==> long[i] == short[i] || (long[i] == 'Y' && short[i] == 'y')
        }),
{
    reveal_strlit("%Y");
    reveal_strlit("%y");
    reveal_strlit("%d");
    reveal_strlit("%m");
    lemma_date_fields(p, sep, true);
    lemma_date_fields(p, sep, false);
    let long = prefix_format(p, sep, true);
    let short = prefix_format(p, sep, false);
    let n = sep.len() as int;
    assert forall|i: int| 0 <= i < long.len() implies long[i] == short[i] || (long[i] == 'Y'
        && short[i] == 'y') by {
        if i < 2 {
            assert(long[i] == long.take(2)[i] && short[i] == short.take(2)[i]);
        } else if i < 2 + n {
            assert(long[i] == long.subrange(2, 2 + n)[i - 2] && short[i] == short.subrange(2, 2 + n)[i - 2]);
        } else if i < 4 + n {
            assert(long[i] == long.subrange(2 + n, 4 + n)[i - 2 - n] && short[i] == short.subrange(2 + n, 4 + n)[i - 2 - n]);
        } else if i < 4 + 2 * n {
            assert(long[i] == long.subrange(4 + n, 4 + 2 * n)[i - 4 - n] && short[i] == short.subrange(4 + n, 4 + 2 * n)[i - 4 - n]);
        } else {
            assert(long[i] == long.subrange(4 + 2 * n, 6 + 2 * n)[i - 4 - 2 * n] && short[i] == short.subrange(4 + 2 * n, 6 + 2 * n)[i - 4 - 2 * n]);
        }
    }
}

/// The time part names the hour and the minute, and for `Hms` the second, as
/// two-character `strftime` fields (`%H`, `%M`, `%S`) in that order with `sep`
/// between them.
pub proof fn lemma_time_fields(x: DateSuffix, sep: Seq<char>)
    ensures
        ({
            let f = suffix_format(x, sep);
            let n = sep.len() as int;
            &&& f.take(2) == "%H"@
            &&& f.subrange(2, 2 + n) == sep
            &&& f.subrange(2 + n, 4 + n) == "%M"@
            &&& match x {
                DateSuffix::Hm => f.len() == 4 + n,
                DateSuffix::Hms => f.len() == 6 + 2 * n && f.subrange(4 + n, 4 + 2 * n) == sep
                    && f.subrange(4 + 2 * n, 6 + 2 * n) == "%S"@,
            }
        }),
{
    reveal_strlit("%H");
    reveal_strlit("%M");
    reveal_strlit("%S");
    let f = suffix_format(x, sep);
    let n = sep.len() as int;
    assert(f.take(2) =~= "%H"@);
    assert(f.subrange(2, 2 + n) =~= sep);
    assert(f.subrange(2 + n, 4 + n) =~= "%M"@);
    if x == DateSuffix::Hms {
        assert(f.subrange(4 + n, 4 + 2 * n) =~= sep);
        assert(f.subrange(4 + 2 * n, 6 + 2 * n) =~= "%S"@);
    }
}

/// A standard format is the date part alone, or the date part, the segment
/// separator and the time part; both use the segment separator between their
/// fields. A custom format is used as it was given.
pub proof fn lemma_format_text(opts: DateOptions)
    ensures
        match opts.fmt {
            DateFormat::Std((p, None)) => opts.format_text() == prefix_format(p, opts.seg@, opts.full_year),
            DateFormat::Std((p, Some(x))) => opts.format_text() == prefix_format(
                p,
                opts.seg@,
                opts.full_year,
            ) + opts.seg@ + suffix_format(x, opts.seg@),
            DateFormat::Custom(f) => opts.format_text() == f@,
        },
{
    match opts.fmt {
        DateFormat::Std((p, None)) => {
            assert(prefix_format(p, opts.seg@, opts.full_year) + Seq::<char>::empty() =~= prefix_format(p, opts.seg@, opts.full_year));
        },
        DateFormat::Std((p, Some(x))) => {
            assert(prefix_format(p, opts.seg@, opts.full_year) + (opts.seg@ + suffix_format(x, opts.seg@)) =~= prefix_format(p, opts.seg@, opts.full_year) + opts.seg@ + suffix_format(x, opts.seg@));
        },
        _ => {},
    }
}

/// Where a date is added, the written date and the separator stand before the
/// stem in prefix mode and after it (separator first) in suffix mode; the same
/// date text is written in either mode.
pub proof fn lemma_date_placement(opts: DateOptions, stem: Seq<char>, d: DateStamp)
    requires
        strftime_text(d, opts.format_text()) is Some,
    ensures
        ({
            let text = strftime_text(d, opts.format_text()).unwrap();
            let t = opts.dated_stem(stem, Some(d)).unwrap();
            &&& opts.dated_stem(stem, Some(d)) is Some
            &&& opts.date_mode == DateMode::Prefix ==> t.take(t.len() - stem.len()) == text + opts.sep@
                && t.skip(t.len() - stem.len()) == stem
            &&& opts.date_mode == DateMode::Suffix ==> t.take(stem.len() as int) == stem && t.skip(
                stem.len() as int,
            ) == opts.sep@ + text
            &&& opts.date_mode == DateMode::Off ==> t == stem
        }),
{
    let text = strftime_text(d, opts.format_text()).unwrap();
    let t = opts.dated_stem(stem, Some(d)).unwrap();
    if opts.date_mode == DateMode::Prefix {
        assert(t.take(t.len() - stem.len()) =~= text + opts.sep@);
        assert(t.skip(t.len() - stem.len()) =~= stem);
    }
    if opts.date_mode == DateMode::Suffix {
        assert(t.take(stem.len() as int) =~= stem);
        assert(t.skip(stem.len() as int) =~= opts.sep@ + text);
    }
}

impl DatePrefix {
    /// The `strftime` format of the date part, with `sep` between segments.
    fn get_format(&self, sep: &str, full_year: bool) -> (r: String)
        ensures
            r@ == prefix_format(*self, sep@, full_year),
    {
        let y = if full_year {
            "%Y"
        } else {
            "%y"
        };
        let mut out = String::new();
        match self {
            DatePrefix::Dmy => {
                out.append("%d");
                out.append(sep);
                out.append("%m");
                out.append(sep);
                out.append(y);
            },
            DatePrefix::Mdy => {
                out.append("%m");
                out.append(sep);
                out.append("%d");
                out.append(sep);
                out.append(y);
            },
            DatePrefix::Ymd => {
                out.append(y);
                out.append(sep);
                out.append("%m");
                out.append(sep);
                out.append("%d");
            },
        }
        assert(out@ =~= prefix_format(*self, sep@, full_year));
        out
    }
}

impl DateSuffix {
    /// The `strftime` format of the time part, with `sep` between segments.
    fn get_format(&self, sep: &str) -> (r: String)
        ensures
            r@ == suffix_format(*self, sep@),
    {
        let mut out = String::new();
        match self {
            DateSuffix::Hm => {
                out.append("%H");
                out.append(sep);
                out.append("%M");
            },
            DateSuffix::Hms => {
                out.append("%H");
                out.append(sep);
                out.append("%M");
                out.append(sep);
                out.append("%S");
            },
        }
        assert(out@ =~= suffix_format(*self, sep@));
        out
    }
}

impl DateOptions {
    /// The `strftime` format that the options describe.
    pub open spec fn format_text(&self) -> Seq<char> {
        match self.fmt {
            DateFormat::Std((p, s)) => prefix_format(p, self.seg@, self.full_year) + match s {
                Some(x) => self.seg@ + suffix_format(x, self.seg@),
                None => Seq::empty(),
            },
            DateFormat::Custom(f) => f@,
        }
    }

    /// The stem after adding `date` (if the platform reported one) to `stem`, or
    /// `None` where the date cannot be written with the format.
    pub open spec fn dated_stem(&self, stem: Seq<char>, date: Option<DateStamp>) -> Option<Seq<char>> {
        match date {
            None => Some(stem),
            Some(d) => match self.date_mode {
                DateMode::Off => Some(stem),
                DateMode::Prefix => match strftime_text(d, self.format_text()) {
                    Some(t) => Some(t + self.sep@ + stem),
                    None => None,
                },
                DateMode::Suffix => match strftime_text(d, self.format_text()) {
                    Some(t) => Some(stem + self.sep@ + t),
                    None => None,
                },
            },
        }
    }

    /// The `strftime` format that the options describe.
    fn format_string(&self) -> (r: String)
        ensures
            r@ == self.format_text(),
    {
        match &self.fmt {
            DateFormat::Std((prefix, suffix)) => {
                let mut fmt = prefix.get_format(self.seg.as_str(), self.full_year);
                match suffix {
                    Some(suf) => {
                        fmt.append(self.seg.as_str());
                        fmt.append(suf.get_format(self.seg.as_str()).as_str());
                    },
                    None => {},
                }
                assert(fmt@ =~= self.format_text());
                fmt
            },
            DateFormat::Custom(fmt) => fmt.clone(),
        }
    }

    /// `stem` with `date` (where the platform reported one) added before or
    /// after it; `None` where chrono cannot write the date with the format.
    pub fn date_stem(&self, stem: &str, date: Option<DateStamp>) -> (r: Option<String>)
        ensures
            opt_view(r) == self.dated_stem(stem@, date),
    {
        match date {
            None => Some(stem.to_owned()),
            Some(d) => match self.date_mode {
                DateMode::Off => Some(stem.to_owned()),
                DateMode::Prefix => {
                    let fmt = self.format_string();
                    match strftime(&d, fmt.as_str()) {
                        Some(t) => {
                            let mut out = t;
                            out.append(self.sep.as_str());
                            out.append(stem);
                            Some(out)
                        },
                        None => None,
                    }
                },
                DateMode::Suffix => {
                    let fmt = self.format_string();
                    match strftime(&d, fmt.as_str()) {
                        Some(t) => {
                            let mut out = stem.to_owned();
                            out.append(self.sep.as_str());
                            out.append(t.as_str());
                            Some(out)
                        },
                        None => None,
                    }
                },
            },
        }
    }
}

/// The name of a standard format, or the format string of a custom one.
pub open spec fn format_name(f: DateFormat) -> Seq<char> {
    match f {
        DateFormat::Std((DatePrefix::Dmy, None)) => "DMY"@,
        DateFormat::Std((DatePrefix::Mdy, None)) => "MDY"@,
        DateFormat::Std((DatePrefix::Ymd, None)) => "YMD"@,
        DateFormat::Std((DatePrefix::Dmy, Some(DateSuffix::Hm))) => "DMY HM"@,
        DateFormat::Std((DatePrefix::Mdy, Some(DateSuffix::Hm))) => "MDY HM"@,
        DateFormat::Std((DatePrefix::Ymd, Some(DateSuffix::Hm))) => "YMD HM"@,
        DateFormat::Std((DatePrefix::Dmy, Some(DateSuffix::Hms))) => "DMY HMS"@,
        DateFormat::Std((DatePrefix::Mdy, Some(DateSuffix::Hms))) => "MDY HMS"@,
        DateFormat::Std((DatePrefix::Ymd, Some(DateSuffix::Hms))) => "YMD HMS"@,
        DateFormat::Custom(f) => f@,
    }
}

/// A date goes around the stem, never into it: a prefixed date leaves the stem
/// at the end, a suffixed one at the start; with no date or mode `Off` the stem
/// is unchanged, and only writing the date can fail.
pub proof fn lemma_date_keeps_stem(opts: DateOptions, stem: Seq<char>, date: Option<DateStamp>)
    ensures
        match opts.dated_stem(stem, date) {
            Some(t) => {
                &&& (date is None || opts.date_mode == DateMode::Off) ==> t == stem
                &&& (date is Some && opts.date_mode == DateMode::Prefix) ==> t.len() >= stem.len()
                    && t.skip(t.len() - stem.len()) == stem
                &&& (date is Some && opts.date_mode == DateMode::Suffix) ==> t.len() >= stem.len()
                    && t.take(stem.len() as int) == stem
            },
            None => date is Some && opts.date_mode != DateMode::Off && strftime_text(
                date.unwrap(),
                opts.format_text(),
            ) is None,
        },
{
    match opts.dated_stem(stem, date) {
        Some(t) => {
            if date is Some && opts.date_mode == DateMode::Prefix {
                assert(t.skip(t.len() - stem.len()) =~= stem);
            }
            if date is Some && opts.date_mode == DateMode::Suffix {
                assert(t.take(stem.len() as int) =~= stem);
            }
        },
        None => {},
    }
}

impl DateFormat {
    /// The name of a standard format, or the format string of a custom one.
    pub fn format(&self) -> (r: &str)
        ensures
            r@ == format_name(*self),
    {
        match self {
            DateFormat::Std((DatePrefix::Dmy, None)) => "DMY",
            DateFormat::Std((DatePrefix::Mdy, None)) => "MDY",
            DateFormat::Std((DatePrefix::Ymd, None)) => "YMD",
            DateFormat::Std((DatePrefix::Dmy, Some(DateSuffix::Hm))) => "DMY HM",
            DateFormat::Std((DatePrefix::Mdy, Some(DateSuffix::Hm))) => "MDY HM",
            DateFormat::Std((DatePrefix::Ymd, Some(DateSuffix::Hm))) => "YMD HM",
            DateFormat::Std((DatePrefix::Dmy, Some(DateSuffix::Hms))) => "DMY HMS",
            DateFormat::Std((DatePrefix::Mdy, Some(DateSuffix::Hms))) => "MDY HMS",
            DateFormat::Std((DatePrefix::Ymd, Some(DateSuffix::Hms))) => "YMD HMS",
            DateFormat::Custom(fmt) => fmt.as_str(),
        }
    }
}

impl DateFormat {
    /// The name of the format, for display ("Custom" for a custom format).
    pub fn label(&self) -> (r: &str)
        ensures
            r@ == match self {
                DateFormat::Custom(_) => "Custom"@,
                _ => format_name(*self),
            },
    {
        match self {
            DateFormat::Custom(_) => "Custom",
            _ => self.format(),
        }
    }

    /// Every format offered: the nine standard ones, then an empty custom one.
    pub fn iter() -> (r: Vec<DateFormat>)
        ensures
            r.len() == 10,
            r[0] == DateFormat::Std((DatePrefix::Dmy, None)),
            r[1] == DateFormat::Std((DatePrefix::Mdy, None)),
            r[2] == DateFormat::Std((DatePrefix::Ymd, None)),
            r[3] == DateFormat::Std((DatePrefix::Dmy, Some(DateSuffix::Hm))),
            r[4] == DateFormat::Std((DatePrefix::Mdy, Some(DateSuffix::Hm))),
            r[5] == DateFormat::Std((DatePrefix::Ymd, Some(DateSuffix::Hm))),
            r[6] == DateFormat::Std((DatePrefix::Dmy, Some(DateSuffix::Hms))),
            r[7] == DateFormat::Std((DatePrefix::Mdy, Some(DateSuffix::Hms))),
            r[8] == DateFormat::Std((DatePrefix::Ymd, Some(DateSuffix::Hms))),
            r[9] matches DateFormat::Custom(f) && f@.len() == 0,
    {
        let mut r: Vec<DateFormat> = Vec::new();
        r.push(DateFormat::Std((DatePrefix::Dmy, None)));
        r.push(DateFormat::Std((DatePrefix::Mdy, None)));
        r.push(DateFormat::Std((DatePrefix::Ymd, None)));
        r.push(DateFormat::Std((DatePrefix::Dmy, Some(DateSuffix::Hm))));
        r.push(DateFormat::Std((DatePrefix::Mdy, Some(DateSuffix::Hm))));
        r.push(DateFormat::Std((DatePrefix::Ymd, Some(DateSuffix::Hm))));
        r.push(DateFormat::Std((DatePrefix::Dmy, Some(DateSuffix::Hms))));
        r.push(DateFormat::Std((DatePrefix::Mdy, Some(DateSuffix::Hms))));
        r.push(DateFormat::Std((DatePrefix::Ymd, Some(DateSuffix::Hms))));
        r.push(DateFormat::Custom(String::new()));
        r
    }
}

} // verus!
