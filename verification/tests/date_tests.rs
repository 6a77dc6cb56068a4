use chrono::{Datelike, Local, Timelike};
use renameit::date::{DateFormat, DateMode, DatePrefix, DateStamp, DateSuffix, DateType};
use renameit::{DateOptions, Renamer};

fn now_stamp() -> (DateStamp, chrono::DateTime<Local>) {
    let now = Local::now();
    let stamp = DateStamp {
        year: now.year(),
        month: now.month(),
        day: now.day(),
        hour: now.hour(),
        minute: now.minute(),
        second: now.second(),
        nanosecond: now.nanosecond(),
        offset_seconds: now.offset().local_minus_utc(),
    };
    (stamp, now)
}

#[test]
fn prefix_date_modified_hyphen_separator_full_year() {
    let file = Renamer::new("test file0.txt", false).unwrap();
    let date_mode = DateMode::Prefix;
    let date_type = DateType::Modified;
    let fmt = DateFormat::Std((DatePrefix::Dmy, None));
    let sep = "-".into();
    let seg = "_".into();
    let full_year = true;
    let opt = DateOptions {
        date_mode,
        date_type,
        fmt,
        sep,
        seg,
        full_year,
    };
    let (stamp, now) = now_stamp();
    let date = format!("{}", now.format("%d_%m_%Y"));
    let expected = format!("{date}-test file0");
    let stem = opt.date_stem(file.stem(), Some(stamp)).unwrap();
    assert_eq!(stem, expected);
}

#[test]
fn suffix_date_created_no_separator() {
    let file = Renamer::new("test file1.txt", false).unwrap();
    let date_mode = DateMode::Suffix;
    let date_type = DateType::Created;
    let fmt = DateFormat::Std((DatePrefix::Dmy, None));
    let sep = "".into();
    let seg = "_".into();
    let full_year = false;
    let opt = DateOptions {
        date_mode,
        date_type,
        fmt,
        sep,
        seg,
        full_year,
    };
    let (stamp, now) = now_stamp();
    let stem = opt.date_stem(file.stem(), Some(stamp)).unwrap();
    let date = format!("{}", now.format("%d_%m_%y"));
    let expected = format!("test file1{date}");
    assert_eq!(stem, expected);
}

#[test]
fn prefix_date_current_custom_format() {
    let file = Renamer::new("test file2.txt", false).unwrap();
    let date_mode = DateMode::Prefix;
    let date_type = DateType::Current;
    let fmt = DateFormat::Custom(String::from("%v++"));
    let sep = "~".into();
    let seg = "_".into();
    let full_year = true;
    let opt = DateOptions {
        date_mode,
        date_type,
        fmt,
        sep,
        seg,
        full_year,
    };
    let (stamp, now) = now_stamp();
    let date = format!("{}", now.format("%v"));
    let expected = format!("{date}++~test file2");
    let stem = opt.date_stem(file.stem(), Some(stamp)).unwrap();
    assert_eq!(stem, expected);
}

fn fixed_stamp() -> DateStamp {
    DateStamp {
        year: 2024,
        month: 3,
        day: 9,
        hour: 7,
        minute: 5,
        second: 1,
        nanosecond: 0,
        offset_seconds: 3600,
    }
}

#[test]
fn standard_formats_with_time() {
    let opt = DateOptions {
        date_mode: DateMode::Suffix,
        date_type: DateType::Current,
        fmt: DateFormat::Std((DatePrefix::Ymd, Some(DateSuffix::Hms))),
        sep: " ".into(),
        seg: ".".into(),
        full_year: false,
    };
    assert_eq!(opt.date_stem("x", Some(fixed_stamp())).unwrap(), "x 24.03.09.07.05.01");
    let opt = DateOptions { fmt: DateFormat::Std((DatePrefix::Mdy, Some(DateSuffix::Hm))), full_year: true, ..opt };
    assert_eq!(opt.date_stem("x", Some(fixed_stamp())).unwrap(), "x 03.09.2024.07.05");
}

#[test]
fn missing_date_or_mode_off_keeps_stem_and_bad_format_fails() {
    let opt = DateOptions {
        date_mode: DateMode::Prefix,
        date_type: DateType::Created,
        fmt: DateFormat::Custom("%Q".into()),
        sep: "".into(),
        seg: "".into(),
        full_year: false,
    };
    assert_eq!(opt.date_stem("x", None).unwrap(), "x");
    assert_eq!(opt.date_stem("x", Some(fixed_stamp())), None);
    let off = DateOptions { date_mode: DateMode::Off, ..opt };
    assert_eq!(off.date_stem("x", Some(fixed_stamp())).unwrap(), "x");
}

#[test]
fn date_format_names() {
    assert_eq!(DateFormat::Std((DatePrefix::Dmy, None)).format(), "DMY");
    assert_eq!(DateFormat::Std((DatePrefix::Ymd, Some(DateSuffix::Hms))).format(), "YMD HMS");
    assert_eq!(DateFormat::Custom("%v".into()).format(), "%v");
}
